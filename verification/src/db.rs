use vstd::prelude::*;
use crate::models::{Profile, ProfileModel, QueryModel, SavedQuery, Session, SurrDB};
use crate::models::loaded_from;
use crate::utils::str_eq;

verus! {

#[verifier::external_type_specification]
#[verifier::external_body]
pub struct ExConnection(rusqlite::Connection);

/// Handle to the local store: one SQLite database holding the profile table
/// and the saved-query table.
pub struct Store {
    conn: rusqlite::Connection,
}

/// What the profile table holds, in insertion (rowid) order.
pub uninterp spec fn profiles_of(c: rusqlite::Connection) -> Seq<ProfileModel>;

/// What the saved-query table holds, in insertion (rowid) order.
pub uninterp spec fn queries_of(c: rusqlite::Connection) -> Seq<QueryModel>;

impl Store {
    /// The stored profiles, oldest first.
    pub closed spec fn profiles(self) -> Seq<ProfileModel> {
        profiles_of(self.conn)
    }

    /// The stored queries, oldest first.
    pub closed spec fn queries(self) -> Seq<QueryModel> {
        queries_of(self.conn)
    }

    /// Relies on rusqlite's `Connection::open` and `Connection::execute`:
    /// opens (creating it if absent) the SQLite file at `path` and creates the
    /// two tables if they do not exist yet. Nothing is promised of the
    /// contents, which are whatever the file already held.
    #[verifier::external_body]
    pub fn open(path: &str) -> (r: Result<Store, StoreError>) {
        let conn = rusqlite::Connection::open(path).map_err(|_| StoreError::Storage)?;
        conn.execute(
            "CREATE TABLE IF NOT EXISTS Profile (pid INTEGER PRIMARY KEY AUTOINCREMENT, Idx TEXT NOT NULL, Host TEXT NOT NULL, Sch TEXT NOT NULL, DBUser TEXT NOT NULL, NS TEXT NOT NULL, DB TEXT NOT NULL, Date TEXT NOT NULL)",
            [],
        ).map_err(|_| StoreError::Storage)?;
        conn.execute(
            "CREATE TABLE IF NOT EXISTS SQuery (qid INTEGER PRIMARY KEY AUTOINCREMENT, Idx TEXT, Query TEXT)",
            [],
        ).map_err(|_| StoreError::Storage)?;
        Ok(Store { conn })
    }
}

/// Result of a store operation that ran to completion.
#[derive(Clone, Copy, PartialEq, Eq, Structural, Debug)]
pub enum Outcome {
    /// The record was written, deleted or loaded.
    Done,
    /// A record of that name already exists; nothing was changed.
    Conflict,
    /// No record of that name exists; nothing was changed.
    NotFound,
    /// No query has been executed yet, so there is nothing to save.
    NoQuery,
}

/// A store operation that could not run to completion.
#[derive(Clone, Copy, PartialEq, Eq, Structural, Debug)]
pub enum StoreError {
    /// The underlying storage engine reported a failure.
    Storage,
    /// The requested record is absent.
    NotFound,
}

pub open spec fn view_profiles(v: Seq<Profile>) -> Seq<ProfileModel> {
    v.map_values(|p: Profile| p@)
}

pub open spec fn view_queries(v: Seq<SavedQuery>) -> Seq<QueryModel> {
    v.map_values(|q: SavedQuery| q@)
}

pub open spec fn has_profile(ps: Seq<ProfileModel>, name: Seq<char>) -> bool {
    exists|i: int| 0 <= i < ps.len() && ps[i].idx == name
}

/// The oldest stored profile named `name`.
pub open spec fn first_profile(ps: Seq<ProfileModel>, name: Seq<char>) -> ProfileModel
    decreases ps.len(),
{
    if ps.len() == 0 {
        arbitrary()
    } else if ps[0].idx == name {
        ps[0]
    } else {
        first_profile(ps.drop_first(), name)
    }
}

pub open spec fn has_query(qs: Seq<QueryModel>, name: Seq<char>) -> bool {
    exists|i: int| 0 <= i < qs.len() && qs[i].idx == name
}

/// The oldest stored query named `name`.
pub open spec fn first_query(qs: Seq<QueryModel>, name: Seq<char>) -> QueryModel
    decreases qs.len(),
{
    if qs.len() == 0 {
        arbitrary()
    } else if qs[0].idx == name {
        qs[0]
    } else {
        first_query(qs.drop_first(), name)
    }
}

pub proof fn lemma_first_profile_at(ps: Seq<ProfileModel>, name: Seq<char>, i: int)
    requires
        0 <= i < ps.len(),
        ps[i].idx == name,
        forall|j: int| 0 <= j < i ==> ps[j].idx != name,
    ensures
        first_profile(ps, name) == ps[i],
    decreases i,
{
    if ps[0].idx == name {
        assert(i == 0);
    } else {
        lemma_first_profile_at(ps.drop_first(), name, i - 1);
    }
}

pub proof fn lemma_first_query_at(qs: Seq<QueryModel>, name: Seq<char>, i: int)
    requires
        0 <= i < qs.len(),
        qs[i].idx == name,
        forall|j: int| 0 <= j < i ==> qs[j].idx != name,
    ensures
        first_query(qs, name) == qs[i],
    decreases i,
{
    if qs[0].idx == name {
        assert(i == 0);
    } else {
        lemma_first_query_at(qs.drop_first(), name, i - 1);
    }
}

/// Relies on rusqlite's `Connection::prepare` and `Statement::query_map`: a
/// SELECT ordered by the autoincrement key yields the stored rows in
/// insertion order, which is what `Store::profiles` denotes.
#[verifier::external_body]
fn read_profiles(s: &Store) -> (r: Result<Vec<Profile>, StoreError>)
    ensures
        r matches Ok(v) ==> view_profiles(v@) == profiles_of(s.conn),
        r matches Err(e) ==> e is Storage,
{
    let mut stmt = s.conn.prepare(
        "SELECT Idx, Host, Sch, DBUser, NS, DB, Date FROM Profile ORDER BY pid",
    ).map_err(|_| StoreError::Storage)?;
    let rows = stmt.query_map([], |row| Ok(Profile {
        idx: row.get(0)?,
        host: row.get(1)?,
        sch: row.get(2)?,
        dbuser: row.get(3)?,
        ns: row.get(4)?,
        db: row.get(5)?,
        date: row.get(6)?,
    })).map_err(|_| StoreError::Storage)?;
    rows.collect::<Result<Vec<Profile>, rusqlite::Error>>().map_err(|_| StoreError::Storage)
}

/// Relies on rusqlite's `Connection::prepare` and `Statement::query_map`, as
/// `read_profiles` does, on the saved-query table.
#[verifier::external_body]
fn read_queries(s: &Store) -> (r: Result<Vec<SavedQuery>, StoreError>)
    ensures
        r matches Ok(v) ==> view_queries(v@) == queries_of(s.conn),
        r matches Err(e) ==> e is Storage,
{
    let mut stmt = s.conn.prepare(
        "SELECT Idx, Query FROM SQuery ORDER BY qid",
    ).map_err(|_| StoreError::Storage)?;
    let rows = stmt.query_map([], |row| Ok(SavedQuery {
        idx: row.get(0)?,
        query: row.get(1)?,
    })).map_err(|_| StoreError::Storage)?;
    rows.collect::<Result<Vec<SavedQuery>, rusqlite::Error>>().map_err(|_| StoreError::Storage)
}

/// Relies on rusqlite's `Connection::execute` running a single INSERT: on
/// success SQLite appends exactly one row holding the given values, with the
/// Date column set by `datetime('now','localtime')` to a non-empty text whose
/// exact value depends on the clock. The saved-query table is untouched. A
/// failed statement rolls its own changes back, so on an error the store is
/// exactly as it was.
#[verifier::external_body]
fn insert_profile_row(
    s: &mut Store,
    name: &str,
    host: &str,
    sch: &str,
    user: &str,
    ns: &str,
    db: &str,
) -> (r: Result<(), StoreError>)
    ensures
        r is Ok ==> profiles_of(final(s).conn).len() == profiles_of(old(s).conn).len() + 1
            && profiles_of(final(s).conn).subrange(0, profiles_of(old(s).conn).len() as int)
                == profiles_of(old(s).conn)
            && profiles_of(final(s).conn).last().idx == name@
            && profiles_of(final(s).conn).last().host == host@
            && profiles_of(final(s).conn).last().sch == sch@
            && profiles_of(final(s).conn).last().dbuser == user@
            && profiles_of(final(s).conn).last().ns == ns@
            && profiles_of(final(s).conn).last().db == db@
            && profiles_of(final(s).conn).last().date.len() > 0
            && queries_of(final(s).conn) == queries_of(old(s).conn),
        r matches Err(e) ==> e is Storage && *final(s) == *old(s),
{
    s.conn.execute(
        "INSERT INTO Profile (Idx, Host, Sch, DBUser, NS, DB, Date) VALUES (?, ?, ?, ?, ?, ?, datetime('now', 'localtime'))",
        [name, host, sch, user, ns, db],
    ).map_err(|_| StoreError::Storage)?;
    Ok(())
}

/// Relies on rusqlite's `Connection::execute` running a single DELETE: on
/// success exactly the rows whose Idx equals `name` are gone, the rest keep
/// their order, and the saved-query table is untouched. A failed statement
/// rolls its own changes back, so on an error the store is exactly as it was.
#[verifier::external_body]
fn delete_profile_rows(s: &mut Store, name: &str) -> (r: Result<(), StoreError>)
    ensures
        r is Ok ==> profiles_of(final(s).conn)
            == profiles_of(old(s).conn).filter(|p: ProfileModel| p.idx != name@)
            && queries_of(final(s).conn) == queries_of(old(s).conn),
        r matches Err(e) ==> e is Storage && *final(s) == *old(s),
{
    s.conn.execute("DELETE FROM Profile WHERE Idx = ?", [name])
        .map_err(|_| StoreError::Storage)?;
    Ok(())
}

/// Relies on rusqlite's `Connection::execute` running a single INSERT: on
/// success SQLite appends exactly one row holding the given name and text,
/// and the profile table is untouched. A failed statement rolls its own
/// changes back, so on an error the store is exactly as it was.
#[verifier::external_body]
fn insert_query_row(s: &mut Store, name: &str, text: &str) -> (r: Result<(), StoreError>)
    ensures
        r is Ok ==> queries_of(final(s).conn)
            == queries_of(old(s).conn).push(QueryModel { idx: name@, query: text@ })
            && profiles_of(final(s).conn) == profiles_of(old(s).conn),
        r matches Err(e) ==> e is Storage && *final(s) == *old(s),
{
    s.conn.execute("INSERT INTO SQuery (Idx, Query) VALUES (?, ?)", [name, text])
        .map_err(|_| StoreError::Storage)?;
    Ok(())
}

/// Relies on rusqlite's `Connection::execute` running a single DELETE, as
/// `delete_profile_rows` does, on the saved-query table; a failed statement
/// likewise leaves the store exactly as it was.
#[verifier::external_body]
fn delete_query_rows(s: &mut Store, name: &str) -> (r: Result<(), StoreError>)
    ensures
        r is Ok ==> queries_of(final(s).conn)
            == queries_of(old(s).conn).filter(|q: QueryModel| q.idx != name@)
            && profiles_of(final(s).conn) == profiles_of(old(s).conn),
        r matches Err(e) ==> e is Storage && *final(s) == *old(s),
{
    s.conn.execute("DELETE FROM SQuery WHERE Idx = ?", [name])
        .map_err(|_| StoreError::Storage)?;
    Ok(())
}

/// Position of the oldest profile named `idx`, if any.
pub fn find_profile(v: &Vec<Profile>, idx: &str) -> (r: Option<usize>)
    ensures
        r matches Some(i) ==> i < v@.len() && view_profiles(v@)[i as int].idx == idx@
            && (forall|j: int| 0 <= j < i ==> view_profiles(v@)[j].idx != idx@)
            && has_profile(view_profiles(v@), idx@),
        r is None ==> !has_profile(view_profiles(v@), idx@),
{
    let mut i: usize = 0;
    while i < v.len()
        invariant
            i <= v@.len(),
            forall|j: int| 0 <= j < i ==> v@[j]@.idx != idx@,
        decreases v@.len() - i,
    {
        if str_eq(v[i].idx.as_str(), idx) {
            proof {
                assert(view_profiles(v@)[i as int] == v@[i as int]@);
                assert forall|j: int| 0 <= j < i
                    implies view_profiles(v@)[j].idx != idx@ by {
                    assert(view_profiles(v@)[j] == v@[j]@);
                }
            }
            return Some(i);
        }
        i += 1;
    }
    proof {
        assert forall|j: int| 0 <= j < view_profiles(v@).len()
            implies view_profiles(v@)[j].idx != idx@ by {
            assert(view_profiles(v@)[j] == v@[j]@);
        }
    }
    None
}

/// Position of the oldest saved query named `idx`, if any.
pub fn find_query(v: &Vec<SavedQuery>, idx: &str) -> (r: Option<usize>)
    ensures
        r matches Some(i) ==> i < v@.len() && view_queries(v@)[i as int].idx == idx@
            && (forall|j: int| 0 <= j < i ==> view_queries(v@)[j].idx != idx@)
            && has_query(view_queries(v@), idx@),
        r is None ==> !has_query(view_queries(v@), idx@),
{
    let mut i: usize = 0;
    while i < v.len()
        invariant
            i <= v@.len(),
            forall|j: int| 0 <= j < i ==> v@[j]@.idx != idx@,
        decreases v@.len() - i,
    {
        if str_eq(v[i].idx.as_str(), idx) {
            proof {
                assert(view_queries(v@)[i as int] == v@[i as int]@);
                assert forall|j: int| 0 <= j < i
                    implies view_queries(v@)[j].idx != idx@ by {
                    assert(view_queries(v@)[j] == v@[j]@);
                }
            }
            return Some(i);
        }
        i += 1;
    }
    proof {
        assert forall|j: int| 0 <= j < view_queries(v@).len()
            implies view_queries(v@)[j].idx != idx@ by {
            assert(view_queries(v@)[j] == v@[j]@);
        }
    }
    None
}

/// Whether a profile named `idx` is stored.
pub fn db_valid_index(store: &Store, idx: &str) -> (r: Result<bool, StoreError>)
    ensures
        r matches Ok(b) ==> b == has_profile(store.profiles(), idx@),
        r matches Err(e) ==> e is Storage,
{
    let rows = read_profiles(store)?;
    match find_profile(&rows, idx) {
        Some(_) => Ok(true),
        None => Ok(false),
    }
}

/// Whether a saved query named `idx` is stored.
pub fn db_valid_query_index(store: &Store, idx: &str) -> (r: Result<bool, StoreError>)
    ensures
        r matches Ok(b) ==> b == has_query(store.queries(), idx@),
        r matches Err(e) ==> e is Storage,
{
    let rows = read_queries(store)?;
    match find_query(&rows, idx) {
        Some(_) => Ok(true),
        None => Ok(false),
    }
}

/// All stored profiles, oldest first.
pub fn db_list_profiles(store: &Store) -> (r: Result<Vec<Profile>, StoreError>)
    ensures
        r matches Ok(v) ==> view_profiles(v@) == store.profiles(),
        r matches Err(e) ==> e is Storage,
{
    read_profiles(store)
}

/// All stored queries, oldest first.
pub fn db_list_queries(store: &Store) -> (r: Result<Vec<SavedQuery>, StoreError>)
    ensures
        r matches Ok(v) ==> view_queries(v@) == store.queries(),
        r matches Err(e) ==> e is Storage,
{
    read_queries(store)
}

/// The stored profile a successful save of `s` under `name` adds: every field
/// is taken from the session but the creation date, which the store fills in
/// with some non-empty text.
pub open spec fn saved_profile(
    ps0: Seq<ProfileModel>,
    ps1: Seq<ProfileModel>,
    s: Session,
    name: Seq<char>,
) -> bool {
    ps1.len() == ps0.len() + 1
    && ps1.subrange(0, ps0.len() as int) == ps0
    && ps1.last().idx == name
    && ps1.last().host == s.host
    && ps1.last().sch == s.schema
    && ps1.last().dbuser == s.user
    && ps1.last().ns == s.namespace
    && ps1.last().db == s.database
    && ps1.last().date.len() > 0
}

impl SurrDB {
    /// Persist the current session as a profile named `name`. A duplicate
    /// name is a conflict and leaves the store exactly as it was.
    pub fn db_save_profile(&self, store: &mut Store, name: &str) -> (r: Result<
        Outcome,
        StoreError,
    >)
        ensures
            r matches Ok(o) ==> (o is Conflict || o is Done),
            r matches Ok(o) ==> ((o is Conflict) <==> has_profile(
                old(store).profiles(),
                name@,
            )),
            r matches Ok(o) && o is Conflict ==> *final(store) == *old(store),
            r matches Err(e) ==> e is Storage && *final(store) == *old(store),
            r matches Ok(o) && o is Done ==> saved_profile(
                old(store).profiles(),
                final(store).profiles(),
                self@,
                name@,
            ) && final(store).queries() == old(store).queries(),
    {
        let rows = read_profiles(store)?;
        if find_profile(&rows, name).is_some() {
            return Ok(Outcome::Conflict);
        }
        insert_profile_row(
            store,
            name,
            self.host.as_str(),
            self.schema.as_str(),
            self.user.as_str(),
            self.namespace.as_str(),
            self.database.as_str(),
        )?;
        Ok(Outcome::Done)
    }

    /// Load the oldest profile named `idx` into the session: exactly the five
    /// connection fields change. An absent name leaves the session as it was.
    pub fn db_set_profile_by_idx(&mut self, store: &Store, idx: &str) -> (r: Result<
        Outcome,
        StoreError,
    >)
        ensures
            r matches Ok(o) ==> (o is Done || o is NotFound),
            r matches Ok(o) ==> ((o is NotFound) <==> !has_profile(store.profiles(), idx@)),
            r is Err ==> *final(self) == *old(self),
            r matches Ok(o) && !(o is Done) ==> *final(self) == *old(self),
            r matches Ok(o) && o is Done ==> final(self)@ == loaded_from(
                old(self)@,
                first_profile(store.profiles(), idx@),
            ),
    {
        let rows = read_profiles(store)?;
        match find_profile(&rows, idx) {
            None => Ok(Outcome::NotFound),
            Some(i) => {
                proof {
                    lemma_first_profile_at(store.profiles(), idx@, i as int);
                    assert(view_profiles(rows@)[i as int] == rows@[i as int]@);
                }
                self.apply_profile(&rows[i]);
                Ok(Outcome::Done)
            },
        }
    }

    /// Persist the last executed query under `name`. An empty last query and
    /// a duplicate name are rejected without touching the store.
    pub fn db_save_query(&self, store: &mut Store, name: &str) -> (r: Result<
        Outcome,
        StoreError,
    >)
        ensures
            r matches Ok(o) ==> (o is Done || o is Conflict || o is NoQuery),
            r matches Ok(o) ==> ((o is NoQuery) <==> self@.query.len() == 0),
            self@.query.len() == 0 ==> (r matches Ok(o) && o is NoQuery) && *final(store)
                == *old(store),
            r matches Ok(o) ==> ((o is Conflict) <==> (self@.query.len() > 0 && has_query(
                old(store).queries(),
                name@,
            ))),
            r matches Ok(o) && (o is NoQuery || o is Conflict) ==> *final(store)
                == *old(store),
            r matches Err(e) ==> e is Storage && *final(store) == *old(store),
            r matches Ok(o) && o is Done ==> final(store).queries() == old(store).queries().push(
                QueryModel { idx: name@, query: self@.query },
            ) && final(store).profiles() == old(store).profiles(),
    {
        if self.query.as_str().is_empty() {
            return Ok(Outcome::NoQuery);
        }
        let rows = read_queries(store)?;
        if find_query(&rows, name).is_some() {
            return Ok(Outcome::Conflict);
        }
        insert_query_row(store, name, self.query.as_str())?;
        Ok(Outcome::Done)
    }
}

/// Delete every profile named `idx`. An absent name is reported and is a
/// no-op on the store.
pub fn db_drop_idx(store: &mut Store, idx: &str) -> (r: Result<Outcome, StoreError>)
    ensures
        r matches Ok(o) ==> (o is Done || o is NotFound),
        r matches Ok(o) ==> ((o is NotFound) <==> !has_profile(old(store).profiles(), idx@)),
        r matches Ok(o) && o is NotFound ==> *final(store) == *old(store),
        r matches Err(e) ==> e is Storage && *final(store) == *old(store),
        r matches Ok(o) && o is Done ==> final(store).profiles() == old(store).profiles().filter(
            |p: ProfileModel| p.idx != idx@,
        ) && final(store).queries() == old(store).queries(),
{
    let rows = read_profiles(store)?;
    if find_profile(&rows, idx).is_none() {
        return Ok(Outcome::NotFound);
    }
    delete_profile_rows(store, idx)?;
    Ok(Outcome::Done)
}

/// Delete every saved query named `idx`. An absent name is reported and is a
/// no-op on the store.
pub fn db_drop_query_idx(store: &mut Store, idx: &str) -> (r: Result<Outcome, StoreError>)
    ensures
        r matches Ok(o) ==> (o is Done || o is NotFound),
        r matches Ok(o) ==> ((o is NotFound) <==> !has_query(old(store).queries(), idx@)),
        r matches Ok(o) && o is NotFound ==> *final(store) == *old(store),
        r matches Err(e) ==> e is Storage && *final(store) == *old(store),
        r matches Ok(o) && o is Done ==> final(store).queries() == old(store).queries().filter(
            |q: QueryModel| q.idx != idx@,
        ) && final(store).profiles() == old(store).profiles(),
{
    let rows = read_queries(store)?;
    if find_query(&rows, idx).is_none() {
        return Ok(Outcome::NotFound);
    }
    delete_query_rows(store, idx)?;
    Ok(Outcome::Done)
}

/// The text of the oldest saved query named `idx`, or `NotFound` when no
/// query of that name is stored.
pub fn db_get_query_by_idx(store: &Store, idx: &str) -> (r: Result<String, StoreError>)
    ensures
        r matches Ok(t) ==> has_query(store.queries(), idx@) && t@ == first_query(
            store.queries(),
            idx@,
        ).query,
        r matches Err(e) && e is NotFound ==> !has_query(store.queries(), idx@),
        r matches Err(e) ==> (has_query(store.queries(), idx@) ==> e is Storage),
{
    let rows = read_queries(store)?;
    match find_query(&rows, idx) {
        None => Err(StoreError::NotFound),
        Some(i) => {
            proof {
                lemma_first_query_at(store.queries(), idx@, i as int);
                assert(view_queries(rows@)[i as int] == rows@[i as int]@);
            }
            Ok(rows[i].query.clone())
        },
    }
}

} // verus!
