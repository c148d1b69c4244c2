use vstd::prelude::*;
use crate::models::{Profile, ProfileModel, QueryModel, SavedQuery, Session, SurrDB};
use crate::models::loaded_from;
use crate::db::{Outcome, Store, StoreError};
use crate::db::{
    db_drop_idx, db_drop_query_idx, db_get_query_by_idx, db_list_profiles, db_list_queries,
    first_profile, first_query, has_profile, has_query, saved_profile, view_profiles,
    view_queries,
};
use crate::requester::{request_model, RequestSpec};
use crate::utils::{set_var_msg, set_var_session, str_eq, var_kind};

verus! {

/// The whitespace that separates tokens of an input line: the Unicode
/// White_Space set — tab through carriage return, space, next line,
/// no-break space, ogham space mark, the en-quad..hair-space range, line
/// and paragraph separators, narrow no-break space, medium mathematical
/// space, and ideographic space.
pub open spec fn is_ws(c: char) -> bool {
    let u = c as u32;
    (0x09 <= u && u <= 0x0D) || u == 0x20 || u == 0x85 || u == 0xA0 || u == 0x1680 || (0x2000
        <= u && u <= 0x200A) || u == 0x2028 || u == 0x2029 || u == 0x202F || u == 0x205F || u
        == 0x3000
}

fn is_ws_exec(c: char) -> (r: bool)
    ensures
        r == is_ws(c),
{
    let u = c as u32;
    (0x09 <= u && u <= 0x0D) || u == 0x20 || u == 0x85 || u == 0xA0 || u == 0x1680 || (0x2000
        <= u && u <= 0x200A) || u == 0x2028 || u == 0x2029 || u == 0x202F || u == 0x205F || u
        == 0x3000
}

/// First position at or after `i` that holds whitespace, or the end.
pub open spec fn token_end(s: Seq<char>, i: int) -> int
    decreases s.len() - i,
{
    if i < 0 || i >= s.len() || is_ws(s[i]) {
        i
    } else {
        token_end(s, i + 1)
    }
}

pub proof fn lemma_token_end_bounds(s: Seq<char>, i: int)
    requires
        0 <= i <= s.len(),
    ensures
        i <= token_end(s, i) <= s.len(),
        forall|k: int| i <= k < token_end(s, i) ==> !is_ws(s[k]),
        token_end(s, i) < s.len() ==> is_ws(s[token_end(s, i)]),
    decreases s.len() - i,
{
    if i < s.len() && !is_ws(s[i]) {
        lemma_token_end_bounds(s, i + 1);
    }
}

pub proof fn lemma_token_end_is(s: Seq<char>, i: int, j: int)
    requires
        0 <= i <= j <= s.len(),
        forall|k: int| i <= k < j ==> !is_ws(s[k]),
        j == s.len() || is_ws(s[j]),
    ensures
        token_end(s, i) == j,
    decreases j - i,
{
    if i < j {
        lemma_token_end_is(s, i + 1, j);
    }
}

/// The whitespace-separated tokens of `s`, from position `i` on: each token
/// is a maximal run of non-whitespace characters.
pub open spec fn tokens_from(s: Seq<char>, i: int) -> Seq<Seq<char>>
    decreases s.len() - i,
    via tokens_from_dec
{
    if i < 0 || i >= s.len() {
        seq![]
    } else if is_ws(s[i]) {
        tokens_from(s, i + 1)
    } else {
        seq![s.subrange(i, token_end(s, i))] + tokens_from(s, token_end(s, i))
    }
}

#[via_fn]
proof fn tokens_from_dec(s: Seq<char>, i: int) {
    if 0 <= i && i < s.len() && !is_ws(s[i]) {
        lemma_token_end_bounds(s, i);
    }
}

/// The tokens of a whole input line.
pub open spec fn spec_tokens(s: Seq<char>) -> Seq<Seq<char>> {
    tokens_from(s, 0)
}

/// The views of a vector of token strings.
pub open spec fn token_views(v: Seq<String>) -> Seq<Seq<char>> {
    v.map_values(|t: String| t@)
}

/// Split an input line into its whitespace-separated tokens.
pub fn tokenize(line: &str) -> (r: Vec<String>)
    ensures
        token_views(r@) == spec_tokens(line@),
{
    let n = line.unicode_len();
    let mut toks: Vec<String> = Vec::new();
    let mut i: usize = 0;
    while i < n
        invariant
            i <= n,
            n == line@.len(),
            spec_tokens(line@) == token_views(toks@) + tokens_from(line@, i as int),
        decreases n - i,
    {
        let c = line.get_char(i);
        if is_ws_exec(c) {
            i += 1;
        } else {
            let ghost toks0 = toks@;
            let ghost i0 = i as int;
            let mut j: usize = i + 1;
            while j < n && !is_ws_exec(line.get_char(j))
                invariant
                    i0 < j <= n,
                    n == line@.len(),
                    forall|k: int| i0 <= k < j ==> !is_ws(line@[k]),
                decreases n - j,
            {
                j += 1;
            }
            proof {
                lemma_token_end_is(line@, i0, j as int);
            }
            let tok = line.substring_char(i, j).to_owned();
            toks.push(tok);
            i = j;
            proof {
                assert(token_views(toks@) =~= token_views(toks0) + seq![line@.subrange(
                    i0,
                    j as int,
                )]);
                assert(token_views(toks0) + tokens_from(line@, i0) =~= token_views(toks@)
                    + tokens_from(line@, j as int));
            }
        }
    }
    proof {
        assert(tokens_from(line@, n as int) =~= Seq::<Seq<char>>::empty());
        assert(token_views(toks@) + tokens_from(line@, n as int) =~= token_views(toks@));
    }
    toks
}

/// One user-facing notice; how each is worded and coloured is left to the
/// presentation layer.
#[derive(Clone, Copy, PartialEq, Eq, Structural, Debug)]
pub enum Msg {
    /// `.set` takes exactly a variable and a value.
    UsageSet,
    /// `.save` takes a target and a name.
    UsageSave,
    /// `.save profile` takes exactly a name.
    UsageSaveProfile,
    /// `.save query` takes exactly a name.
    UsageSaveQuery,
    /// `.delete` takes a target and a name.
    UsageDelete,
    /// `.delete profile` takes exactly a name.
    UsageDeleteProfile,
    /// `.delete query` takes exactly a name.
    UsageDeleteQuery,
    /// `.show` takes exactly one target.
    UsageShow,
    /// `.run` takes a target and a name.
    UsageRun,
    /// `.run profile` takes exactly a name.
    UsageRunProfile,
    /// `.run query` takes exactly a name.
    UsageRunQuery,
    /// The target of `.save`, `.delete` or `.run` is neither profile nor query.
    NotProfileOrQuery,
    /// The target of `.show` is neither profiles nor queries.
    NotProfilesOrQueries,
    /// The user variable was replaced; a new password is to be prompted for.
    UserSet,
    /// The host variable was replaced.
    HostSet,
    /// The pretty-print flag was toggled.
    PrettyToggled,
    /// The namespace variable was replaced.
    NamespaceSet,
    /// The database variable was replaced.
    DatabaseSet,
    /// The transport schema was replaced.
    SchemaSet,
    /// The transport schema value is neither http nor https; nothing changed.
    InvalidSchema,
    /// No session variable of that name exists; nothing changed.
    NoSuchOption,
    /// The profile was written.
    ProfileSaved,
    /// A profile of that name already exists; the store is unchanged.
    ProfileExists,
    /// No profile of that name exists.
    ProfileNotFound,
    /// The named profile's rows were deleted.
    ProfileDeleted,
    /// The query was written.
    QuerySaved,
    /// A query of that name already exists; the store is unchanged.
    QueryExists,
    /// No saved query of that name exists.
    QueryNotFound,
    /// The named query's rows were deleted.
    QueryDeleted,
    /// No query has been executed yet, so there is nothing to save.
    NoQueryToSave,
    /// A saved query is about to be replayed.
    RunningQuery,
    /// The storage engine failed; the command was abandoned.
    StorageError,
}

/// What the caller has to carry out after a command was interpreted.
pub enum Effect {
    /// Nothing beyond showing the message, if any.
    Done,
    /// Show the help table.
    ShowHelp,
    /// Show the current session variables.
    ShowOptions,
    /// Show these stored profiles as a table.
    Profiles(Vec<Profile>),
    /// Show these stored queries as a table.
    Queries(Vec<SavedQuery>),
    /// Send this request and render its response.
    Send(RequestSpec),
    /// Prompt for a password without echo and hand the result (or an empty
    /// string, if the prompt fails) to `set_password`.
    AskPassword,
}

/// What one interpreted input line asks the caller to do.
pub struct Reply {
    pub msg: Option<Msg>,
    pub effect: Effect,
}

/// What one input line means.
pub ghost enum SpecCmd {
    /// A blank line: nothing happens.
    Empty,
    /// The line is exactly `.help`.
    Help,
    /// The line is exactly `.options`.
    Options,
    /// `.set <var> <value>`.
    SetVar(Seq<char>, Seq<char>),
    /// `.save profile <name>`.
    SaveProfile(Seq<char>),
    /// `.save query <name>`.
    SaveQuery(Seq<char>),
    /// `.delete profile <name>`.
    DeleteProfile(Seq<char>),
    /// `.delete query <name>`.
    DeleteQuery(Seq<char>),
    /// `.show profiles`.
    ShowProfiles,
    /// `.show queries`.
    ShowQueries,
    /// `.run profile <name>`.
    RunProfile(Seq<char>),
    /// `.run query <name>`.
    RunQuery(Seq<char>),
    /// A malformed meta-command: reported, with no action taken.
    Invalid(Msg),
    /// Anything else: the whole line is a query.
    Query,
}

pub open spec fn parse_save(ts: Seq<Seq<char>>) -> SpecCmd {
    if ts.len() < 2 {
        SpecCmd::Invalid(Msg::UsageSave)
    } else if ts[1] == "profile"@ {
        if ts.len() == 3 {
            SpecCmd::SaveProfile(ts[2])
        } else {
            SpecCmd::Invalid(Msg::UsageSaveProfile)
        }
    } else if ts[1] == "query"@ {
        if ts.len() == 3 {
            SpecCmd::SaveQuery(ts[2])
        } else {
            SpecCmd::Invalid(Msg::UsageSaveQuery)
        }
    } else {
        SpecCmd::Invalid(Msg::NotProfileOrQuery)
    }
}

pub open spec fn parse_delete(ts: Seq<Seq<char>>) -> SpecCmd {
    if ts.len() < 2 {
        SpecCmd::Invalid(Msg::UsageDelete)
    } else if ts[1] == "profile"@ {
        if ts.len() == 3 {
            SpecCmd::DeleteProfile(ts[2])
        } else {
            SpecCmd::Invalid(Msg::UsageDeleteProfile)
        }
    } else if ts[1] == "query"@ {
        if ts.len() == 3 {
            SpecCmd::DeleteQuery(ts[2])
        } else {
            SpecCmd::Invalid(Msg::UsageDeleteQuery)
        }
    } else {
        SpecCmd::Invalid(Msg::NotProfileOrQuery)
    }
}

pub open spec fn parse_show(ts: Seq<Seq<char>>) -> SpecCmd {
    if ts.len() != 2 {
        SpecCmd::Invalid(Msg::UsageShow)
    } else if ts[1] == "profiles"@ {
        SpecCmd::ShowProfiles
    } else if ts[1] == "queries"@ {
        SpecCmd::ShowQueries
    } else {
        SpecCmd::Invalid(Msg::NotProfilesOrQueries)
    }
}

pub open spec fn parse_run(ts: Seq<Seq<char>>) -> SpecCmd {
    if ts.len() < 2 {
        SpecCmd::Invalid(Msg::UsageRun)
    } else if ts[1] == "profile"@ {
        if ts.len() == 3 {
            SpecCmd::RunProfile(ts[2])
        } else {
            SpecCmd::Invalid(Msg::UsageRunProfile)
        }
    } else if ts[1] == "query"@ {
        if ts.len() == 3 {
            SpecCmd::RunQuery(ts[2])
        } else {
            SpecCmd::Invalid(Msg::UsageRunQuery)
        }
    } else {
        SpecCmd::Invalid(Msg::NotProfileOrQuery)
    }
}

/// Classify one input line. A line that is exactly a zero-argument
/// meta-command comes first; then the first token selects a meta-command,
/// which validates its own arity; any other non-blank line is a query.
pub open spec fn spec_parse(line: Seq<char>) -> SpecCmd {
    let ts = spec_tokens(line);
    if line == ".help"@ {
        SpecCmd::Help
    } else if line == ".options"@ {
        SpecCmd::Options
    } else if ts.len() == 0 {
        SpecCmd::Empty
    } else if ts[0] == ".set"@ {
        if ts.len() == 3 {
            SpecCmd::SetVar(ts[1], ts[2])
        } else {
            SpecCmd::Invalid(Msg::UsageSet)
        }
    } else if ts[0] == ".save"@ {
        parse_save(ts)
    } else if ts[0] == ".delete"@ {
        parse_delete(ts)
    } else if ts[0] == ".show"@ {
        parse_show(ts)
    } else if ts[0] == ".run"@ {
        parse_run(ts)
    } else {
        SpecCmd::Query
    }
}

/// Outcome of `.save profile <name>`: a conflict is reported and changes
/// nothing; otherwise the profile is appended — unless storage itself failed.
pub open spec fn save_profile_post(
    s: Session,
    st0: Store,
    st1: Store,
    name: Seq<char>,
    r: Reply,
) -> bool {
    r.effect is Done && (
        (r.msg == Some(Msg::StorageError) && st1 == st0)
        || (has_profile(st0.profiles(), name) && r.msg == Some(Msg::ProfileExists) && st1 == st0)
        || (!has_profile(st0.profiles(), name) && r.msg == Some(Msg::ProfileSaved)
            && saved_profile(st0.profiles(), st1.profiles(), s, name)
            && st1.queries() == st0.queries())
    )
}

/// Outcome of `.save query <name>`: with no last query there is nothing to
/// save; a conflict is reported and changes nothing; otherwise the query is
/// appended — unless storage itself failed.
pub open spec fn save_query_post(
    s: Session,
    st0: Store,
    st1: Store,
    name: Seq<char>,
    r: Reply,
) -> bool {
    r.effect is Done && (
        if s.query.len() == 0 {
            r.msg == Some(Msg::NoQueryToSave) && st1 == st0
        } else {
            (r.msg == Some(Msg::StorageError) && st1 == st0)
            || (has_query(st0.queries(), name) && r.msg == Some(Msg::QueryExists) && st1 == st0)
            || (!has_query(st0.queries(), name) && r.msg == Some(Msg::QuerySaved)
                && st1.queries() == st0.queries().push(QueryModel { idx: name, query: s.query })
                && st1.profiles() == st0.profiles())
        }
    )
}

/// Outcome of `.delete profile <name>`: an absent name is reported and is a
/// no-op; otherwise exactly the rows of that name are gone.
pub open spec fn delete_profile_post(st0: Store, st1: Store, name: Seq<char>, r: Reply) -> bool {
    r.effect is Done && (
        (r.msg == Some(Msg::StorageError) && st1 == st0)
        || (!has_profile(st0.profiles(), name) && r.msg == Some(Msg::ProfileNotFound) && st1 == st0)
        || (has_profile(st0.profiles(), name) && r.msg == Some(Msg::ProfileDeleted)
            && st1.profiles() == st0.profiles().filter(|p: ProfileModel| p.idx != name)
            && st1.queries() == st0.queries())
    )
}

/// Outcome of `.delete query <name>`, as for profiles.
pub open spec fn delete_query_post(st0: Store, st1: Store, name: Seq<char>, r: Reply) -> bool {
    r.effect is Done && (
        (r.msg == Some(Msg::StorageError) && st1 == st0)
        || (!has_query(st0.queries(), name) && r.msg == Some(Msg::QueryNotFound) && st1 == st0)
        || (has_query(st0.queries(), name) && r.msg == Some(Msg::QueryDeleted)
            && st1.queries() == st0.queries().filter(|q: QueryModel| q.idx != name)
            && st1.profiles() == st0.profiles())
    )
}

/// Outcome of `.show profiles`: the stored rows are handed to presentation.
pub open spec fn show_profiles_post(st0: Store, st1: Store, r: Reply) -> bool {
    st1 == st0 && (
        (r.msg == Some(Msg::StorageError) && r.effect is Done)
        || (r.msg is None && (r.effect matches Effect::Profiles(v) && view_profiles(v@)
            == st0.profiles()))
    )
}

/// Outcome of `.show queries`, as for profiles.
pub open spec fn show_queries_post(st0: Store, st1: Store, r: Reply) -> bool {
    st1 == st0 && (
        (r.msg == Some(Msg::StorageError) && r.effect is Done)
        || (r.msg is None && (r.effect matches Effect::Queries(v) && view_queries(v@)
            == st0.queries()))
    )
}

/// Outcome of `.run profile <name>`: the oldest profile of that name is
/// copied into the session; an absent name is reported and changes nothing.
pub open spec fn run_profile_post(
    s0: Session,
    s1: Session,
    st0: Store,
    st1: Store,
    name: Seq<char>,
    r: Reply,
) -> bool {
    st1 == st0 && r.effect is Done && (
        (r.msg == Some(Msg::StorageError) && s1 == s0)
        || (!has_profile(st0.profiles(), name) && r.msg == Some(Msg::ProfileNotFound) && s1 == s0)
        || (has_profile(st0.profiles(), name) && r.msg is None
            && s1 == loaded_from(s0, first_profile(st0.profiles(), name)))
    )
}

/// Outcome of `.run query <name>`: the saved text is sent exactly as stored
/// and becomes the last executed query; an absent name is reported and
/// changes nothing.
pub open spec fn run_query_post(
    s0: Session,
    s1: Session,
    st0: Store,
    st1: Store,
    name: Seq<char>,
    r: Reply,
) -> bool {
    st1 == st0 && (
        (r.msg == Some(Msg::StorageError) && s1 == s0 && r.effect is Done)
        || (!has_query(st0.queries(), name) && r.msg == Some(Msg::QueryNotFound) && s1 == s0
            && r.effect is Done)
        || (has_query(st0.queries(), name) && r.msg == Some(Msg::RunningQuery)
            && s1 == (Session { query: first_query(st0.queries(), name).query, ..s0 })
            && (r.effect matches Effect::Send(req) && req@ == request_model(
                s0,
                first_query(st0.queries(), name).query,
            )))
    )
}

/// What one interpreted line does to the session and the store, and what it
/// asks the caller to carry out, by the line's meaning.
pub open spec fn exec_post(
    s0: Session,
    s1: Session,
    st0: Store,
    st1: Store,
    line: Seq<char>,
    r: Reply,
) -> bool {
    match spec_parse(line) {
        SpecCmd::Empty => s1 == s0 && st1 == st0 && r.msg is None && r.effect is Done,
        SpecCmd::Help => s1 == s0 && st1 == st0 && r.msg is None && r.effect is ShowHelp,
        SpecCmd::Options => s1 == s0 && st1 == st0 && r.msg is None && r.effect is ShowOptions,
        SpecCmd::Invalid(m) => s1 == s0 && st1 == st0 && r.msg == Some(m) && r.effect is Done,
        SpecCmd::SetVar(var, val) => st1 == st0 && s1 == set_var_session(s0, var, val)
            && r.msg == Some(set_var_msg(var, val))
            && ((r.effect is AskPassword) <==> (var_kind(var) is User))
            && (!(var_kind(var) is User) ==> r.effect is Done),
        SpecCmd::SaveProfile(n) => s1 == s0 && save_profile_post(s0, st0, st1, n, r),
        SpecCmd::SaveQuery(n) => s1 == s0 && save_query_post(s0, st0, st1, n, r),
        SpecCmd::DeleteProfile(n) => s1 == s0 && delete_profile_post(st0, st1, n, r),
        SpecCmd::DeleteQuery(n) => s1 == s0 && delete_query_post(st0, st1, n, r),
        SpecCmd::ShowProfiles => s1 == s0 && show_profiles_post(st0, st1, r),
        SpecCmd::ShowQueries => s1 == s0 && show_queries_post(st0, st1, r),
        SpecCmd::RunProfile(n) => run_profile_post(s0, s1, st0, st1, n, r),
        SpecCmd::RunQuery(n) => run_query_post(s0, s1, st0, st1, n, r),
        SpecCmd::Query => st1 == st0 && s1 == (Session { query: line, ..s0 }) && r.msg is None
            && (r.effect matches Effect::Send(req) && req@ == request_model(s0, line)),
    }
}

impl SurrDB {
    /// Carry out `.save profile|query <name>` on its tokens.
    pub fn save_commands(&self, store: &mut Store, parts: &Vec<String>) -> (r: Reply)
        ensures
            match parse_save(token_views(parts@)) {
                SpecCmd::Invalid(m) => r.msg == Some(m) && r.effect is Done && *final(store)
                    == *old(store),
                SpecCmd::SaveProfile(n) => save_profile_post(
                    self@,
                    *old(store),
                    *final(store),
                    n,
                    r,
                ),
                SpecCmd::SaveQuery(n) => save_query_post(self@, *old(store), *final(store), n, r),
                _ => true,
            },
    {
        proof {
            assert forall|k: int| 0 <= k < parts@.len()
                implies #[trigger] token_views(parts@)[k] == parts@[k]@ by {}
        }
        if parts.len() < 2 {
            return Reply { msg: Some(Msg::UsageSave), effect: Effect::Done };
        }
        if str_eq(parts[1].as_str(), "profile") {
            if parts.len() != 3 {
                return Reply { msg: Some(Msg::UsageSaveProfile), effect: Effect::Done };
            }
            match self.db_save_profile(store, parts[2].as_str()) {
                Ok(Outcome::Conflict) => Reply {
                    msg: Some(Msg::ProfileExists),
                    effect: Effect::Done,
                },
                Ok(_) => Reply { msg: Some(Msg::ProfileSaved), effect: Effect::Done },
                Err(_) => Reply { msg: Some(Msg::StorageError), effect: Effect::Done },
            }
        } else if str_eq(parts[1].as_str(), "query") {
            if parts.len() != 3 {
                return Reply { msg: Some(Msg::UsageSaveQuery), effect: Effect::Done };
            }
            match self.db_save_query(store, parts[2].as_str()) {
                Ok(Outcome::NoQuery) => Reply {
                    msg: Some(Msg::NoQueryToSave),
                    effect: Effect::Done,
                },
                Ok(Outcome::Conflict) => Reply {
                    msg: Some(Msg::QueryExists),
                    effect: Effect::Done,
                },
                Ok(_) => Reply { msg: Some(Msg::QuerySaved), effect: Effect::Done },
                Err(_) => Reply { msg: Some(Msg::StorageError), effect: Effect::Done },
            }
        } else {
            Reply { msg: Some(Msg::NotProfileOrQuery), effect: Effect::Done }
        }
    }

    /// Carry out `.delete profile|query <name>` on its tokens.
    pub fn delete_commands(&self, store: &mut Store, parts: &Vec<String>) -> (r: Reply)
        ensures
            match parse_delete(token_views(parts@)) {
                SpecCmd::Invalid(m) => r.msg == Some(m) && r.effect is Done && *final(store)
                    == *old(store),
                SpecCmd::DeleteProfile(n) => delete_profile_post(*old(store), *final(store), n, r),
                SpecCmd::DeleteQuery(n) => delete_query_post(*old(store), *final(store), n, r),
                _ => true,
            },
    {
        proof {
            assert forall|k: int| 0 <= k < parts@.len()
                implies #[trigger] token_views(parts@)[k] == parts@[k]@ by {}
        }
        if parts.len() < 2 {
            return Reply { msg: Some(Msg::UsageDelete), effect: Effect::Done };
        }
        if str_eq(parts[1].as_str(), "profile") {
            if parts.len() != 3 {
                return Reply { msg: Some(Msg::UsageDeleteProfile), effect: Effect::Done };
            }
            match db_drop_idx(store, parts[2].as_str()) {
                Ok(Outcome::NotFound) => Reply {
                    msg: Some(Msg::ProfileNotFound),
                    effect: Effect::Done,
                },
                Ok(_) => Reply { msg: Some(Msg::ProfileDeleted), effect: Effect::Done },
                Err(_) => Reply { msg: Some(Msg::StorageError), effect: Effect::Done },
            }
        } else if str_eq(parts[1].as_str(), "query") {
            if parts.len() != 3 {
                return Reply { msg: Some(Msg::UsageDeleteQuery), effect: Effect::Done };
            }
            match db_drop_query_idx(store, parts[2].as_str()) {
                Ok(Outcome::NotFound) => Reply {
                    msg: Some(Msg::QueryNotFound),
                    effect: Effect::Done,
                },
                Ok(_) => Reply { msg: Some(Msg::QueryDeleted), effect: Effect::Done },
                Err(_) => Reply { msg: Some(Msg::StorageError), effect: Effect::Done },
            }
        } else {
            Reply { msg: Some(Msg::NotProfileOrQuery), effect: Effect::Done }
        }
    }

    /// Carry out `.show profiles|queries` on its tokens.
    pub fn show_commands(&self, store: &Store, parts: &Vec<String>) -> (r: Reply)
        ensures
            match parse_show(token_views(parts@)) {
                SpecCmd::Invalid(m) => r.msg == Some(m) && r.effect is Done,
                SpecCmd::ShowProfiles => show_profiles_post(*store, *store, r),
                SpecCmd::ShowQueries => show_queries_post(*store, *store, r),
                _ => true,
            },
    {
        proof {
            assert forall|k: int| 0 <= k < parts@.len()
                implies #[trigger] token_views(parts@)[k] == parts@[k]@ by {}
        }
        if parts.len() != 2 {
            return Reply { msg: Some(Msg::UsageShow), effect: Effect::Done };
        }
        if str_eq(parts[1].as_str(), "profiles") {
            match db_list_profiles(store) {
                Ok(v) => Reply { msg: None, effect: Effect::Profiles(v) },
                Err(_) => Reply { msg: Some(Msg::StorageError), effect: Effect::Done },
            }
        } else if str_eq(parts[1].as_str(), "queries") {
            match db_list_queries(store) {
                Ok(v) => Reply { msg: None, effect: Effect::Queries(v) },
                Err(_) => Reply { msg: Some(Msg::StorageError), effect: Effect::Done },
            }
        } else {
            Reply { msg: Some(Msg::NotProfilesOrQueries), effect: Effect::Done }
        }
    }

    /// Carry out `.run profile|query <name>` on its tokens.
    pub fn run_commands(&mut self, store: &Store, parts: &Vec<String>) -> (r: Reply)
        ensures
            match parse_run(token_views(parts@)) {
                SpecCmd::Invalid(m) => r.msg == Some(m) && r.effect is Done && *final(self)
                    == *old(self),
                SpecCmd::RunProfile(n) => run_profile_post(
                    old(self)@,
                    final(self)@,
                    *store,
                    *store,
                    n,
                    r,
                ),
                SpecCmd::RunQuery(n) => run_query_post(
                    old(self)@,
                    final(self)@,
                    *store,
                    *store,
                    n,
                    r,
                ),
                _ => true,
            },
    {
        proof {
            assert forall|k: int| 0 <= k < parts@.len()
                implies #[trigger] token_views(parts@)[k] == parts@[k]@ by {}
        }
        if parts.len() < 2 {
            return Reply { msg: Some(Msg::UsageRun), effect: Effect::Done };
        }
        if str_eq(parts[1].as_str(), "profile") {
            if parts.len() != 3 {
                return Reply { msg: Some(Msg::UsageRunProfile), effect: Effect::Done };
            }
            match self.db_set_profile_by_idx(store, parts[2].as_str()) {
                Ok(Outcome::NotFound) => Reply {
                    msg: Some(Msg::ProfileNotFound),
                    effect: Effect::Done,
                },
                Ok(_) => Reply { msg: None, effect: Effect::Done },
                Err(_) => Reply { msg: Some(Msg::StorageError), effect: Effect::Done },
            }
        } else if str_eq(parts[1].as_str(), "query") {
            if parts.len() != 3 {
                return Reply { msg: Some(Msg::UsageRunQuery), effect: Effect::Done };
            }
            match db_get_query_by_idx(store, parts[2].as_str()) {
                Ok(text) => {
                    let req = self.contact_surr(text.as_str());
                    Reply { msg: Some(Msg::RunningQuery), effect: Effect::Send(req) }
                },
                Err(StoreError::NotFound) => Reply {
                    msg: Some(Msg::QueryNotFound),
                    effect: Effect::Done,
                },
                Err(_) => Reply { msg: Some(Msg::StorageError), effect: Effect::Done },
            }
        } else {
            Reply { msg: Some(Msg::NotProfileOrQuery), effect: Effect::Done }
        }
    }

    /// Interpret one input line: a zero-argument meta-command, a
    /// multi-argument meta-command validated for arity, or — anything else —
    /// a query recorded as the last one and handed to the transport layer.
    pub fn execute(&mut self, store: &mut Store, input: &str) -> (r: Reply)
        ensures
            exec_post(old(self)@, final(self)@, *old(store), *final(store), input@, r),
    {
        if str_eq(input, ".help") {
            return Reply { msg: None, effect: Effect::ShowHelp };
        }
        if str_eq(input, ".options") {
            return Reply { msg: None, effect: Effect::ShowOptions };
        }
        let parts = tokenize(input);
        proof {
            assert forall|k: int| 0 <= k < parts@.len()
                implies #[trigger] token_views(parts@)[k] == parts@[k]@ by {}
        }
        if parts.len() == 0 {
            return Reply { msg: None, effect: Effect::Done };
        }
        if str_eq(parts[0].as_str(), ".set") {
            if parts.len() == 3 {
                return self.set_var(parts[1].as_str(), parts[2].as_str());
            }
            return Reply { msg: Some(Msg::UsageSet), effect: Effect::Done };
        }
        if str_eq(parts[0].as_str(), ".save") {
            return self.save_commands(store, &parts);
        }
        if str_eq(parts[0].as_str(), ".delete") {
            return self.delete_commands(store, &parts);
        }
        if str_eq(parts[0].as_str(), ".show") {
            return self.show_commands(store, &parts);
        }
        if str_eq(parts[0].as_str(), ".run") {
            return self.run_commands(store, &parts);
        }
        let req = self.contact_surr(input);
        Reply { msg: None, effect: Effect::Send(req) }
    }
}

} // verus!
