use vstd::prelude::*;

verus! {

/// Mathematical view of the in-memory session configuration: one record per
/// running client, owned by the command interpreter.
pub ghost struct Session {
    pub host: Seq<char>,
    pub namespace: Seq<char>,
    pub database: Seq<char>,
    pub user: Seq<char>,
    pub pass: Seq<char>,
    pub schema: Seq<char>,
    pub pretty: bool,
    pub timeout: u64,
    pub comple: usize,
    pub query: Seq<char>,
}

/// The live session configuration driving the next request.
pub struct SurrDB {
    pub host: String,
    pub namespace: String,
    pub database: String,
    pub user: String,
    pub pass: String,
    pub schema: String,
    pub pretty: bool,
    pub timeout: u64,
    pub comple: usize,
    pub query: String,
}

impl View for SurrDB {
    type V = Session;

    open spec fn view(&self) -> Session {
        Session {
            host: self.host@,
            namespace: self.namespace@,
            database: self.database@,
            user: self.user@,
            pass: self.pass@,
            schema: self.schema@,
            pretty: self.pretty,
            timeout: self.timeout,
            comple: self.comple,
            query: self.query@,
        }
    }
}

/// The configuration a fresh client starts from.
pub open spec fn default_session() -> Session {
    Session {
        host: "0.0.0.0:80"@,
        namespace: "surr"@,
        database: "surr"@,
        user: "root"@,
        pass: Seq::<char>::empty(),
        schema: "http"@,
        pretty: true,
        timeout: 5,
        comple: 5,
        query: Seq::<char>::empty(),
    }
}

impl Default for SurrDB {
    fn default() -> (r: Self)
        ensures
            r@ == default_session(),
    {
        SurrDB {
            host: "0.0.0.0:80".to_owned(),
            namespace: "surr".to_owned(),
            database: "surr".to_owned(),
            user: "root".to_owned(),
            pass: String::new(),
            schema: "http".to_owned(),
            pretty: true,
            timeout: 5,
            comple: 5,
            query: String::new(),
        }
    }
}

/// Mathematical view of one stored connection profile.
pub ghost struct ProfileModel {
    pub idx: Seq<char>,
    pub host: Seq<char>,
    pub sch: Seq<char>,
    pub dbuser: Seq<char>,
    pub ns: Seq<char>,
    pub db: Seq<char>,
    pub date: Seq<char>,
}

/// A named, durable snapshot of connection parameters. The creation date is
/// set by the store at insert time and never changes afterwards.
pub struct Profile {
    pub idx: String,
    pub host: String,
    pub sch: String,
    pub dbuser: String,
    pub ns: String,
    pub db: String,
    pub date: String,
}

impl View for Profile {
    type V = ProfileModel;

    open spec fn view(&self) -> ProfileModel {
        ProfileModel {
            idx: self.idx@,
            host: self.host@,
            sch: self.sch@,
            dbuser: self.dbuser@,
            ns: self.ns@,
            db: self.db@,
            date: self.date@,
        }
    }
}

/// Mathematical view of one stored query.
pub ghost struct QueryModel {
    pub idx: Seq<char>,
    pub query: Seq<char>,
}

/// A named, durable query string kept for replay.
pub struct SavedQuery {
    pub idx: String,
    pub query: String,
}

impl View for SavedQuery {
    type V = QueryModel;

    open spec fn view(&self) -> QueryModel {
        QueryModel { idx: self.idx@, query: self.query@ }
    }
}

/// Loading a profile overwrites exactly the five copied connection fields;
/// password, pretty-print flag, timeout, suggestion count and the last query
/// are left as they were.
pub open spec fn loaded_from(s: Session, p: ProfileModel) -> Session {
    Session {
        host: p.host,
        schema: p.sch,
        user: p.dbuser,
        namespace: p.ns,
        database: p.db,
        ..s
    }
}

impl SurrDB {
    /// Copy the five connection fields of `p` into the session.
    pub fn apply_profile(&mut self, p: &Profile)
        ensures
            final(self)@ == loaded_from(old(self)@, p@),
    {
        self.host = p.host.clone();
        self.schema = p.sch.clone();
        self.user = p.dbuser.clone();
        self.namespace = p.ns.clone();
        self.database = p.db.clone();
    }
}

} // verus!
