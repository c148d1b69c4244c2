use vstd::prelude::*;
use crate::cli::{Effect, Msg, Reply};
use crate::models::{Session, SurrDB};

verus! {

/// ASCII lower-casing of one character; every other character is unchanged.
pub open spec fn lower_char(c: char) -> char {
    if 'A' <= c && c <= 'Z' {
        ((c as u8) + 32) as char
    } else {
        c
    }
}

/// ASCII lower-casing of a character sequence.
pub open spec fn lower(s: Seq<char>) -> Seq<char> {
    s.map_values(|c: char| lower_char(c))
}

fn lower_char_exec(c: char) -> (r: char)
    ensures
        r == lower_char(c),
{
    let u = c as u32;
    if 65 <= u && u <= 90 {
        ((u + 32) as u8) as char
    } else {
        c
    }
}

/// String equality, stated on the views.
pub fn str_eq(a: &str, b: &str) -> (r: bool)
    ensures
        r == (a@ == b@),
{
    a.to_owned() == b.to_owned()
}

/// Case-insensitive string equality: the two ASCII lower-casings agree.
pub fn eq_ci(a: &str, b: &str) -> (r: bool)
    ensures
        r == (lower(a@) == lower(b@)),
{
    let na = a.unicode_len();
    let nb = b.unicode_len();
    if na != nb {
        assert(lower(a@).len() != lower(b@).len());
        return false;
    }
    let mut i: usize = 0;
    while i < na
        invariant
            na == a@.len(),
            na == b@.len(),
            i <= na,
            forall|j: int| 0 <= j < i ==> lower_char(a@[j]) == lower_char(b@[j]),
        decreases na - i,
    {
        let ca = lower_char_exec(a.get_char(i));
        let cb = lower_char_exec(b.get_char(i));
        if ca != cb {
            assert(lower(a@)[i as int] != lower(b@)[i as int]);
            return false;
        }
        i += 1;
    }
    assert(lower(a@) =~= lower(b@));
    true
}

/// The session variable a name denotes; names are case-insensitive.
pub ghost enum VarKind {
    User,
    Host,
    Pretty,
    Namespace,
    Database,
    Schema,
    Unknown,
}

pub open spec fn var_kind(v: Seq<char>) -> VarKind {
    let l = lower(v);
    if l == lower("user"@) {
        VarKind::User
    } else if l == lower("host"@) {
        VarKind::Host
    } else if l == lower("pretty"@) {
        VarKind::Pretty
    } else if l == lower("ns"@) || l == lower("nameserver"@) || l == lower("namespace"@) {
        VarKind::Namespace
    } else if l == lower("db"@) || l == lower("database"@) {
        VarKind::Database
    } else if l == lower("schema"@) || l == lower("sch"@) {
        VarKind::Schema
    } else {
        VarKind::Unknown
    }
}

/// The transport schema takes exactly these two values.
pub open spec fn valid_schema(v: Seq<char>) -> bool {
    v == "http"@ || v == "https"@
}

/// The session `.set <var> <value>` leaves behind: one variable replaced, the
/// pretty flag toggled, or — for a bad schema value or an unknown variable —
/// the session exactly as it was.
pub open spec fn set_var_session(s: Session, var: Seq<char>, val: Seq<char>) -> Session {
    match var_kind(var) {
        VarKind::User => Session { user: val, ..s },
        VarKind::Host => Session { host: val, ..s },
        VarKind::Pretty => Session { pretty: !s.pretty, ..s },
        VarKind::Namespace => Session { namespace: val, ..s },
        VarKind::Database => Session { database: val, ..s },
        VarKind::Schema => if valid_schema(val) {
            Session { schema: val, ..s }
        } else {
            s
        },
        VarKind::Unknown => s,
    }
}

/// The notice `.set <var> <value>` produces.
pub open spec fn set_var_msg(var: Seq<char>, val: Seq<char>) -> Msg {
    match var_kind(var) {
        VarKind::User => Msg::UserSet,
        VarKind::Host => Msg::HostSet,
        VarKind::Pretty => Msg::PrettyToggled,
        VarKind::Namespace => Msg::NamespaceSet,
        VarKind::Database => Msg::DatabaseSet,
        VarKind::Schema => if valid_schema(val) {
            Msg::SchemaSet
        } else {
            Msg::InvalidSchema
        },
        VarKind::Unknown => Msg::NoSuchOption,
    }
}

impl SurrDB {
    /// Apply `.set <var> <value>`. Variable names are case-insensitive.
    /// Setting the user also asks the caller to prompt for a new password;
    /// the pretty flag toggles, ignoring the value; a schema value other
    /// than http or https is rejected without any change.
    pub fn set_var(&mut self, var: &str, value: &str) -> (r: Reply)
        ensures
            final(self)@ == set_var_session(old(self)@, var@, value@),
            r.msg == Some(set_var_msg(var@, value@)),
            (r.effect is AskPassword) <==> (var_kind(var@) is User),
            !(var_kind(var@) is User) ==> r.effect is Done,
    {
        if eq_ci(var, "user") {
            self.user = value.to_owned();
            Reply { msg: Some(Msg::UserSet), effect: Effect::AskPassword }
        } else if eq_ci(var, "host") {
            self.host = value.to_owned();
            Reply { msg: Some(Msg::HostSet), effect: Effect::Done }
        } else if eq_ci(var, "pretty") {
            self.pretty = !self.pretty;
            Reply { msg: Some(Msg::PrettyToggled), effect: Effect::Done }
        } else if eq_ci(var, "ns") || eq_ci(var, "nameserver") || eq_ci(var, "namespace") {
            self.namespace = value.to_owned();
            Reply { msg: Some(Msg::NamespaceSet), effect: Effect::Done }
        } else if eq_ci(var, "db") || eq_ci(var, "database") {
            self.database = value.to_owned();
            Reply { msg: Some(Msg::DatabaseSet), effect: Effect::Done }
        } else if eq_ci(var, "schema") || eq_ci(var, "sch") {
            if str_eq(value, "http") || str_eq(value, "https") {
                self.schema = value.to_owned();
                Reply { msg: Some(Msg::SchemaSet), effect: Effect::Done }
            } else {
                Reply { msg: Some(Msg::InvalidSchema), effect: Effect::Done }
            }
        } else {
            Reply { msg: Some(Msg::NoSuchOption), effect: Effect::Done }
        }
    }

    /// Replace the password with the prompt's result, whatever it was — an
    /// empty string when the prompt failed or was cancelled.
    pub fn set_password(&mut self, pass: String)
        ensures
            final(self)@ == (Session { pass: pass@, ..old(self)@ }),
    {
        self.pass = pass;
    }
}

} // verus!
