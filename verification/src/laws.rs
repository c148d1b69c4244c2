use vstd::prelude::*;
use crate::models::{loaded_from, ProfileModel, QueryModel, Session};
use crate::db::{
    first_profile, first_query, has_profile, has_query, lemma_first_profile_at,
    lemma_first_query_at, saved_profile,
};
use crate::utils::{set_var_session, var_kind};

verus! {

/// Saving the session as a profile under a name that was not yet present and
/// later loading that profile restores exactly the five copied connection
/// fields to their values at save time, whatever happened to the session in
/// between; password, pretty-print flag, timeout, suggestion count and the
/// last query keep their later values.
pub proof fn lemma_profile_round_trip(
    ps0: Seq<ProfileModel>,
    ps1: Seq<ProfileModel>,
    s: Session,
    s2: Session,
    name: Seq<char>,
)
    requires
        !has_profile(ps0, name),
        saved_profile(ps0, ps1, s, name),
    ensures
        has_profile(ps1, name),
        ({
            let s3 = loaded_from(s2, first_profile(ps1, name));
            s3.host == s.host && s3.schema == s.schema && s3.user == s.user
                && s3.namespace == s.namespace && s3.database == s.database
                && s3.pass == s2.pass && s3.pretty == s2.pretty && s3.query == s2.query
                && s3.timeout == s2.timeout && s3.comple == s2.comple
        }),
{
    let last = ps0.len() as int;
    assert(ps1[last].idx == name);
    assert forall|j: int| 0 <= j < last implies ps1[j].idx != name by {
        assert(ps1.subrange(0, ps0.len() as int)[j] == ps1[j]);
        assert(ps0[j] == ps1[j]);
        assert(!(0 <= j < ps0.len() && ps0[j].idx == name));
    }
    lemma_first_profile_at(ps1, name, last);
}

/// A query saved under a name that was not yet present and then looked up by
/// that name comes back exactly as stored: replaying it sends that text
/// verbatim.
pub proof fn lemma_query_round_trip(qs: Seq<QueryModel>, name: Seq<char>, text: Seq<char>)
    ensures
        has_query(qs.push(QueryModel { idx: name, query: text }), name),
        !has_query(qs, name) ==> first_query(
            qs.push(QueryModel { idx: name, query: text }),
            name,
        ).query == text,
{
    let qs1 = qs.push(QueryModel { idx: name, query: text });
    assert(qs1[qs.len() as int].idx == name);
    if !has_query(qs, name) {
        assert forall|j: int| 0 <= j < qs.len() implies qs1[j].idx != name by {
            assert(qs1[j] == qs[j]);
            assert(!(0 <= j < qs.len() && qs[j].idx == name));
        }
        lemma_first_query_at(qs1, name, qs.len() as int);
    }
}

/// Toggling the pretty-print flag twice returns the session to exactly its
/// original state; the value arguments play no part.
pub proof fn lemma_pretty_double_toggle(
    s: Session,
    var1: Seq<char>,
    var2: Seq<char>,
    v1: Seq<char>,
    v2: Seq<char>,
)
    requires
        var_kind(var1) is Pretty,
        var_kind(var2) is Pretty,
    ensures
        set_var_session(set_var_session(s, var1, v1), var2, v2) == s,
{
}

/// Setting the user always replaces the user name, and the password that the
/// following prompt hands back — the empty string when the prompt fails —
/// always replaces the old password; nothing else changes.
pub proof fn lemma_set_user_overwrites_password(
    s: Session,
    var: Seq<char>,
    name: Seq<char>,
    pw: Seq<char>,
)
    requires
        var_kind(var) is User,
    ensures
        ({
            let s2 = Session { pass: pw, ..set_var_session(s, var, name) };
            s2.user == name && s2.pass == pw && s2.host == s.host && s2.namespace
                == s.namespace && s2.database == s.database && s2.schema == s.schema
                && s2.pretty == s.pretty && s2.query == s.query
        }),
{
}

} // verus!
