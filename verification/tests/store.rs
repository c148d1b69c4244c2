use surrcli::cli::{Effect, Msg};
use surrcli::db::{db_get_query_by_idx, db_valid_index, db_valid_query_index, Store, StoreError};
use surrcli::models::SurrDB;

fn fresh_session() -> SurrDB {
    SurrDB {
        host: "127.0.0.1:8000".to_string(),
        namespace: "surr".to_string(),
        database: "surr".to_string(),
        user: "root".to_string(),
        pass: String::new(),
        schema: "http".to_string(),
        pretty: true,
        timeout: 5,
        comple: 5,
        query: String::new(),
    }
}

fn fresh_store() -> Store {
    Store::open(":memory:").unwrap()
}

#[test]
fn save_profile_then_show_lists_one_row() {
    let mut s = fresh_session();
    let mut st = fresh_store();
    let r = s.execute(&mut st, ".save profile home");
    assert_eq!(r.msg, Some(Msg::ProfileSaved));
    let r = s.execute(&mut st, ".show profiles");
    assert_eq!(r.msg, None);
    match r.effect {
        Effect::Profiles(v) => {
            assert_eq!(v.len(), 1);
            assert_eq!(v[0].idx, "home");
            assert_eq!(v[0].host, "127.0.0.1:8000");
            assert_eq!(v[0].sch, "http");
            assert_eq!(v[0].dbuser, "root");
            assert_eq!(v[0].ns, "surr");
            assert_eq!(v[0].db, "surr");
            assert!(!v[0].date.is_empty());
        }
        _ => panic!("expected a profile listing"),
    }
}

#[test]
fn save_profile_duplicate_is_conflict_and_store_unchanged() {
    let mut s = fresh_session();
    let mut st = fresh_store();
    assert_eq!(s.execute(&mut st, ".save profile home").msg, Some(Msg::ProfileSaved));
    let before = match s.execute(&mut st, ".show profiles").effect {
        Effect::Profiles(v) => v,
        _ => panic!("expected a profile listing"),
    };
    s.host = "other:9999".to_string();
    let r = s.execute(&mut st, ".save profile home");
    assert_eq!(r.msg, Some(Msg::ProfileExists));
    let after = match s.execute(&mut st, ".show profiles").effect {
        Effect::Profiles(v) => v,
        _ => panic!("expected a profile listing"),
    };
    assert_eq!(before.len(), after.len());
    assert_eq!(before[0].idx, after[0].idx);
    assert_eq!(before[0].host, after[0].host);
    assert_eq!(before[0].sch, after[0].sch);
    assert_eq!(before[0].dbuser, after[0].dbuser);
    assert_eq!(before[0].ns, after[0].ns);
    assert_eq!(before[0].db, after[0].db);
    assert_eq!(before[0].date, after[0].date);
}

#[test]
fn delete_missing_profile_reports_and_changes_nothing() {
    let mut s = fresh_session();
    let mut st = fresh_store();
    assert_eq!(s.execute(&mut st, ".save profile home").msg, Some(Msg::ProfileSaved));
    let r = s.execute(&mut st, ".delete profile nowhere");
    assert_eq!(r.msg, Some(Msg::ProfileNotFound));
    match s.execute(&mut st, ".show profiles").effect {
        Effect::Profiles(v) => assert_eq!(v.len(), 1),
        _ => panic!("expected a profile listing"),
    }
}

#[test]
fn delete_missing_query_reports_and_changes_nothing() {
    let mut s = fresh_session();
    let mut st = fresh_store();
    let r = s.execute(&mut st, ".delete query nowhere");
    assert_eq!(r.msg, Some(Msg::QueryNotFound));
    match s.execute(&mut st, ".show queries").effect {
        Effect::Queries(v) => assert_eq!(v.len(), 0),
        _ => panic!("expected a query listing"),
    }
}

#[test]
fn delete_profile_removes_only_that_name() {
    let mut s = fresh_session();
    let mut st = fresh_store();
    assert_eq!(s.execute(&mut st, ".save profile a").msg, Some(Msg::ProfileSaved));
    assert_eq!(s.execute(&mut st, ".save profile b").msg, Some(Msg::ProfileSaved));
    assert_eq!(s.execute(&mut st, ".save profile c").msg, Some(Msg::ProfileSaved));
    let r = s.execute(&mut st, ".delete profile b");
    assert_eq!(r.msg, Some(Msg::ProfileDeleted));
    match s.execute(&mut st, ".show profiles").effect {
        Effect::Profiles(v) => {
            assert_eq!(v.len(), 2);
            assert_eq!(v[0].idx, "a");
            assert_eq!(v[1].idx, "c");
        }
        _ => panic!("expected a profile listing"),
    }
}

#[test]
fn save_query_without_last_query_fails_and_inserts_nothing() {
    let mut s = fresh_session();
    let mut st = fresh_store();
    let r = s.execute(&mut st, ".save query q1");
    assert_eq!(r.msg, Some(Msg::NoQueryToSave));
    match s.execute(&mut st, ".show queries").effect {
        Effect::Queries(v) => assert_eq!(v.len(), 0),
        _ => panic!("expected a query listing"),
    }
}

#[test]
fn saved_query_replays_exactly_and_updates_last_query() {
    let mut s = fresh_session();
    let mut st = fresh_store();
    let r = s.execute(&mut st, "SELECT * FROM thing WHERE x = 1");
    assert!(matches!(r.effect, Effect::Send(_)));
    assert_eq!(s.query, "SELECT * FROM thing WHERE x = 1");
    assert_eq!(s.execute(&mut st, ".save query q1").msg, Some(Msg::QuerySaved));
    let r = s.execute(&mut st, "INFO FOR DB;");
    assert!(matches!(r.effect, Effect::Send(_)));
    assert_eq!(s.query, "INFO FOR DB;");
    let r = s.execute(&mut st, ".run query q1");
    assert_eq!(r.msg, Some(Msg::RunningQuery));
    match r.effect {
        Effect::Send(req) => assert_eq!(req.body, "SELECT * FROM thing WHERE x = 1"),
        _ => panic!("expected a request"),
    }
    assert_eq!(s.query, "SELECT * FROM thing WHERE x = 1");
}

#[test]
fn duplicate_query_name_is_conflict_and_keeps_stored_text() {
    let mut s = fresh_session();
    let mut st = fresh_store();
    s.execute(&mut st, "SELECT 1");
    assert_eq!(s.execute(&mut st, ".save query q1").msg, Some(Msg::QuerySaved));
    s.execute(&mut st, "SELECT 2");
    let r = s.execute(&mut st, ".save query q1");
    assert_eq!(r.msg, Some(Msg::QueryExists));
    let text = db_get_query_by_idx(&st, "q1").unwrap();
    assert_eq!(text, "SELECT 1");
}

#[test]
fn profile_round_trip_restores_saved_connection_fields() {
    let mut s = fresh_session();
    let mut st = fresh_store();
    assert_eq!(s.execute(&mut st, ".save profile home").msg, Some(Msg::ProfileSaved));
    s.host = "elsewhere:1".to_string();
    s.user = "nobody".to_string();
    s.pass = "secret".to_string();
    s.pretty = false;
    s.query = "SELECT 9".to_string();
    let r = s.execute(&mut st, ".run profile home");
    assert_eq!(r.msg, None);
    assert_eq!(s.host, "127.0.0.1:8000");
    assert_eq!(s.schema, "http");
    assert_eq!(s.user, "root");
    assert_eq!(s.namespace, "surr");
    assert_eq!(s.database, "surr");
    assert_eq!(s.pass, "secret");
    assert!(!s.pretty);
    assert_eq!(s.query, "SELECT 9");
}

#[test]
fn run_missing_profile_reports_and_leaves_session() {
    let mut s = fresh_session();
    let mut st = fresh_store();
    let r = s.execute(&mut st, ".run profile nowhere");
    assert_eq!(r.msg, Some(Msg::ProfileNotFound));
    assert_eq!(s.host, "127.0.0.1:8000");
}

#[test]
fn run_missing_query_reports() {
    let mut s = fresh_session();
    let mut st = fresh_store();
    let r = s.execute(&mut st, ".run query nowhere");
    assert_eq!(r.msg, Some(Msg::QueryNotFound));
}

#[test]
fn valid_index_checks() {
    let mut s = fresh_session();
    let mut st = fresh_store();
    assert!(!db_valid_index(&st, "home").unwrap());
    assert_eq!(s.execute(&mut st, ".save profile home").msg, Some(Msg::ProfileSaved));
    assert!(db_valid_index(&st, "home").unwrap());
    assert!(!db_valid_query_index(&st, "q1").unwrap());
    s.execute(&mut st, "SELECT 1");
    assert_eq!(s.execute(&mut st, ".save query q1").msg, Some(Msg::QuerySaved));
    assert!(db_valid_query_index(&st, "q1").unwrap());
}

#[test]
fn get_missing_query_is_not_found() {
    let st = fresh_store();
    assert_eq!(db_get_query_by_idx(&st, "nope"), Err(StoreError::NotFound));
}

#[test]
fn get_query_returns_oldest_of_that_name() {
    let mut s = fresh_session();
    let mut st = fresh_store();
    s.execute(&mut st, "SELECT old");
    assert_eq!(s.execute(&mut st, ".save query dup").msg, Some(Msg::QuerySaved));
    s.execute(&mut st, "SELECT new");
    assert_eq!(s.execute(&mut st, ".save query other").msg, Some(Msg::QuerySaved));
    assert_eq!(db_get_query_by_idx(&st, "dup").unwrap(), "SELECT old");
    assert_eq!(db_get_query_by_idx(&st, "other").unwrap(), "SELECT new");
}

#[test]
fn deleted_query_can_be_saved_again() {
    let mut s = fresh_session();
    let mut st = fresh_store();
    s.execute(&mut st, "SELECT 1");
    assert_eq!(s.execute(&mut st, ".save query q1").msg, Some(Msg::QuerySaved));
    assert_eq!(s.execute(&mut st, ".delete query q1").msg, Some(Msg::QueryDeleted));
    assert_eq!(s.execute(&mut st, ".save query q1").msg, Some(Msg::QuerySaved));
    match s.execute(&mut st, ".show queries").effect {
        Effect::Queries(v) => {
            assert_eq!(v.len(), 1);
            assert_eq!(v[0].idx, "q1");
            assert_eq!(v[0].query, "SELECT 1");
        }
        _ => panic!("expected a query listing"),
    }
}
