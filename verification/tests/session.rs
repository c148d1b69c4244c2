use surrcli::cli::{tokenize, Effect, Msg};
use surrcli::db::Store;
use surrcli::models::SurrDB;
use surrcli::requester::{classify_status, ConnCheck, RenderAction};

fn fresh_session() -> SurrDB {
    SurrDB {
        host: "127.0.0.1:8000".to_string(),
        namespace: "surr".to_string(),
        database: "surr".to_string(),
        user: "root".to_string(),
        pass: "root".to_string(),
        schema: "http".to_string(),
        pretty: true,
        timeout: 5,
        comple: 5,
        query: String::new(),
    }
}

fn fresh_store() -> Store {
    Store::open(":memory:").unwrap()
}

#[test]
fn default_session_values() {
    let s = SurrDB::default();
    assert_eq!(s.host, "0.0.0.0:80");
    assert_eq!(s.namespace, "surr");
    assert_eq!(s.database, "surr");
    assert_eq!(s.user, "root");
    assert_eq!(s.pass, "");
    assert_eq!(s.schema, "http");
    assert!(s.pretty);
    assert_eq!(s.timeout, 5);
    assert_eq!(s.comple, 5);
    assert_eq!(s.query, "");
}

#[test]
fn tokenize_splits_on_whitespace() {
    assert_eq!(tokenize("  a  b\tc "), vec!["a".to_string(), "b".to_string(), "c".to_string()]);
    assert_eq!(tokenize(""), Vec::<String>::new());
    assert_eq!(tokenize("   \t "), Vec::<String>::new());
    assert_eq!(tokenize("one"), vec!["one".to_string()]);
}

#[test]
fn tokenize_splits_on_unicode_whitespace() {
    assert_eq!(
        tokenize(".set\u{2003}pretty\u{2003}x"),
        vec![".set".to_string(), "pretty".to_string(), "x".to_string()]
    );
    assert_eq!(tokenize("a\u{00A0}b\u{3000}c"), vec![
        "a".to_string(),
        "b".to_string(),
        "c".to_string()
    ]);
}

#[test]
fn meta_command_with_exotic_whitespace_is_still_a_command() {
    let mut s = fresh_session();
    let mut st = fresh_store();
    let original = s.pretty;
    let r = s.execute(&mut st, ".set\u{2003}pretty\u{2003}x");
    assert_eq!(r.msg, Some(Msg::PrettyToggled));
    assert_eq!(s.pretty, !original);
    assert_eq!(s.query, "");
}

#[test]
fn set_schema_rejects_ftp_and_keeps_prior_value() {
    let mut s = fresh_session();
    let mut st = fresh_store();
    let r = s.execute(&mut st, ".set schema ftp");
    assert_eq!(r.msg, Some(Msg::InvalidSchema));
    assert_eq!(s.schema, "http");
    let r = s.execute(&mut st, ".set schema https");
    assert_eq!(r.msg, Some(Msg::SchemaSet));
    assert_eq!(s.schema, "https");
    assert_eq!(s.host, "127.0.0.1:8000");
    assert_eq!(s.user, "root");
}

#[test]
fn set_user_updates_user_and_asks_for_password() {
    let mut s = fresh_session();
    let mut st = fresh_store();
    let r = s.execute(&mut st, ".set user alice");
    assert_eq!(r.msg, Some(Msg::UserSet));
    assert!(matches!(r.effect, Effect::AskPassword));
    assert_eq!(s.user, "alice");
    s.set_password(String::new());
    assert_eq!(s.pass, "");
}

#[test]
fn set_variable_names_are_case_insensitive() {
    let mut s = fresh_session();
    let mut st = fresh_store();
    assert_eq!(s.execute(&mut st, ".set HOST h:1").msg, Some(Msg::HostSet));
    assert_eq!(s.host, "h:1");
    assert_eq!(s.execute(&mut st, ".set NS space").msg, Some(Msg::NamespaceSet));
    assert_eq!(s.namespace, "space");
    assert_eq!(s.execute(&mut st, ".set nameserver space2").msg, Some(Msg::NamespaceSet));
    assert_eq!(s.namespace, "space2");
    assert_eq!(s.execute(&mut st, ".set DB data").msg, Some(Msg::DatabaseSet));
    assert_eq!(s.database, "data");
    assert_eq!(s.execute(&mut st, ".set SCH https").msg, Some(Msg::SchemaSet));
    assert_eq!(s.schema, "https");
    assert_eq!(s.execute(&mut st, ".set banana x").msg, Some(Msg::NoSuchOption));
}

#[test]
fn pretty_double_toggle_returns_to_original() {
    let mut s = fresh_session();
    let mut st = fresh_store();
    let original = s.pretty;
    assert_eq!(s.execute(&mut st, ".set pretty x").msg, Some(Msg::PrettyToggled));
    assert_eq!(s.pretty, !original);
    assert_eq!(s.execute(&mut st, ".set pretty y").msg, Some(Msg::PrettyToggled));
    assert_eq!(s.pretty, original);
}

#[test]
fn arity_errors_take_no_action() {
    let mut s = fresh_session();
    let mut st = fresh_store();
    assert_eq!(s.execute(&mut st, ".set x").msg, Some(Msg::UsageSet));
    assert_eq!(s.execute(&mut st, ".set a b c").msg, Some(Msg::UsageSet));
    assert_eq!(s.execute(&mut st, ".save").msg, Some(Msg::UsageSave));
    assert_eq!(s.execute(&mut st, ".save profile").msg, Some(Msg::UsageSaveProfile));
    assert_eq!(s.execute(&mut st, ".save query").msg, Some(Msg::UsageSaveQuery));
    assert_eq!(s.execute(&mut st, ".save banana x").msg, Some(Msg::NotProfileOrQuery));
    assert_eq!(s.execute(&mut st, ".delete").msg, Some(Msg::UsageDelete));
    assert_eq!(s.execute(&mut st, ".delete profile a b").msg, Some(Msg::UsageDeleteProfile));
    assert_eq!(s.execute(&mut st, ".show").msg, Some(Msg::UsageShow));
    assert_eq!(s.execute(&mut st, ".show profiles extra").msg, Some(Msg::UsageShow));
    assert_eq!(s.execute(&mut st, ".show stuff").msg, Some(Msg::NotProfilesOrQueries));
    assert_eq!(s.execute(&mut st, ".run").msg, Some(Msg::UsageRun));
    assert_eq!(s.execute(&mut st, ".run profile").msg, Some(Msg::UsageRunProfile));
    assert_eq!(s.execute(&mut st, ".run query a b").msg, Some(Msg::UsageRunQuery));
    assert_eq!(s.execute(&mut st, ".run banana x").msg, Some(Msg::NotProfileOrQuery));
    assert_eq!(s.query, "");
}

#[test]
fn zero_argument_commands_match_the_exact_line() {
    let mut s = fresh_session();
    let mut st = fresh_store();
    assert!(matches!(s.execute(&mut st, ".help").effect, Effect::ShowHelp));
    assert!(matches!(s.execute(&mut st, ".options").effect, Effect::ShowOptions));
    assert_eq!(s.query, "");
    let r = s.execute(&mut st, " .help");
    match r.effect {
        Effect::Send(req) => assert_eq!(req.body, " .help"),
        _ => panic!("a padded .help line is a query"),
    }
    assert_eq!(s.query, " .help");
}

#[test]
fn empty_line_does_nothing() {
    let mut s = fresh_session();
    let mut st = fresh_store();
    let r = s.execute(&mut st, "");
    assert_eq!(r.msg, None);
    assert!(matches!(r.effect, Effect::Done));
    let r = s.execute(&mut st, "  \t ");
    assert_eq!(r.msg, None);
    assert!(matches!(r.effect, Effect::Done));
    assert_eq!(s.query, "");
}

#[test]
fn basic_auth_is_base64_of_user_and_password() {
    let s = fresh_session();
    assert_eq!(s.basic_auth(), "cm9vdDpyb290");
}

#[test]
fn requester_builds_url_headers_and_body() {
    let s = fresh_session();
    let req = s.requester("SELECT 1");
    assert_eq!(req.url, "http://127.0.0.1:8000/sql");
    assert_eq!(req.auth, "cm9vdDpyb290");
    assert_eq!(req.ns, "surr");
    assert_eq!(req.db, "surr");
    assert_eq!(req.body, "SELECT 1");
    assert_eq!(req.timeout, 5);
    assert!(req.pretty);
}

#[test]
fn test_connection_sends_the_diagnostic_query() {
    let s = fresh_session();
    let req = s.test_connection();
    assert_eq!(req.body, "INFO FOR DB;");
    assert_eq!(req.url, "http://127.0.0.1:8000/sql");
}

#[test]
fn classify_status_codes() {
    assert_eq!(classify_status(200), ConnCheck::Healthy);
    assert_eq!(classify_status(403), ConnCheck::AuthProblem);
    assert_eq!(classify_status(500), ConnCheck::Trouble);
    assert_eq!(classify_status(404), ConnCheck::Trouble);
}

#[test]
fn remote_error_body_is_rendered_exactly_as_received() {
    let s = fresh_session();
    let body = "{\"error\":\"auth\"}".to_string();
    match s.response_action(body.clone(), 403) {
        RenderAction::Pretty(b) => assert_eq!(b, "{\"error\":\"auth\"}"),
        RenderAction::Raw(_) => panic!("pretty printing was on"),
    }
    let mut raw = fresh_session();
    raw.pretty = false;
    match raw.response_action(body, 403) {
        RenderAction::Raw(b) => assert_eq!(b, "{\"error\":\"auth\"}"),
        RenderAction::Pretty(_) => panic!("pretty printing was off"),
    }
}

#[test]
fn contact_surr_records_the_query_and_builds_the_request() {
    let mut s = fresh_session();
    let req = s.contact_surr("SELECT 42");
    assert_eq!(req.body, "SELECT 42");
    assert_eq!(s.query, "SELECT 42");
    assert_eq!(req.url, "http://127.0.0.1:8000/sql");
}

#[test]
fn apply_profile_copies_five_fields_only() {
    let mut s = fresh_session();
    let p = surrcli::models::Profile {
        idx: "p".to_string(),
        host: "h:2".to_string(),
        sch: "https".to_string(),
        dbuser: "u".to_string(),
        ns: "n".to_string(),
        db: "d".to_string(),
        date: "2024-01-01 00:00:00".to_string(),
    };
    s.query = "SELECT 7".to_string();
    s.apply_profile(&p);
    assert_eq!(s.host, "h:2");
    assert_eq!(s.schema, "https");
    assert_eq!(s.user, "u");
    assert_eq!(s.namespace, "n");
    assert_eq!(s.database, "d");
    assert_eq!(s.pass, "root");
    assert_eq!(s.query, "SELECT 7");
}
