use dbmod::messages::WindowMessage;
use dbmod::rebuild::{contains_key, Rebuild};
use dbmod::rebuild_steps::{
    check_table_sql, drop_table_sql, success_message, RebuildAction, RebuildEvent, RebuildRun,
};

fn sample(add_rows: bool) -> Rebuild {
    let mut r = Rebuild::default();
    r.modal = "users".to_string();
    r.add_rows = add_rows;
    r.sql_tables = vec![
        ("items".to_string(), "CREATE TABLE items ();".to_string()),
        ("users".to_string(), "CREATE TABLE users (id int);".to_string()),
    ];
    r.sql_rows = vec![(
        "users".to_string(),
        vec!["INSERT INTO users VALUES (1);".to_string(), "INSERT INTO users VALUES (2);".to_string()],
    )];
    r
}

#[test]
fn default_rebuild_is_empty() {
    let r = Rebuild::default();
    assert_eq!(r.modal, "");
    assert!(!r.add_rows);
    assert!(r.sql_tables.is_empty());
    assert!(r.sql_rows.is_empty());
    assert_eq!(r.window_message, WindowMessage::default());
    assert!(r.gear.is_empty());
    assert!(!r.table_chosen());
}

#[test]
fn getters_find_chosen_table() {
    let r = sample(true);
    assert_eq!(r.get_sql_table_string(), "CREATE TABLE users (id int);");
    assert_eq!(
        r.get_sql_rows_string(),
        &vec!["INSERT INTO users VALUES (1);".to_string(), "INSERT INTO users VALUES (2);".to_string()]
    );
    assert!(r.table_chosen());
}

#[test]
fn build_mmg_lists_table_names() {
    let r = sample(false);
    assert_eq!(Rebuild::build_mmg(&r), vec!["items".to_string(), "users".to_string()]);
    assert_eq!(Rebuild::build_mmg(&Rebuild::default()), Vec::<String>::new());
}

#[test]
fn contains_key_and_readiness() {
    let r = sample(true);
    assert!(contains_key(&r.sql_tables, &"items".to_string()));
    assert!(!contains_key(&r.sql_tables, &"orders".to_string()));
    assert!(r.ready_to_rebuild());
    let mut r2 = sample(true);
    r2.modal = "items".to_string();
    assert!(!r2.ready_to_rebuild());
    r2.add_rows = false;
    assert!(r2.ready_to_rebuild());
}

#[test]
fn sql_texts() {
    assert_eq!(drop_table_sql(&"users".to_string()), "DROP TABLE users;");
    assert_eq!(
        check_table_sql(&"users".to_string()),
        "SELECT EXISTS ( SELECT FROM pg_tables WHERE schemaname = 'public' AND tablename = 'users');"
    );
    assert_eq!(success_message(true), "Table Successfully rebuilt\nRows Successfully added");
    assert_eq!(success_message(false), "Table Successfully rebuilt\n");
}

#[test]
fn successful_rebuild_with_existing_table_and_rows() {
    let mut r = sample(true);
    let (mut run, first) = RebuildRun::begin(&r);
    assert_eq!(first, RebuildAction::Connect);
    let mut actions = vec![];
    let events = vec![
        RebuildEvent::Done,
        RebuildEvent::Answer(true),
        RebuildEvent::Done,
        RebuildEvent::Done,
        RebuildEvent::Done,
        RebuildEvent::Done,
        RebuildEvent::Done,
    ];
    for e in events {
        assert!(run.accepts(&e));
        actions.push(run.advance(&mut r, e));
    }
    assert_eq!(
        actions,
        vec![
            RebuildAction::Query(
                "SELECT EXISTS ( SELECT FROM pg_tables WHERE schemaname = 'public' AND tablename = 'users');"
                    .to_string()
            ),
            RebuildAction::Execute("DROP TABLE users;".to_string()),
            RebuildAction::Execute("CREATE TABLE users (id int);".to_string()),
            RebuildAction::Execute("INSERT INTO users VALUES (1);".to_string()),
            RebuildAction::Execute("INSERT INTO users VALUES (2);".to_string()),
            RebuildAction::Close,
            RebuildAction::Finish(Ok(())),
        ]
    );
    assert_eq!(
        r.window_message,
        WindowMessage::window_message(Some(
            "Table Successfully rebuilt\nRows Successfully added".to_string()
        ))
    );
    assert!(!run.accepts(&RebuildEvent::Done));
}

#[test]
fn successful_rebuild_of_new_table_without_rows() {
    let mut r = sample(false);
    let (mut run, _) = RebuildRun::begin(&r);
    assert_eq!(run.advance(&mut r, RebuildEvent::Done), RebuildAction::Query(check_table_sql(&"users".to_string())));
    assert_eq!(
        run.advance(&mut r, RebuildEvent::Answer(false)),
        RebuildAction::Execute("CREATE TABLE users (id int);".to_string())
    );
    assert_eq!(run.advance(&mut r, RebuildEvent::Done), RebuildAction::Close);
    assert_eq!(
        r.window_message,
        WindowMessage::window_message(Some("Table Successfully rebuilt\n".to_string()))
    );
    assert_eq!(run.advance(&mut r, RebuildEvent::Done), RebuildAction::Finish(Ok(())));
}

#[test]
fn failed_step_ends_rebuild() {
    let mut r = sample(true);
    let (mut run, _) = RebuildRun::begin(&r);
    assert!(!run.accepts(&RebuildEvent::Answer(true)));
    run.advance(&mut r, RebuildEvent::Done);
    assert!(!run.accepts(&RebuildEvent::Done));
    run.advance(&mut r, RebuildEvent::Answer(false));
    assert_eq!(
        run.advance(&mut r, RebuildEvent::Failed("syntax error".to_string())),
        RebuildAction::Finish(Err("syntax error".to_string()))
    );
    assert_eq!(r.window_message, WindowMessage::default());
    assert!(!run.accepts(&RebuildEvent::Done));
}

#[test]
fn failed_connection_ends_rebuild() {
    let mut r = sample(false);
    let (mut run, _) = RebuildRun::begin(&r);
    assert_eq!(
        run.advance(&mut r, RebuildEvent::Failed("connection refused".to_string())),
        RebuildAction::Finish(Err("connection refused".to_string()))
    );
}

#[test]
fn failed_close_keeps_message() {
    let mut r = sample(false);
    let (mut run, _) = RebuildRun::begin(&r);
    run.advance(&mut r, RebuildEvent::Done);
    run.advance(&mut r, RebuildEvent::Answer(false));
    assert_eq!(run.advance(&mut r, RebuildEvent::Done), RebuildAction::Close);
    assert_eq!(
        run.advance(&mut r, RebuildEvent::Failed("closing failed".to_string())),
        RebuildAction::Finish(Err("closing failed".to_string()))
    );
    assert_eq!(
        r.window_message,
        WindowMessage::window_message(Some("Table Successfully rebuilt\n".to_string()))
    );
}

#[test]
fn rows_with_empty_statement_list() {
    let mut r = sample(true);
    r.sql_rows = vec![("users".to_string(), vec![])];
    let (mut run, _) = RebuildRun::begin(&r);
    run.advance(&mut r, RebuildEvent::Done);
    run.advance(&mut r, RebuildEvent::Answer(false));
    assert_eq!(run.advance(&mut r, RebuildEvent::Done), RebuildAction::Close);
    assert_eq!(
        r.window_message,
        WindowMessage::window_message(Some(
            "Table Successfully rebuilt\nRows Successfully added".to_string()
        ))
    );
}

#[test]
fn toggle_add_rows_flips() {
    let mut r = sample(false);
    r.toggle_add_rows();
    assert!(r.add_rows);
    r.toggle_add_rows();
    assert!(!r.add_rows);
}

#[test]
fn connection_failure_without_table_sql() {
    let mut r = Rebuild::default();
    r.modal = "orders".to_string();
    let (mut run, first) = RebuildRun::begin(&r);
    assert_eq!(first, RebuildAction::Connect);
    let e = RebuildEvent::Failed("connection refused".to_string());
    assert!(!run.missing_sql_for(&e));
    assert_eq!(run.advance(&mut r, e), RebuildAction::Finish(Err("connection refused".to_string())));
    assert_eq!(r.window_message, WindowMessage::default());
}

#[test]
fn missing_sql_is_noticed_when_needed() {
    let mut r = Rebuild::default();
    r.modal = "orders".to_string();
    let (mut run, _) = RebuildRun::begin(&r);
    assert!(!run.missing_sql_for(&RebuildEvent::Done));
    run.advance(&mut r, RebuildEvent::Done);
    assert!(!run.missing_sql_for(&RebuildEvent::Answer(true)));
    assert!(run.missing_sql_for(&RebuildEvent::Answer(false)));
    run.advance(&mut r, RebuildEvent::Answer(true));
    assert!(run.missing_sql_for(&RebuildEvent::Done));
    assert!(!run.missing_sql_for(&RebuildEvent::Failed("x".to_string())));
}

#[test]
fn failed_creation_without_row_sql() {
    let mut r = sample(true);
    r.sql_rows = vec![];
    let (mut run, _) = RebuildRun::begin(&r);
    run.advance(&mut r, RebuildEvent::Done);
    assert_eq!(run.advance(&mut r, RebuildEvent::Answer(true)), RebuildAction::Execute("DROP TABLE users;".to_string()));
    assert!(!run.missing_sql_for(&RebuildEvent::Done));
    assert_eq!(
        run.advance(&mut r, RebuildEvent::Done),
        RebuildAction::Execute("CREATE TABLE users (id int);".to_string())
    );
    assert!(run.creating());
    let e = RebuildEvent::Failed("syntax error".to_string());
    assert!(!run.missing_sql_for(&e));
    assert_eq!(run.advance(&mut r, e), RebuildAction::Finish(Err("syntax error".to_string())));
    assert_eq!(r.window_message, WindowMessage::default());
    assert!(!run.accepts(&RebuildEvent::Done));
}

#[test]
fn failed_existence_query_ends_rebuild() {
    let mut r = sample(true);
    let (mut run, _) = RebuildRun::begin(&r);
    assert_eq!(run.advance(&mut r, RebuildEvent::Done), RebuildAction::Query(check_table_sql(&"users".to_string())));
    let e = RebuildEvent::Failed("relation error".to_string());
    assert!(run.accepts(&e));
    assert!(!run.missing_sql_for(&e));
    assert_eq!(run.advance(&mut r, e), RebuildAction::Finish(Err("relation error".to_string())));
    assert_eq!(r.window_message, WindowMessage::default());
    assert!(!run.accepts(&RebuildEvent::Failed("again".to_string())));
}
