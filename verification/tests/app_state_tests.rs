use dbmod::data_base_mod_app::{DataBaseMod, Operation};
use dbmod::messages::ErrorMessage;
use dbmod::rebuild_steps::{RebuildAction, RebuildEvent, RebuildRun};

#[test]
fn with_loaded_files_holds_texts() {
    let app = DataBaseMod::with_loaded_files(Ok("{}".to_string()), Ok("{\"t\": []}".to_string()));
    assert_eq!(app.tables_file, "{}");
    assert_eq!(app.rows_file, "{\"t\": []}");
    assert_eq!(app.error_message, ErrorMessage::default());
    assert_eq!(app.some_files, vec!["No files up yet".to_string()]);
    assert_eq!(app.operation(), Operation::NoneChosen);
    assert_eq!(app.file_to_edit_modal, "");
    assert!(app.some_rebuild.gear.is_empty());
}

#[test]
fn with_loaded_files_shows_last_failure() {
    let app = DataBaseMod::with_loaded_files(Err("no tables".to_string()), Err("no rows".to_string()));
    assert_eq!(app.tables_file, "");
    assert_eq!(app.rows_file, "");
    assert_eq!(app.error_message, ErrorMessage::pure_error_message(Some("no rows".to_string())));
    let app = DataBaseMod::with_loaded_files(Err("no tables".to_string()), Ok("x".to_string()));
    assert_eq!(app.error_message, ErrorMessage::pure_error_message(Some("no tables".to_string())));
}

#[test]
fn refresh_file_list_cases() {
    let mut app = DataBaseMod::with_loaded_files(Ok("{}".to_string()), Ok("{}".to_string()));
    app.file_to_edit_modal = "old.json".to_string();
    app.refresh_file_list(Ok(vec!["a.json".to_string()]));
    assert_eq!(app.some_files, vec!["a.json".to_string()]);
    assert_eq!(app.file_to_edit_modal, "");
    app.file_to_edit_modal = "a.json".to_string();
    app.refresh_file_list(Err(ErrorMessage::pure_error_message(Some("gone".to_string()))));
    assert_eq!(app.some_files, vec!["a.json".to_string()]);
    assert_eq!(app.file_to_edit_modal, "a.json");
    assert_eq!(app.error_message, ErrorMessage::pure_error_message(Some("gone".to_string())));
}

#[test]
fn reload_rebuild_sources_parses_both_files() {
    let mut app = DataBaseMod::with_loaded_files(Ok("".to_string()), Ok("".to_string()));
    app.reload_rebuild_sources(
        Ok("{\"users\": \"CREATE TABLE users ();\"}".to_string()),
        Ok("{\"users\": [\"INSERT INTO users VALUES ();\"]}".to_string()),
    );
    assert_eq!(
        app.some_rebuild.sql_tables,
        vec![("users".to_string(), "CREATE TABLE users ();".to_string())]
    );
    assert_eq!(
        app.some_rebuild.sql_rows,
        vec![("users".to_string(), vec!["INSERT INTO users VALUES ();".to_string()])]
    );
    assert_eq!(app.some_rebuild.gear, vec!["users".to_string()]);
    assert_eq!(app.error_message, ErrorMessage::default());
}

#[test]
fn reload_rebuild_sources_keeps_old_sql_on_bad_json() {
    let mut app = DataBaseMod::with_loaded_files(Ok("".to_string()), Ok("".to_string()));
    app.reload_rebuild_sources(
        Ok("{\"users\": \"CREATE TABLE users ();\"}".to_string()),
        Ok("{}".to_string()),
    );
    app.reload_rebuild_sources(Ok("not json".to_string()), Err("rows missing".to_string()));
    assert_eq!(app.tables_file, "not json");
    assert_eq!(app.rows_file, "{}");
    assert_eq!(
        app.some_rebuild.sql_tables,
        vec![("users".to_string(), "CREATE TABLE users ();".to_string())]
    );
    assert!(app.error_message.is_window_open);
    assert_ne!(app.error_message.message, Some("rows missing".to_string()));
    assert_eq!(app.some_rebuild.gear, vec!["users".to_string()]);
}

#[test]
fn rebuild_runs_sql_read_from_json() {
    let mut app = DataBaseMod::with_loaded_files(Ok("".to_string()), Ok("".to_string()));
    app.reload_rebuild_sources(
        Ok("{\"users\": \"CREATE TABLE users (id int);\"}".to_string()),
        Ok("{\"users\": [\"INSERT INTO users VALUES (7);\"]}".to_string()),
    );
    app.some_rebuild.modal = app.some_rebuild.gear[0].clone();
    app.some_rebuild.add_rows = true;
    assert!(app.some_rebuild.ready_to_rebuild());
    let (mut run, first) = RebuildRun::begin(&app.some_rebuild);
    assert_eq!(first, RebuildAction::Connect);
    let mut actions = vec![];
    for e in vec![
        RebuildEvent::Done,
        RebuildEvent::Answer(false),
        RebuildEvent::Done,
        RebuildEvent::Done,
        RebuildEvent::Done,
    ] {
        actions.push(run.advance(&mut app.some_rebuild, e));
    }
    assert_eq!(actions[1], RebuildAction::Execute("CREATE TABLE users (id int);".to_string()));
    assert_eq!(actions[2], RebuildAction::Execute("INSERT INTO users VALUES (7);".to_string()));
    assert_eq!(actions[3], RebuildAction::Close);
    assert_eq!(actions[4], RebuildAction::Finish(Ok(())));
}

#[test]
fn on_menu_pick_reloads_only_for_rebuild() {
    let mut app = DataBaseMod::with_loaded_files(Ok("".to_string()), Ok("".to_string()));
    app.on_menu_pick("Edit", Ok(vec!["a.json".to_string()]), || -> (Result<String, String>, Result<String, String>) {
        panic!("no reload for Edit")
    });
    assert_eq!(app.some_files, vec!["a.json".to_string()]);
    assert!(app.some_rebuild.gear.is_empty());
    app.on_menu_pick("Rebuild", Ok(vec!["b.json".to_string()]), || {
        (
            Ok("{\"users\": \"CREATE TABLE users ();\"}".to_string()),
            Ok("{}".to_string()),
        )
    });
    assert_eq!(app.some_files, vec!["b.json".to_string()]);
    assert_eq!(app.some_rebuild.gear, vec!["users".to_string()]);
    assert_eq!(app.tables_file, "{\"users\": \"CREATE TABLE users ();\"}");
}

#[test]
fn reload_shows_tables_parser_error() {
    let mut app = DataBaseMod::with_loaded_files(Ok("".to_string()), Ok("".to_string()));
    app.reload_rebuild_sources(Ok("not json".to_string()), Ok("{}".to_string()));
    let expected = dbmod::json::serde_string_to_map("not json".to_string()).unwrap_err();
    assert_eq!(app.error_message, ErrorMessage::pure_error_message(Some(expected)));
}
