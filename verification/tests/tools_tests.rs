use dbmod::messages::{ErrorMessage, WindowMessage};
use dbmod::tools::{
    current_dir_string, file_names, folder_path, handle_load_result, option_str_to_string,
    postgresql_json_filenames,
};

#[test]
fn default_messages_are_closed_and_empty() {
    let e = ErrorMessage::default();
    assert!(!e.is_window_open);
    assert_eq!(e.message, None);
    let w = WindowMessage::default();
    assert!(!w.is_window_open);
    assert_eq!(w.message, None);
}

#[test]
fn pure_error_message_opens_with_text() {
    let e = ErrorMessage::pure_error_message(Some("boom".to_string()));
    assert!(e.is_window_open);
    assert_eq!(e.message, Some("boom".to_string()));
    let w = WindowMessage::window_message(Some("done".to_string()));
    assert!(w.is_window_open);
    assert_eq!(w.message, Some("done".to_string()));
}

#[test]
fn handle_load_result_stores_text() {
    let mut holder = "old".to_string();
    let mut error = ErrorMessage::pure_error_message(Some("earlier".to_string()));
    handle_load_result(Ok("{\"a\": \"b\"}".to_string()), &mut holder, &mut error);
    assert_eq!(holder, "{\"a\": \"b\"}");
    assert_eq!(error, ErrorMessage::pure_error_message(Some("earlier".to_string())));
}

#[test]
fn handle_load_result_reports_error() {
    let mut holder = "old".to_string();
    let mut error = ErrorMessage::default();
    handle_load_result(Err("No such file".to_string()), &mut holder, &mut error);
    assert_eq!(holder, "old");
    assert!(error.is_window_open);
    assert_eq!(error.message, Some("No such file".to_string()));
}

#[test]
fn option_str_to_string_cases() {
    assert_eq!(option_str_to_string(Some("abc")), Ok("abc".to_string()));
    assert_eq!(
        option_str_to_string(None),
        Err("Could not convert current_dir(type: PathBuf to &str".to_string())
    );
}

#[test]
fn current_dir_string_cases() {
    assert_eq!(current_dir_string(Ok(Some("/home/me"))), Ok("/home/me".to_string()));
    assert_eq!(
        current_dir_string(Ok(None)),
        Err("Could not convert current_dir(type: PathBuf to &str".to_string())
    );
    assert_eq!(
        current_dir_string(Err(())),
        Err("Could not obtain the current directory".to_string())
    );
}

#[test]
fn folder_path_joins() {
    assert_eq!(folder_path("/home/me", "/postgresql_json/"), "/home/me/postgresql_json/");
}

#[test]
fn file_names_all_good() {
    let listing = Ok(vec![Ok(Some("a.json".to_string())), Ok(Some("b.json".to_string()))]);
    assert_eq!(file_names(listing), Ok(vec!["a.json".to_string(), "b.json".to_string()]));
}

#[test]
fn file_names_empty_folder() {
    assert_eq!(file_names(Ok(vec![])), Ok(vec![]));
}

#[test]
fn file_names_folder_error() {
    assert_eq!(file_names(Err("not found".to_string())), Err("not found".to_string()));
}

#[test]
fn file_names_first_error_wins() {
    let listing = Ok(vec![
        Ok(Some("a.json".to_string())),
        Err("entry broke".to_string()),
        Ok(None),
    ]);
    assert_eq!(file_names(listing), Err("entry broke".to_string()));
    let listing = Ok(vec![Ok(None), Err("entry broke".to_string())]);
    assert_eq!(
        file_names(listing),
        Err("Could not convert current_dir(type: PathBuf to &str".to_string())
    );
}

#[test]
fn postgresql_json_filenames_lists_json_folder() {
    let res = postgresql_json_filenames(Ok("/work".to_string()), |dir: String, folder: String| {
        assert_eq!(dir, "/work");
        assert_eq!(folder, "/postgresql_json/");
        Ok(vec!["x.json".to_string()])
    });
    assert_eq!(res, Ok(vec!["x.json".to_string()]));
}

#[test]
fn postgresql_json_filenames_reports_errors() {
    let res = postgresql_json_filenames(Err("no dir".to_string()), |_d: String, _f: String| {
        panic!("must not list without a directory")
    });
    assert_eq!(res, Err(ErrorMessage::pure_error_message(Some("no dir".to_string()))));
    let res = postgresql_json_filenames(Ok("/work".to_string()), |_d: String, _f: String| {
        Err("cannot read".to_string())
    });
    assert_eq!(res, Err(ErrorMessage::pure_error_message(Some("cannot read".to_string()))));
}
