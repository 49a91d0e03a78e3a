use dbmod::edit::{beautify, json_file_path, report_failure};
use dbmod::json::{beautify_json, serde_string_to_map, serde_string_to_map_with_array, string_to_json};
use dbmod::messages::ErrorMessage;

#[test]
fn string_map_parses_object() {
    let mut pairs = serde_string_to_map(
        "{\"users\": \"CREATE TABLE users (id int);\", \"items\": \"CREATE TABLE items ();\"}"
            .to_string(),
    )
    .unwrap();
    pairs.sort();
    assert_eq!(
        pairs,
        vec![
            ("items".to_string(), "CREATE TABLE items ();".to_string()),
            ("users".to_string(), "CREATE TABLE users (id int);".to_string()),
        ]
    );
}

#[test]
fn string_map_rejects_non_objects() {
    assert!(serde_string_to_map("not json".to_string()).is_err());
    assert!(serde_string_to_map("[1, 2]".to_string()).is_err());
    assert!(serde_string_to_map("{\"a\": 1}".to_string()).is_err());
    assert_eq!(serde_string_to_map("{}".to_string()), Ok(vec![]));
}

#[test]
fn string_list_map_parses_object() {
    let pairs = serde_string_to_map_with_array(
        "{\"users\": [\"INSERT INTO users VALUES (1);\", \"INSERT INTO users VALUES (2);\"]}"
            .to_string(),
    )
    .unwrap();
    assert_eq!(
        pairs,
        vec![(
            "users".to_string(),
            vec![
                "INSERT INTO users VALUES (1);".to_string(),
                "INSERT INTO users VALUES (2);".to_string()
            ]
        )]
    );
    assert!(serde_string_to_map_with_array("{\"users\": \"x\"}".to_string()).is_err());
}

#[test]
fn string_to_json_validity() {
    assert!(string_to_json("{\"a\": [1, 2]}".to_string()).is_ok());
    assert!(string_to_json("{\"a\": ".to_string()).is_err());
}

#[test]
fn beautify_json_indents() {
    assert_eq!(beautify_json(&"{\"a\":1}".to_string()), Ok("{\n  \"a\": 1\n}".to_string()));
    assert!(beautify_json(&"{".to_string()).is_err());
}

#[test]
fn beautify_replaces_text_and_clears_error() {
    let mut text = "{\"a\":[1,2]}".to_string();
    let mut error = ErrorMessage::pure_error_message(Some("old".to_string()));
    beautify(&mut text, &mut error);
    assert_eq!(text, "{\n  \"a\": [\n    1,\n    2\n  ]\n}");
    assert_eq!(error, ErrorMessage::default());
}

#[test]
fn beautify_keeps_invalid_text() {
    let mut text = "{\"a\":".to_string();
    let mut error = ErrorMessage::default();
    beautify(&mut text, &mut error);
    assert_eq!(text, "{\"a\":");
    assert!(error.is_window_open);
    assert!(error.message.is_some());
}

#[test]
fn json_file_path_prefixes_folder() {
    assert_eq!(json_file_path("tables.json"), "postgresql_json/tables.json");
}

#[test]
fn report_failure_cases() {
    let mut error = ErrorMessage::default();
    report_failure(Ok(()), &mut error);
    assert_eq!(error, ErrorMessage::default());
    report_failure(Err("disk full".to_string()), &mut error);
    assert_eq!(error, ErrorMessage::pure_error_message(Some("disk full".to_string())));
}

#[test]
fn parse_failures_carry_parser_text() {
    let expected = serde_json::from_str::<std::collections::HashMap<String, String>>("{\"a\": 1}")
        .unwrap_err()
        .to_string();
    assert_eq!(serde_string_to_map("{\"a\": 1}".to_string()), Err(expected));
    let expected =
        serde_json::from_str::<std::collections::HashMap<String, Vec<String>>>("[")
            .unwrap_err()
            .to_string();
    assert_eq!(serde_string_to_map_with_array("[".to_string()), Err(expected));
    let expected = serde_json::from_str::<serde_json::Value>("{").unwrap_err().to_string();
    assert_eq!(beautify_json(&"{".to_string()), Err(expected));
}

#[test]
fn beautify_shows_parser_error() {
    let mut text = "[1,".to_string();
    let mut error = ErrorMessage::default();
    beautify(&mut text, &mut error);
    let expected = serde_json::from_str::<serde_json::Value>("[1,").unwrap_err().to_string();
    assert_eq!(text, "[1,");
    assert_eq!(error, ErrorMessage::pure_error_message(Some(expected)));
}
