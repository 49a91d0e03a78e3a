use vstd::prelude::*;

use crate::json::{beautify_json, json_pretty_text, json_text_is_valid, json_value_error_text};
use crate::messages::ErrorMessage;

verus! {

/// The folder, relative to the working directory, that the editor reads and writes.
pub open spec fn edit_folder_text() -> Seq<char> {
    "postgresql_json/"@
}

/// The path of a JSON file of the editor's folder.
pub fn json_file_path(file_name: &str) -> (res: String)
    ensures
        res@ == edit_folder_text() + file_name@,
{
    let mut path = String::from_str("postgresql_json/");
    path.append(file_name);
    path
}

/// Shows the error of a failed operation; a successful one changes nothing.
pub fn report_failure(outcome: Result<(), String>, error_message: &mut ErrorMessage)
    ensures
        match outcome {
            Ok(()) => *final(error_message) == *old(error_message),
            Err(e) => final(error_message)@ == ErrorMessage::spec_pure(Some(e@)),
        },
{
    if let Err(error) = outcome {
        *error_message = ErrorMessage::pure_error_message(Some(error));
    }
}

/// Re-indents the edited JSON text. When it is a JSON document, the text is
/// replaced by serde_json's indented print of it and the error cleared;
/// otherwise the text stays and the parser's error is shown.
pub fn beautify(text_file: &mut String, error_message: &mut ErrorMessage)
    ensures
        json_text_is_valid(old(text_file)@) ==> {
            &&& final(text_file)@ == json_pretty_text(old(text_file)@)
            &&& final(error_message)@ == (false, None::<Seq<char>>)
        },
        !json_text_is_valid(old(text_file)@) ==> {
            &&& final(text_file)@ == old(text_file)@
            &&& final(error_message)@ == ErrorMessage::spec_pure(
                Some(json_value_error_text(old(text_file)@)),
            )
        },
{
    match beautify_json(text_file) {
        Ok(pretty_string) => {
            *text_file = pretty_string;
            *error_message = ErrorMessage::default();
        },
        Err(error) => {
            *error_message = ErrorMessage::pure_error_message(Some(error));
        },
    }
}

} // verus!
