use vstd::prelude::*;

use crate::json::{
    has_key, json_string_list_map, json_string_map, list_pairs_match_map, pair_keys, pairs_match_map,
    serde_string_to_map, serde_string_to_map_with_array, strings_view,
};
use crate::messages::ErrorMessage;
use crate::rebuild::Rebuild;
use crate::tools::handle_load_result;

verus! {

/// The operation the user chose in the main menu.
#[derive(Debug, Clone, Copy, PartialEq, Eq, Structural)]
pub enum Operation {
    /// Edit a JSON file.
    Edit,
    /// Rebuild a table.
    Rebuild,
    /// Delete (nothing happens yet).
    Delete,
    /// Nothing chosen yet, or an unknown choice.
    NoneChosen,
}

/// The operation a main-menu choice names.
pub open spec fn spec_operation(chosen: Seq<char>) -> Operation {
    if chosen == "Edit"@ {
        Operation::Edit
    } else if chosen == "Rebuild"@ {
        Operation::Rebuild
    } else if chosen == "Delete"@ {
        Operation::Delete
    } else {
        Operation::NoneChosen
    }
}

/// The operation a main-menu choice names.
pub fn operation_of(chosen: &str) -> (res: Operation)
    ensures
        res == spec_operation(chosen@),
{
    let chosen = String::from_str(chosen);
    if chosen == String::from_str("Edit") {
        Operation::Edit
    } else if chosen == String::from_str("Rebuild") {
        Operation::Rebuild
    } else if chosen == String::from_str("Delete") {
        Operation::Delete
    } else {
        Operation::NoneChosen
    }
}

/// The choices of the main menu, in order.
pub fn operation_gear() -> (res: Vec<String>)
    ensures
        strings_view(res@) == seq!["Edit"@, "Rebuild"@, "Delete"@],
{
    let mut gear: Vec<String> = Vec::new();
    gear.push(String::from_str("Edit"));
    gear.push(String::from_str("Rebuild"));
    gear.push(String::from_str("Delete"));
    assert(strings_view(gear@) =~= seq!["Edit"@, "Rebuild"@, "Delete"@]);
    gear
}

/// The text a load leaves in a file holder that held `before`.
pub open spec fn loaded_text(load: Result<String, String>, before: Seq<char>) -> Seq<char> {
    match load {
        Ok(text) => text@,
        Err(_) => before,
    }
}

/// The error shown after two loads, the second after the first, when
/// `before` was shown: the last failure's text, else `before`.
pub open spec fn error_after_loads(
    first: Result<String, String>,
    second: Result<String, String>,
    before: (bool, Option<Seq<char>>),
) -> (bool, Option<Seq<char>>) {
    match second {
        Err(e) => ErrorMessage::spec_pure(Some(e@)),
        Ok(_) => match first {
            Err(e) => ErrorMessage::spec_pure(Some(e@)),
            Ok(_) => before,
        },
    }
}

/// The error shown after the sources were reloaded: the rows parse's
/// error, else the tables parse's error, else the error after the loads.
pub open spec fn error_after_reload(
    tables_load: Result<String, String>,
    rows_load: Result<String, String>,
    tables_parse: Result<Map<Seq<char>, Seq<char>>, Seq<char>>,
    rows_parse: Result<Map<Seq<char>, Seq<Seq<char>>>, Seq<char>>,
    before: (bool, Option<Seq<char>>),
) -> (bool, Option<Seq<char>>) {
    match rows_parse {
        Err(e) => ErrorMessage::spec_pure(Some(e)),
        Ok(_) => match tables_parse {
            Err(e) => ErrorMessage::spec_pure(Some(e)),
            Ok(_) => error_after_loads(tables_load, rows_load, before),
        },
    }
}

/// The whole state of the application window.
pub struct DataBaseMod {
    /// The error shown to the user.
    pub error_message: ErrorMessage,
    /// The text of the file that describes the tables (and the text being edited).
    pub tables_file: String,
    /// The text of the file that describes the tables' rows.
    pub rows_file: String,
    /// The JSON files the editor offers.
    pub some_files: Vec<String>,
    /// The main-menu choice.
    pub chosen_operation_modal: String,
    /// The file chosen in the editor.
    pub file_to_edit_modal: String,
    /// The rebuild screen.
    pub some_rebuild: Rebuild,
}

/// The state after a fresh list of the editor's files was taken: on
/// success the list is replaced and the editor's choice cleared; on failure
/// the error is shown. Nothing else changes.
pub open spec fn spec_refresh(
    before: DataBaseMod,
    after: DataBaseMod,
    listing: Result<Vec<String>, ErrorMessage>,
) -> bool {
    &&& match listing {
        Ok(files) => {
            &&& after.some_files@ == files@
            &&& after.file_to_edit_modal@ == Seq::<char>::empty()
            &&& after.error_message == before.error_message
        },
        Err(m) => {
            &&& after.some_files == before.some_files
            &&& after.file_to_edit_modal == before.file_to_edit_modal
            &&& after.error_message == m
        },
    }
    &&& after.tables_file == before.tables_file
    &&& after.rows_file == before.rows_file
    &&& after.chosen_operation_modal == before.chosen_operation_modal
    &&& after.some_rebuild == before.some_rebuild
}

/// The state after the tables and rows files were loaded again and the
/// rebuild screen's sources rebuilt from them: each loaded text is held (a
/// failed load keeps the old text and shows its error); the tables text,
/// parsed as a JSON object of strings, replaces the tables' SQL, and the rows
/// text, parsed as a JSON object of string arrays, replaces the rows' SQL (a
/// failed parse keeps the old SQL and shows the parser's error); the menu
/// then offers the names of the tables that have SQL. Nothing else changes.
pub open spec fn spec_reload(
    before: DataBaseMod,
    after: DataBaseMod,
    tables_load: Result<String, String>,
    rows_load: Result<String, String>,
) -> bool {
    let tables_text = loaded_text(tables_load, before.tables_file@);
    let rows_text = loaded_text(rows_load, before.rows_file@);
    &&& after.tables_file@ == tables_text
    &&& after.rows_file@ == rows_text
    &&& match json_string_map(tables_text) {
        Ok(m) => pairs_match_map(after.some_rebuild.sql_tables@, m),
        Err(_) => after.some_rebuild.sql_tables == before.some_rebuild.sql_tables,
    }
    &&& match json_string_list_map(rows_text) {
        Ok(m) => list_pairs_match_map(after.some_rebuild.sql_rows@, m),
        Err(_) => after.some_rebuild.sql_rows == before.some_rebuild.sql_rows,
    }
    &&& after.error_message@ == error_after_reload(
        tables_load,
        rows_load,
        json_string_map(tables_text),
        json_string_list_map(rows_text),
        before.error_message@,
    )
    &&& strings_view(after.some_rebuild.gear@) == pair_keys(after.some_rebuild.sql_tables@)
    &&& after.some_rebuild.modal == before.some_rebuild.modal
    &&& after.some_rebuild.add_rows == before.some_rebuild.add_rows
    &&& after.some_rebuild.window_message == before.some_rebuild.window_message
    &&& after.some_files == before.some_files
    &&& after.chosen_operation_modal == before.chosen_operation_modal
    &&& after.file_to_edit_modal == before.file_to_edit_modal
}

impl DataBaseMod {
    /// The starting state, from what loading the tables file and then the
    /// rows file gave: each loaded text is held (an empty text where its
    /// load failed), the last failure is shown, the editor offers a
    /// placeholder entry, nothing is chosen and the rebuild screen is empty.
    pub fn with_loaded_files(
        tables_load: Result<String, String>,
        rows_load: Result<String, String>,
    ) -> (res: DataBaseMod)
        ensures
            res.tables_file@ == loaded_text(tables_load, Seq::empty()),
            res.rows_file@ == loaded_text(rows_load, Seq::empty()),
            res.error_message@ == error_after_loads(tables_load, rows_load, (false, None)),
            strings_view(res.some_files@) == seq!["No files up yet"@],
            res.chosen_operation_modal@ == Seq::<char>::empty(),
            res.file_to_edit_modal@ == Seq::<char>::empty(),
            res.some_rebuild.modal@ == Seq::<char>::empty(),
            !res.some_rebuild.add_rows,
            res.some_rebuild.sql_tables@.len() == 0,
            res.some_rebuild.sql_rows@.len() == 0,
            res.some_rebuild.window_message@ == (false, None::<Seq<char>>),
            res.some_rebuild.gear@.len() == 0,
    {
        let mut error_message = ErrorMessage::default();
        let mut tables_file = String::new();
        handle_load_result(tables_load, &mut tables_file, &mut error_message);
        let mut rows_file = String::new();
        handle_load_result(rows_load, &mut rows_file, &mut error_message);
        let mut some_files: Vec<String> = Vec::new();
        some_files.push(String::from_str("No files up yet"));
        assert(strings_view(some_files@) =~= seq!["No files up yet"@]);
        DataBaseMod {
            error_message,
            tables_file,
            rows_file,
            some_files,
            chosen_operation_modal: String::new(),
            file_to_edit_modal: String::new(),
            some_rebuild: Rebuild::default(),
        }
    }

    /// The operation chosen in the main menu.
    pub fn operation(&self) -> (res: Operation)
        ensures
            res == spec_operation(self.chosen_operation_modal@),
    {
        operation_of(self.chosen_operation_modal.as_str())
    }

    /// Takes a fresh list of the editor's files: on success the list is
    /// replaced and the editor's choice cleared; on failure the error is
    /// shown. Nothing else changes.
    pub fn refresh_file_list(&mut self, listing: Result<Vec<String>, ErrorMessage>)
        ensures
            spec_refresh(*old(self), *final(self), listing),
    {
        match listing {
            Ok(filenames) => {
                self.some_files = filenames;
                self.file_to_edit_modal = String::new();
            },
            Err(some_error_message) => {
                self.error_message = some_error_message;
            },
        }
    }

    /// Takes freshly loaded tables and rows files and rebuilds the rebuild
    /// screen's sources from them: each loaded text is held (a failed load
    /// keeps the old text and shows its error); the tables text, parsed as a
    /// JSON object of strings, replaces the tables' SQL, and the rows text,
    /// parsed as a JSON object of string arrays, replaces the rows' SQL (a
    /// failed parse keeps the old SQL and shows its error); the menu then
    /// offers the names of the tables that have SQL.
    pub fn reload_rebuild_sources(
        &mut self,
        tables_load: Result<String, String>,
        rows_load: Result<String, String>,
    )
        ensures
            spec_reload(*old(self), *final(self), tables_load, rows_load),
            json_string_map(loaded_text(tables_load, old(self).tables_file@)) is Ok ==> pairs_match_map(
                final(self).some_rebuild.sql_tables@,
                json_string_map(loaded_text(tables_load, old(self).tables_file@))->Ok_0,
            ),
            json_string_list_map(loaded_text(rows_load, old(self).rows_file@)) is Ok
                ==> list_pairs_match_map(
                final(self).some_rebuild.sql_rows@,
                json_string_list_map(loaded_text(rows_load, old(self).rows_file@))->Ok_0,
            ),
    {
        handle_load_result(tables_load, &mut self.tables_file, &mut self.error_message);
        handle_load_result(rows_load, &mut self.rows_file, &mut self.error_message);
        match serde_string_to_map(self.tables_file.clone()) {
            Ok(tables_file_as_map) => {
                self.some_rebuild.sql_tables = tables_file_as_map;
            },
            Err(error_string) => {
                self.error_message = ErrorMessage::pure_error_message(Some(error_string));
            },
        }
        match serde_string_to_map_with_array(self.rows_file.clone()) {
            Ok(rows_file_as_map) => {
                self.some_rebuild.sql_rows = rows_file_as_map;
            },
            Err(error_string) => {
                self.error_message = ErrorMessage::pure_error_message(Some(error_string));
            },
        }
        self.some_rebuild.gear = Rebuild::build_mmg(&self.some_rebuild);
    }

    /// Acts on a pick in the main menu: the editor's file list is refreshed
    /// from `listing`; when the pick is "Rebuild", the tables and rows files
    /// are loaded again (by `load_sources`, which gives what loading the
    /// tables file and then the rows file gave) and the rebuild screen's
    /// sources are rebuilt from them.
    pub fn on_menu_pick<F: FnOnce() -> (Result<String, String>, Result<String, String>)>(
        &mut self,
        pick: &str,
        listing: Result<Vec<String>, ErrorMessage>,
        load_sources: F,
    )
        requires
            spec_operation(pick@) == Operation::Rebuild ==> call_requires(load_sources, ()),
        ensures
            exists|refreshed: DataBaseMod|
                {
                    &&& spec_refresh(*old(self), refreshed, listing)
                    &&& if spec_operation(pick@) == Operation::Rebuild {
                        exists|loads: (Result<String, String>, Result<String, String>)|
                            {
                                &&& call_ensures(load_sources, (), loads)
                                &&& spec_reload(refreshed, *final(self), loads.0, loads.1)
                            }
                    } else {
                        *final(self) == refreshed
                    }
                },
    {
        self.refresh_file_list(listing);
        let ghost refreshed = *self;
        match operation_of(pick) {
            Operation::Rebuild => {
                let loads = load_sources();
                self.reload_rebuild_sources(loads.0, loads.1);
            },
            _ => {},
        }
    }
}

/// Reloading parses the two files independently: whenever the loaded
/// tables text is a JSON object of strings, the tables' SQL afterwards is
/// exactly that object and the menu offers exactly its table names, whatever
/// the rows text holds; and whenever the loaded rows text is a JSON object of
/// string arrays, the rows' SQL afterwards is exactly that object, whatever
/// the tables text holds. A text that does not parse leaves its SQL as it
/// was.
pub proof fn law_reload_parses_each_file(
    before: DataBaseMod,
    after: DataBaseMod,
    tables_load: Result<String, String>,
    rows_load: Result<String, String>,
)
    requires
        spec_reload(before, after, tables_load, rows_load),
    ensures
        ({
            let tables_text = loaded_text(tables_load, before.tables_file@);
            let rows_text = loaded_text(rows_load, before.rows_file@);
            &&& forall|m: Map<Seq<char>, Seq<char>>|
                json_string_map(tables_text) == Ok::<Map<Seq<char>, Seq<char>>, Seq<char>>(m)
                    ==> {
                    &&& #[trigger] pairs_match_map(after.some_rebuild.sql_tables@, m)
                    &&& forall|k: Seq<char>| m.dom().contains(k) <==> exists|i: int|
                        0 <= i < after.some_rebuild.gear@.len() && #[trigger] after.some_rebuild.gear@[i]@ == k
                }
            &&& forall|m: Map<Seq<char>, Seq<Seq<char>>>|
                json_string_list_map(rows_text) == Ok::<Map<Seq<char>, Seq<Seq<char>>>, Seq<char>>(m)
                    ==> #[trigger] list_pairs_match_map(after.some_rebuild.sql_rows@, m)
            &&& json_string_map(tables_text) is Err ==> after.some_rebuild.sql_tables
                == before.some_rebuild.sql_tables
            &&& json_string_list_map(rows_text) is Err ==> after.some_rebuild.sql_rows
                == before.some_rebuild.sql_rows
        }),
{
    let tables_text = loaded_text(tables_load, before.tables_file@);
    let gear = after.some_rebuild.gear@;
    let tables = after.some_rebuild.sql_tables@;
    assert forall|m: Map<Seq<char>, Seq<char>>|
        json_string_map(tables_text) == Ok::<Map<Seq<char>, Seq<char>>, Seq<char>>(m) implies {
        &&& #[trigger] pairs_match_map(tables, m)
        &&& forall|k: Seq<char>| m.dom().contains(k) <==> exists|i: int|
            0 <= i < gear.len() && #[trigger] gear[i]@ == k
    } by {
        assert(strings_view(gear) == pair_keys(tables));
        assert(gear.len() == tables.len()) by {
            assert(strings_view(gear).len() == gear.len());
            assert(pair_keys(tables).len() == tables.len());
        }
        assert forall|k: Seq<char>| m.dom().contains(k) <==> exists|i: int|
            0 <= i < gear.len() && #[trigger] gear[i]@ == k by {
            if m.dom().contains(k) {
                assert(has_key(tables, k));
                let i = choose|i: int| 0 <= i < tables.len() && #[trigger] tables[i].0@ == k;
                assert(strings_view(gear)[i] == pair_keys(tables)[i]);
                assert(gear[i]@ == k);
            }
            if exists|i: int| 0 <= i < gear.len() && #[trigger] gear[i]@ == k {
                let i = choose|i: int| 0 <= i < gear.len() && #[trigger] gear[i]@ == k;
                assert(strings_view(gear)[i] == pair_keys(tables)[i]);
                assert(tables[i].0@ == k);
                assert(has_key(tables, k));
            }
        }
    }
}

} // verus!
