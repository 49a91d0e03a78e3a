use vstd::prelude::*;

use crate::messages::ErrorMessage;

verus! {

/// The error text used when a path or file name is not valid UTF-8.
pub open spec fn not_utf8_text() -> Seq<char> {
    "Could not convert current_dir(type: PathBuf to &str"@
}

/// The error text used when the current directory cannot be obtained.
pub open spec fn no_current_dir_text() -> Seq<char> {
    "Could not obtain the current directory"@
}

/// The folder, relative to the working directory, that holds the JSON files.
pub open spec fn json_folder_text() -> Seq<char> {
    "/postgresql_json/"@
}

/// Stores a loaded file in `file_holder`, or, when loading failed, replaces
/// `error_message` with an error that carries the failure's text.
pub fn handle_load_result(
    some_result: Result<String, String>,
    file_holder: &mut String,
    error_message: &mut ErrorMessage,
)
    ensures
        match some_result {
            Ok(text) => {
                &&& final(file_holder)@ == text@
                &&& *final(error_message) == *old(error_message)
            },
            Err(error_text) => {
                &&& final(file_holder)@ == old(file_holder)@
                &&& final(error_message)@ == ErrorMessage::spec_pure(Some(error_text@))
            },
        },
{
    match some_result {
        Ok(some_string) => *file_holder = some_string,
        Err(error_string) => {
            *error_message = ErrorMessage::pure_error_message(Some(error_string))
        },
    }
}

/// Turns an optional UTF-8 view of a path into an owned string, or into the
/// error text `not_utf8_text()` when the path had no UTF-8 view.
pub fn option_str_to_string(option_str: Option<&str>) -> (res: Result<String, String>)
    ensures
        match option_str {
            Some(s) => res matches Ok(t) && t@ == s@,
            None => res matches Err(e) && e@ == not_utf8_text(),
        },
{
    match option_str {
        Some(a_str) => Ok(a_str.to_owned()),
        None => {
            let e = String::from_str("Could not convert current_dir(type: PathBuf to &str");
            proof {
                reveal_strlit("Could not convert current_dir(type: PathBuf to &str");
            }
            Err(e)
        },
    }
}

/// The current directory as a string. `current_dir` is what asking the
/// system for the current directory gave: `Err(())` when it could not be
/// obtained, else its UTF-8 view, if it has one.
pub fn current_dir_string(current_dir: Result<Option<&str>, ()>) -> (res: Result<String, String>)
    ensures
        match current_dir {
            Ok(Some(s)) => res matches Ok(t) && t@ == s@,
            Ok(None) => res matches Err(e) && e@ == not_utf8_text(),
            Err(_) => res matches Err(e) && e@ == no_current_dir_text(),
        },
{
    match current_dir {
        Ok(path) => option_str_to_string(path),
        Err(_) => {
            let e = String::from_str("Could not obtain the current directory");
            proof {
                reveal_strlit("Could not obtain the current directory");
            }
            Err(e)
        },
    }
}

/// The path of `folder` inside `directory`: the two joined as they are.
pub fn folder_path(directory: &str, folder: &str) -> (res: String)
    ensures
        res@ == directory@ + folder@,
{
    let mut path = directory.to_owned();
    path.append(folder);
    path
}

/// Whether a directory entry could be read and its name has a UTF-8 view.
pub open spec fn entry_ok(entry: Result<Option<String>, String>) -> bool {
    entry matches Ok(Some(_))
}

/// The name of a readable entry with a UTF-8 name.
pub open spec fn entry_name(entry: Result<Option<String>, String>) -> Seq<char> {
    match entry {
        Ok(Some(name)) => name@,
        _ => Seq::empty(),
    }
}

/// The error text that a bad entry gives.
pub open spec fn entry_error(entry: Result<Option<String>, String>) -> Seq<char> {
    match entry {
        Err(e) => e@,
        _ => not_utf8_text(),
    }
}

/// Index `i` is the first bad entry of `entries`.
pub open spec fn first_bad_entry(entries: Seq<Result<Option<String>, String>>, i: int) -> bool {
    &&& 0 <= i < entries.len()
    &&& !entry_ok(entries[i])
    &&& forall|k: int| 0 <= k < i ==> entry_ok(#[trigger] entries[k])
}

/// There is at most one first bad entry.
pub proof fn lemma_first_bad_entry_unique(
    entries: Seq<Result<Option<String>, String>>,
    i: int,
    j: int,
)
    requires
        first_bad_entry(entries, i),
        first_bad_entry(entries, j),
    ensures
        i == j,
{
    if i < j {
        assert(entry_ok(entries[i]));
    } else if j < i {
        assert(entry_ok(entries[j]));
    }
}

/// What listing a folder gives, from what reading the folder gave: the
/// folder's error, else the error of its first bad entry, else the names of
/// all its entries in the order they were read.
pub open spec fn spec_file_names(
    listing: Result<Seq<Result<Option<String>, String>>, Seq<char>>,
) -> Result<Seq<Seq<char>>, Seq<char>> {
    match listing {
        Err(e) => Err(e),
        Ok(entries) => if exists|i: int| first_bad_entry(entries, i) {
            Err(entry_error(entries[choose|i: int| first_bad_entry(entries, i)]))
        } else {
            Ok(entries.map_values(|e: Result<Option<String>, String>| entry_name(e)))
        },
    }
}

/// When every entry of a folder can be read and has a UTF-8 name, listing
/// it gives one name per entry, in the order read, each the entry's name;
/// when some entry is bad, the listing fails with the first bad entry's
/// error text.
pub proof fn law_listing_names_every_entry(entries: Seq<Result<Option<String>, String>>)
    ensures
        (forall|k: int| 0 <= k < entries.len() ==> #[trigger] entries[k] is Ok && entries[k]->Ok_0 is Some)
            ==> {
            let listed = spec_file_names(Ok(entries));
            &&& listed is Ok
            &&& listed->Ok_0.len() == entries.len()
            &&& forall|k: int|
                0 <= k < entries.len() ==> #[trigger] listed->Ok_0[k] == entries[k]->Ok_0->Some_0@
        },
        forall|i: int|
            0 <= i < entries.len() && !(entries[i] matches Ok(Some(_))) && (forall|k: int|
                0 <= k < i ==> #[trigger] entries[k] matches Ok(Some(_))) ==> spec_file_names(
                Ok(entries),
            ) == Err::<Seq<Seq<char>>, Seq<char>>(
                match #[trigger] entries[i] {
                    Err(e) => e@,
                    Ok(_) => not_utf8_text(),
                },
            ),
{
    if forall|k: int| 0 <= k < entries.len() ==> #[trigger] entries[k] is Ok && entries[k]->Ok_0 is Some {
        assert forall|j: int| !first_bad_entry(entries, j) by {
            if 0 <= j < entries.len() {
                assert(entries[j] is Ok && entries[j]->Ok_0 is Some);
            }
        }
    }
    assert forall|i: int|
        0 <= i < entries.len() && !(entries[i] matches Ok(Some(_))) && (forall|k: int|
            0 <= k < i ==> #[trigger] entries[k] matches Ok(Some(_))) implies spec_file_names(
        Ok(entries),
    ) == Err::<Seq<Seq<char>>, Seq<char>>(
        match #[trigger] entries[i] {
            Err(e) => e@,
            Ok(_) => not_utf8_text(),
        },
    ) by {
        assert(first_bad_entry(entries, i));
        let j = choose|j: int| first_bad_entry(entries, j);
        lemma_first_bad_entry_unique(entries, i, j);
    }
}

/// The view of a folder listing: the folder's error text, or its entries.
pub open spec fn listing_view(
    listing: Result<Vec<Result<Option<String>, String>>, String>,
) -> Result<Seq<Result<Option<String>, String>>, Seq<char>> {
    match listing {
        Ok(entries) => Ok(entries@),
        Err(e) => Err(e@),
    }
}

/// The view of a list of names, or of the error that replaced it.
pub open spec fn names_view(res: Result<Vec<String>, String>) -> Result<Seq<Seq<char>>, Seq<char>> {
    match res {
        Ok(names) => Ok(names@.map_values(|s: String| s@)),
        Err(e) => Err(e@),
    }
}

/// The names of the entries of a folder, from what reading the folder gave:
/// either the folder's error text, or, for each entry in the order read,
/// the entry's error text or its name (`None` where the name is not UTF-8).
/// The first error wins.
pub fn file_names(listing: Result<Vec<Result<Option<String>, String>>, String>) -> (res: Result<
    Vec<String>,
    String,
>)
    ensures
        names_view(res) == spec_file_names(listing_view(listing)),
        listing matches Ok(entries) ==> (forall|k: int|
            0 <= k < entries@.len() ==> #[trigger] entries@[k] is Ok && entries@[k]->Ok_0 is Some)
            ==> {
            &&& res is Ok
            &&& res->Ok_0@.len() == entries@.len()
            &&& forall|k: int|
                0 <= k < entries@.len() ==> #[trigger] res->Ok_0@[k]@ == entries@[k]->Ok_0->Some_0@
        },
{
    let ghost seen = listing_view(listing);
    proof {
        if let Ok(entries) = &listing {
            law_listing_names_every_entry(entries@);
        }
    }
    match listing {
        Err(error) => Err(error),
        Ok(entries) => {
            let mut filenames: Vec<String> = Vec::new();
            let n = entries.len();
            let mut i: usize = 0;
            while i < n
                invariant
                    n == entries@.len(),
                    seen == Ok::<Seq<Result<Option<String>, String>>, Seq<char>>(entries@),
                    seen == listing_view(listing),
                    i <= n,
                    filenames@.len() == i,
                    forall|k: int| 0 <= k < i ==> entry_ok(#[trigger] entries@[k]),
                    forall|k: int|
                        0 <= k < i ==> #[trigger] filenames@[k]@ == entry_name(entries@[k]),
                decreases n - i,
            {
                match &entries[i] {
                    Ok(maybe_name) => {
                        let name_str: Option<&str> = match maybe_name {
                            Some(name) => Some(name.as_str()),
                            None => None,
                        };
                        match option_str_to_string(name_str) {
                            Ok(some_string) => filenames.push(some_string),
                            Err(error_string) => {
                                proof {
                                    assert(first_bad_entry(entries@, i as int));
                                    let j = choose|j: int| first_bad_entry(entries@, j);
                                    lemma_first_bad_entry_unique(entries@, i as int, j);
                                }
                                return Err(error_string);
                            },
                        }
                    },
                    Err(error) => {
                        proof {
                            assert(first_bad_entry(entries@, i as int));
                            let j = choose|j: int| first_bad_entry(entries@, j);
                            lemma_first_bad_entry_unique(entries@, i as int, j);
                        }
                        return Err(error.clone());
                    },
                }
                i = i + 1;
            }
            assert(!exists|j: int| first_bad_entry(entries@, j));
            assert(filenames@.map_values(|s: String| s@) =~= entries@.map_values(
                |e: Result<Option<String>, String>| entry_name(e),
            ));
            Ok(filenames)
        },
    }
}

/// The JSON files of the working directory's JSON folder, or the error to
/// show. `current_dir` is what asking for the working directory gave, and
/// `list_folder` lists a folder of a directory (directory first, then
/// folder) or tells why it could not.
pub fn postgresql_json_filenames<F: FnOnce(String, String) -> Result<Vec<String>, String>>(
    current_dir: Result<String, String>,
    list_folder: F,
) -> (res: Result<Vec<String>, ErrorMessage>)
    requires
        current_dir matches Ok(d) ==> forall|folder: String|
            folder@ == json_folder_text() ==> call_requires(list_folder, (d, folder)),
    ensures
        match current_dir {
            Err(e) => res matches Err(m) && m@ == ErrorMessage::spec_pure(Some(e@)),
            Ok(d) => exists|folder: String, listing: Result<Vec<String>, String>|
                {
                    &&& folder@ == json_folder_text()
                    &&& call_ensures(list_folder, (d, folder), listing)
                    &&& match listing {
                        Ok(names) => res matches Ok(r) && r@ == names@,
                        Err(e) => res matches Err(m) && m@ == ErrorMessage::spec_pure(Some(e@)),
                    }
                },
        },
{
    match current_dir {
        Ok(current_dir) => {
            let folder = String::from_str("/postgresql_json/");
            match list_folder(current_dir, folder) {
                Ok(filenames) => Ok(filenames),
                Err(error_string) => Err(ErrorMessage::pure_error_message(Some(error_string))),
            }
        },
        Err(error_string) => Err(ErrorMessage::pure_error_message(Some(error_string))),
    }
}

} // verus!
