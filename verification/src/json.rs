use vstd::prelude::*;

verus! {

/// `serde_json::Error`, the error of a failed JSON parse.
#[verifier::external_type_specification]
#[verifier::external_body]
pub struct ExJsonError(serde_json::Error);

/// `serde_json::Value`, a parsed JSON document.
#[verifier::external_type_specification]
#[verifier::external_body]
pub struct ExJsonValue(serde_json::Value);

/// What parsing `text` as a JSON object whose values are all strings gives:
/// the object as a map from key to value, or the parser's error text when
/// `text` is not such an object.
pub uninterp spec fn json_string_map(text: Seq<char>) -> Result<
    Map<Seq<char>, Seq<char>>,
    Seq<char>,
>;

/// What parsing `text` as a JSON object whose values are all arrays of
/// strings gives: the object as a map from key to list, or the parser's
/// error text when `text` is not such an object.
pub uninterp spec fn json_string_list_map(text: Seq<char>) -> Result<
    Map<Seq<char>, Seq<Seq<char>>>,
    Seq<char>,
>;

/// Whether serde_json accepts `text` as a JSON document (this includes
/// its nesting limit of 128 levels).
pub uninterp spec fn json_text_is_valid(text: Seq<char>) -> bool;

/// The text serde_json prints, indented, for the JSON document `text`.
pub uninterp spec fn json_pretty_text(text: Seq<char>) -> Seq<char>;

/// The error text of serde_json's parser for a `text` it does not accept
/// as a JSON document.
pub uninterp spec fn json_value_error_text(text: Seq<char>) -> Seq<char>;

/// The keys of a list of key/value pairs, in order.
pub open spec fn pair_keys<V>(pairs: Seq<(String, V)>) -> Seq<Seq<char>> {
    pairs.map_values(|p: (String, V)| p.0@)
}

/// No key occurs twice in a list of key/value pairs.
pub open spec fn distinct_keys<V>(pairs: Seq<(String, V)>) -> bool {
    forall|i: int, j: int|
        0 <= i < pairs.len() && 0 <= j < pairs.len() && i != j ==> #[trigger] pairs[i].0@
            != #[trigger] pairs[j].0@
}

/// `key` is the key of some pair.
pub open spec fn has_key<V>(pairs: Seq<(String, V)>, key: Seq<char>) -> bool {
    exists|i: int| 0 <= i < pairs.len() && #[trigger] pairs[i].0@ == key
}

/// The view of a list of strings.
pub open spec fn strings_view(strings: Seq<String>) -> Seq<Seq<char>> {
    strings.map_values(|s: String| s@)
}

/// A list of (key, text) pairs holds exactly the entries of `m`, each key once.
pub open spec fn pairs_match_map(pairs: Seq<(String, String)>, m: Map<Seq<char>, Seq<char>>) -> bool {
    &&& distinct_keys(pairs)
    &&& forall|k: Seq<char>| #[trigger] m.dom().contains(k) <==> has_key(pairs, k)
    &&& forall|i: int| 0 <= i < pairs.len() ==> m[#[trigger] pairs[i].0@] == pairs[i].1@
}

/// A list of (key, list of texts) pairs holds exactly the entries of `m`, each key once.
pub open spec fn list_pairs_match_map(
    pairs: Seq<(String, Vec<String>)>,
    m: Map<Seq<char>, Seq<Seq<char>>>,
) -> bool {
    &&& distinct_keys(pairs)
    &&& forall|k: Seq<char>| #[trigger] m.dom().contains(k) <==> has_key(pairs, k)
    &&& forall|i: int|
        0 <= i < pairs.len() ==> m[#[trigger] pairs[i].0@] == strings_view(pairs[i].1@)
}

/// Calls `serde_json::from_str` for a `HashMap<String, String>` and hands the
/// entries out as pairs, and a failure as its error text. Claims: the result
/// is what `json_string_map` names: on success the pairs are that map's
/// entries, each key once (a `HashMap` holds each key once); on failure the
/// text is the error's. The order of the pairs, which follows the map's
/// hasher, is left unsaid.
#[verifier::external_body]
fn parse_string_map(text: &str) -> (res: Result<Vec<(String, String)>, String>)
    ensures
        match json_string_map(text@) {
            Ok(m) => res matches Ok(pairs) && pairs_match_map(pairs@, m),
            Err(e) => res matches Err(t) && t@ == e,
        },
{
    match serde_json::from_str::<std::collections::HashMap<String, String>>(text) {
        Ok(map) => Ok(map.into_iter().collect()),
        Err(error) => Err(error.to_string()),
    }
}

/// Calls `serde_json::from_str` for a `HashMap<String, Vec<String>>` and hands
/// the entries out as pairs, and a failure as its error text. Claims: the
/// result is what `json_string_list_map` names, each key once. The order of
/// the pairs is left unsaid.
#[verifier::external_body]
fn parse_string_list_map(text: &str) -> (res: Result<Vec<(String, Vec<String>)>, String>)
    ensures
        match json_string_list_map(text@) {
            Ok(m) => res matches Ok(pairs) && list_pairs_match_map(pairs@, m),
            Err(e) => res matches Err(t) && t@ == e,
        },
{
    match serde_json::from_str::<std::collections::HashMap<String, Vec<String>>>(text) {
        Ok(map) => Ok(map.into_iter().collect()),
        Err(error) => Err(error.to_string()),
    }
}

/// Calls `serde_json::from_str` for a `serde_json::Value`. Claims: it
/// succeeds exactly when the text is a JSON document. The parsed value, and
/// the text of the error, are left unsaid.
#[verifier::external_body]
pub fn string_to_json(some_string: String) -> (res: Result<serde_json::Value, serde_json::Error>)
    ensures
        res is Ok <==> json_text_is_valid(some_string@),
{
    serde_json::from_str(&some_string)
}

/// Calls `serde_json::from_str` for a `serde_json::Value` and
/// `serde_json::to_string_pretty` on the value it parsed, handing a failure
/// out as its error text. Claims: it succeeds exactly when the text is
/// accepted as a JSON document, with the text `json_pretty_text` names;
/// otherwise the error text is the parser's, as `json_value_error_text`
/// names it. Printing a `Value` cannot fail: `Value`'s `Serialize` impl
/// never fails, its object keys are strings, and writing into the in-memory
/// buffer cannot fail.
#[verifier::external_body]
fn pretty_json_text(text: &str) -> (res: Result<String, String>)
    ensures
        res is Ok <==> json_text_is_valid(text@),
        res matches Ok(p) ==> p@ == json_pretty_text(text@),
        res matches Err(e) ==> e@ == json_value_error_text(text@),
{
    match serde_json::from_str::<serde_json::Value>(text) {
        Ok(value) => match serde_json::to_string_pretty(&value) {
            Ok(pretty) => Ok(pretty),
            Err(error) => Err(error.to_string()),
        },
        Err(error) => Err(error.to_string()),
    }
}

/// Parses a JSON object of strings (a table name mapped to the SQL that
/// creates it) into key/value pairs, each key once. On failure the error is
/// the parser's error text.
pub fn serde_string_to_map(some_value: String) -> (res: Result<Vec<(String, String)>, String>)
    ensures
        match json_string_map(some_value@) {
            Ok(m) => res matches Ok(pairs) && pairs_match_map(pairs@, m),
            Err(e) => res matches Err(t) && t@ == e,
        },
{
    parse_string_map(some_value.as_str())
}

/// Parses a JSON object of string arrays (a table name mapped to the SQL
/// statements that fill it) into key/list pairs, each key once. On failure
/// the error is the parser's error text.
pub fn serde_string_to_map_with_array(some_value: String) -> (res: Result<
    Vec<(String, Vec<String>)>,
    String,
>)
    ensures
        match json_string_list_map(some_value@) {
            Ok(m) => res matches Ok(pairs) && list_pairs_match_map(pairs@, m),
            Err(e) => res matches Err(t) && t@ == e,
        },
{
    parse_string_list_map(some_value.as_str())
}

/// Re-indents a JSON text: the text serde_json prints for the document,
/// or, when `text` is not a JSON document, the parser's error text.
pub fn beautify_json(text: &String) -> (res: Result<String, String>)
    ensures
        res is Ok <==> json_text_is_valid(text@),
        res matches Ok(p) ==> p@ == json_pretty_text(text@),
        res matches Err(e) ==> e@ == json_value_error_text(text@),
{
    pretty_json_text(text.as_str())
}

} // verus!
