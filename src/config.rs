//! The saved configuration: one JSON object whose `spxPath` member names
//! the server binary.
use vstd::prelude::*;

verus! {

/// The member of the configuration object that holds the binary's path.
pub const PATH_KEY: &'static str = "spxPath";

/// The string held by member `key` of the JSON object that `text` is, if
/// `text` is such an object and that member is a string.
pub uninterp spec fn json_str_member(text: Seq<char>, key: Seq<char>) -> Option<Seq<char>>;

/// The pretty-printed text of the JSON object whose one member `key` holds
/// the string `value`.
pub uninterp spec fn pretty_json_object(key: Seq<char>, value: Seq<char>) -> Seq<char>;

pub open spec fn opt_view(o: Option<String>) -> Option<Seq<char>> {
    match o {
        Some(s) => Some(s@),
        None => None,
    }
}

/// Relies on serde_json::from_str into a serde_json::Value, then
/// Value::get and Value::as_str: the string that member `key` holds.
#[verifier::external_body]
fn read_str_member(text: &str, key: &str) -> (r: Option<String>)
    ensures
        opt_view(r) == json_str_member(text@, key@),
{
    let value: serde_json::Value = serde_json::from_str(text).ok()?;
    value.get(key).and_then(serde_json::Value::as_str).map(String::from)
}

/// Relies on serde_json::to_string_pretty of a map with one string key,
/// which writes a JSON object and cannot fail on string keys; parsed
/// again, its member `key` holds `value`.
#[verifier::external_body]
fn write_str_object(key: &str, value: &str) -> (r: Option<String>)
    ensures
        r is Some,
        r matches Some(t) ==> t@ == pretty_json_object(key@, value@),
        r matches Some(t) ==> json_str_member(t@, key@) == Some(value@),
{
    let mut object = std::collections::BTreeMap::new();
    object.insert(key, value);
    serde_json::to_string_pretty(&object).ok()
}

/// The binary's path that a saved configuration names, if its text is a
/// JSON object with a string `spxPath` member.
pub fn configured_path(text: &str) -> (r: Option<String>)
    ensures
        opt_view(r) == json_str_member(text@, PATH_KEY@),
{
    read_str_member(text, PATH_KEY)
}

/// The configuration text that names `path` as the binary's path.
pub fn config_text_for(path: &str) -> (r: Option<String>)
    ensures
        r is Some,
        r matches Some(t) ==> t@ == pretty_json_object(PATH_KEY@, path@),
        r matches Some(t) ==> json_str_member(t@, PATH_KEY@) == Some(path@),
{
    write_str_object(PATH_KEY, path)
}

} // verus!
