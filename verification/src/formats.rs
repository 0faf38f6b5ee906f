//! YAML and JSON text of settings maps, through `serde_yaml` and
//! `serde_json`. A settings map is a list of key/value pairs kept in the
//! order of the file it came from.

use vstd::prelude::*;
use indexmap::IndexMap;

verus! {

/// Settings as ordered key/value pairs.
pub type SettingsMap = Vec<(String, String)>;

/// Settings files of a directory: each file name with its settings.
pub type SettingsDirectory = Vec<(String, SettingsMap)>;

/// The characters of each key and value.
pub open spec fn map_view(m: Seq<(String, String)>) -> Seq<(Seq<char>, Seq<char>)> {
    m.map_values(|p: (String, String)| (p.0@, p.1@))
}

/// The characters of each file name and its settings.
pub open spec fn directory_view(d: Seq<(String, SettingsMap)>) -> Seq<(Seq<char>, Seq<(Seq<char>, Seq<char>)>)> {
    d.map_values(|p: (String, SettingsMap)| (p.0@, map_view(p.1@)))
}

/// No key occurs twice.
pub open spec fn distinct_keys(m: Seq<(Seq<char>, Seq<char>)>) -> bool {
    forall|i: int, j: int| 0 <= i < j < m.len() ==> #[trigger] m[i].0 != #[trigger] m[j].0
}

/// The characters of a text result or of its error message.
pub open spec fn text_result_view(r: Result<String, String>) -> Result<Seq<char>, Seq<char>> {
    match r {
        Ok(s) => Ok(s@),
        Err(e) => Err(e@),
    }
}

/// What `serde_yaml::from_str` makes of a YAML text read as a map from
/// strings to strings: the pairs in document order (a repeated key keeps its
/// first position and its last value), or the parser's error message.
pub uninterp spec fn yaml_string_map(text: Seq<char>) -> Result<Seq<(Seq<char>, Seq<char>)>, Seq<char>>;

/// What `serde_json::to_string` writes for a map of strings to strings: a
/// JSON object with the keys in order, or the serializer's error message.
pub uninterp spec fn json_of_string_map(m: Seq<(Seq<char>, Seq<char>)>) -> Result<Seq<char>, Seq<char>>;

/// What `serde_json::to_string` writes for a map of file names to maps of
/// strings: nested JSON objects with the keys in order, or the serializer's
/// error message.
pub uninterp spec fn json_of_settings_directory(
    d: Seq<(Seq<char>, Seq<(Seq<char>, Seq<char>)>)>,
) -> Result<Seq<char>, Seq<char>>;

/// What `serde_yaml::to_string` writes for a map of strings to strings: a
/// YAML mapping with the keys in order, or the serializer's error message.
pub uninterp spec fn yaml_of_string_map(m: Seq<(Seq<char>, Seq<char>)>) -> Result<Seq<char>, Seq<char>>;

/// `serde_yaml::from_str` into an `IndexMap<String, String>`, its pairs
/// handed back in order. Claimed: the result is the one `yaml_string_map`
/// names for the text, and, as the keys of an `IndexMap` are, the keys of a
/// parsed map are distinct.
#[verifier::external_body]
pub(crate) fn parse_yaml_map(text: &str) -> (r: Result<SettingsMap, String>)
    ensures
        match r {
            Ok(m) => yaml_string_map(text@) == Ok::<Seq<(Seq<char>, Seq<char>)>, Seq<char>>(map_view(m@)),
            Err(e) => yaml_string_map(text@) == Err::<Seq<(Seq<char>, Seq<char>)>, Seq<char>>(e@),
        },
        r matches Ok(m) ==> distinct_keys(map_view(m@)),
{
    match serde_yaml::from_str::<IndexMap<String, String>>(text) {
        Ok(m) => Ok(m.into_iter().collect()),
        Err(e) => Err(e.to_string()),
    }
}

/// `serde_json::to_string` of the pairs as an `IndexMap<String, String>`.
/// serde_json documents that serialising fails only where a `Serialize` impl
/// decides to fail or a map has keys that are not strings, neither of which
/// holds here. Claimed: the call succeeds, with the result
/// `json_of_string_map` names.
#[verifier::external_body]
pub(crate) fn map_to_json(m: &SettingsMap) -> (r: Result<String, String>)
    ensures
        r is Ok,
        text_result_view(r) == json_of_string_map(map_view(m@)),
{
    let map: IndexMap<String, String> = m.iter().cloned().collect();
    serde_json::to_string(&map).map_err(|e| e.to_string())
}

/// `serde_json::to_string` of the files and their pairs as an
/// `IndexMap<String, IndexMap<String, String>>`. As for `map_to_json`, the
/// documented failures cannot happen here. Claimed: the call succeeds, with
/// the result `json_of_settings_directory` names.
#[verifier::external_body]
pub(crate) fn directory_to_json(d: &SettingsDirectory) -> (r: Result<String, String>)
    ensures
        r is Ok,
        text_result_view(r) == json_of_settings_directory(directory_view(d@)),
{
    let map: IndexMap<String, IndexMap<String, String>> =
        d.iter().map(|(k, v)| (k.clone(), v.iter().cloned().collect())).collect();
    serde_json::to_string(&map).map_err(|e| e.to_string())
}

/// `serde_yaml::to_string` of the pairs as an `IndexMap<String, String>`;
/// the claim is only that the result is the one `yaml_of_string_map` names.
#[verifier::external_body]
pub(crate) fn map_to_yaml(m: &SettingsMap) -> (r: Result<String, String>)
    ensures
        text_result_view(r) == yaml_of_string_map(map_view(m@)),
{
    let map: IndexMap<String, String> = m.iter().cloned().collect();
    serde_yaml::to_string(&map).map_err(|e| e.to_string())
}

} // verus!
