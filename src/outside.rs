//! The serde_json and serde_yaml items that the converter relies on.
use vstd::prelude::*;

verus! {

#[verifier::external_type_specification]
#[verifier::external_body]
pub struct ExJsonValue(serde_json::Value);

#[verifier::external_type_specification]
#[verifier::external_body]
pub struct ExJsonError(serde_json::Error);

#[verifier::external_type_specification]
#[verifier::external_body]
pub struct ExYamlValue(serde_yaml::Value);

#[verifier::external_type_specification]
#[verifier::external_body]
pub struct ExYamlError(serde_yaml::Error);

/// Does serde_json accept `text` as one JSON document (surrounding whitespace
/// allowed)?
pub uninterp spec fn json_accepts(text: Seq<char>) -> bool;

/// Does serde_yaml accept `text` as one YAML document?
pub uninterp spec fn yaml_accepts(text: Seq<char>) -> bool;

/// The document that serde_json reads from `text`, where it accepts it.
pub uninterp spec fn json_value_of(text: Seq<char>) -> serde_json::Value;

/// The document that serde_yaml reads from `text`, where it accepts it.
pub uninterp spec fn yaml_value_of(text: Seq<char>) -> serde_yaml::Value;

/// The YAML text that serde_yaml writes for a JSON document.
pub uninterp spec fn yaml_text_of(value: serde_json::Value) -> Seq<char>;

/// The pretty JSON text that serde_json writes for a YAML document, or
/// `None` where the document has no JSON form (a mapping key that is not a
/// string, number or boolean).
pub uninterp spec fn json_pretty_of(value: serde_yaml::Value) -> Option<Seq<char>>;

/// Relies on serde_json::from_str into serde_json::Value: whether it succeeds,
/// and the document read, depend on the text alone.
#[verifier::external_body]
pub(crate) fn parse_json(text: &str) -> (r: Result<serde_json::Value, serde_json::Error>)
    ensures
        r is Ok == json_accepts(text@),
        r matches Ok(v) ==> v == json_value_of(text@),
{
    serde_json::from_str::<serde_json::Value>(text)
}

/// Relies on serde_yaml::from_str into serde_yaml::Value: whether it succeeds,
/// and the document read, depend on the text alone.
#[verifier::external_body]
pub(crate) fn parse_yaml(text: &str) -> (r: Result<serde_yaml::Value, serde_yaml::Error>)
    ensures
        r is Ok == yaml_accepts(text@),
        r matches Ok(v) ==> v == yaml_value_of(text@),
{
    serde_yaml::from_str::<serde_yaml::Value>(text)
}

/// Relies on serde_yaml::to_string: writes a JSON value as block-style YAML.
/// Its serializer fails only on byte strings and nested enum variants, which
/// a serde_json::Value never holds, so the call succeeds.
#[verifier::external_body]
pub(crate) fn emit_yaml(value: &serde_json::Value) -> (r: Result<String, serde_yaml::Error>)
    ensures
        r is Ok,
        r matches Ok(s) ==> s@ == yaml_text_of(*value),
{
    serde_yaml::to_string(value)
}

/// Relies on serde_json::to_string_pretty: writes a YAML value as indented
/// JSON; whether it fails (on a mapping key that JSON cannot hold), and the
/// text, depend on the value alone.
#[verifier::external_body]
pub(crate) fn emit_json_pretty(value: &serde_yaml::Value) -> (r: Result<String, serde_json::Error>)
    ensures
        r is Ok == json_pretty_of(*value) is Some,
        r matches Ok(s) ==> json_pretty_of(*value) == Some(s@),
{
    serde_json::to_string_pretty(value)
}

} // verus!
