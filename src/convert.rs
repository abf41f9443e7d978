use vstd::prelude::*;
use crate::error::ConvertError;
use crate::outside::{
    emit_json_pretty, emit_yaml, json_accepts, json_pretty_of, json_value_of, parse_json,
    parse_yaml, yaml_accepts, yaml_text_of, yaml_value_of,
};
use crate::path::{detect_format, extension_of, format_of, Format};
use vstd::string::StringExecFns;

verus! {

/// What a JSON-to-YAML conversion of `text`, read from `path`, returns:
/// text that serde_json rejects gives `InvalidJson`; any other text gives the
/// YAML that serde_yaml writes for the document read.
pub open spec fn json_to_yaml_result(
    path: Seq<char>,
    text: Seq<char>,
    r: Result<String, ConvertError>,
) -> bool {
    if !json_accepts(text) {
        r matches Err(ConvertError::InvalidJson { path: p, .. }) && p@ == path
    } else {
        r matches Ok(y) && y@ == yaml_text_of(json_value_of(text))
    }
}

/// What a YAML-to-JSON conversion of `text`, read from `path`, returns: text
/// that serde_yaml rejects gives `InvalidYaml`; otherwise the pretty JSON
/// that serde_json writes for the document read, or `JsonOutput` where that
/// document has no JSON form.
pub open spec fn yaml_to_json_result(
    path: Seq<char>,
    text: Seq<char>,
    r: Result<String, ConvertError>,
) -> bool {
    if !yaml_accepts(text) {
        r matches Err(ConvertError::InvalidYaml { path: p, .. }) && p@ == path
    } else {
        match json_pretty_of(yaml_value_of(text)) {
            Some(j) => r matches Ok(t) && t@ == j,
            None => r matches Err(ConvertError::JsonOutput { path: p, .. }) && p@ == path,
        }
    }
}

/// What converting `text`, read from `path`, may return: the direction is
/// the one that the path's extension announces.
pub open spec fn convert_result(
    path: Seq<char>,
    text: Seq<char>,
    r: Result<String, ConvertError>,
) -> bool {
    match format_of(path) {
        Some(Format::Json) => json_to_yaml_result(path, text, r),
        Some(Format::Yaml) => yaml_to_json_result(path, text, r),
        None => r matches Err(ConvertError::UnsupportedFormat { path: p }) && p@ == path,
    }
}

/// Hands on the YAML writer's outcome: its text, or `YamlOutput` for `path`.
pub fn yaml_output(path: &str, emitted: Result<String, serde_yaml::Error>) -> (r: Result<
    String,
    ConvertError,
>)
    ensures
        emitted matches Ok(s) ==> (r matches Ok(t) && t@ == s@),
        emitted is Err ==> (r matches Err(ConvertError::YamlOutput { path: p, .. }) && p@ == path@),
{
    match emitted {
        Ok(s) => Ok(s),
        Err(e) => Err(ConvertError::YamlOutput { path: String::from_str(path), cause: e }),
    }
}

/// Hands on the JSON writer's outcome: its text, or `JsonOutput` for `path`.
pub fn json_output(path: &str, emitted: Result<String, serde_json::Error>) -> (r: Result<
    String,
    ConvertError,
>)
    ensures
        emitted matches Ok(s) ==> (r matches Ok(t) && t@ == s@),
        emitted is Err ==> (r matches Err(ConvertError::JsonOutput { path: p, .. }) && p@ == path@),
{
    match emitted {
        Ok(s) => Ok(s),
        Err(e) => Err(ConvertError::JsonOutput { path: String::from_str(path), cause: e }),
    }
}

/// Parses `text` (the contents of `path`) as JSON and writes the document
/// out as YAML.
pub fn json_to_yaml(path: &str, text: &str) -> (r: Result<String, ConvertError>)
    ensures
        json_to_yaml_result(path@, text@, r),
{
    match parse_json(text) {
        Ok(value) => yaml_output(path, emit_yaml(&value)),
        Err(e) => Err(ConvertError::InvalidJson { path: String::from_str(path), cause: e }),
    }
}

/// Parses `text` (the contents of `path`) as YAML and writes the document
/// out as pretty-printed JSON.
pub fn yaml_to_json(path: &str, text: &str) -> (r: Result<String, ConvertError>)
    ensures
        yaml_to_json_result(path@, text@, r),
{
    match parse_yaml(text) {
        Ok(value) => json_output(path, emit_json_pretty(&value)),
        Err(e) => Err(ConvertError::InvalidYaml { path: String::from_str(path), cause: e }),
    }
}

/// Converts `text` from `format` into the other format; `path` names the
/// input in errors.
pub fn convert_as(format: Format, path: &str, text: &str) -> (r: Result<String, ConvertError>)
    ensures
        format == Format::Json ==> json_to_yaml_result(path@, text@, r),
        format == Format::Yaml ==> yaml_to_json_result(path@, text@, r),
{
    match format {
        Format::Json => json_to_yaml(path, text),
        Format::Yaml => yaml_to_json(path, text),
    }
}

/// Converts `text`, the contents of `path`, in the direction that the
/// path's extension announces: `.json` to YAML, `.yml` or `.yaml` to JSON.
/// Any other extension, or none, gives `UnsupportedFormat`.
pub fn convert(path: &str, text: &str) -> (r: Result<String, ConvertError>)
    ensures
        convert_result(path@, text@, r),
{
    match detect_format(path) {
        Some(format) => convert_as(format, path, text),
        None => Err(ConvertError::UnsupportedFormat { path: String::from_str(path) }),
    }
}

/// Converting a file whose extension is neither `json`, `yml` nor `yaml`
/// (such as `notes.txt`) fails as an unsupported format naming the file,
/// whatever the file holds.
pub proof fn lemma_other_extension_unsupported(
    path: Seq<char>,
    text: Seq<char>,
    r: Result<String, ConvertError>,
)
    requires
        extension_of(path) matches Some(e) && e != seq!['j', 's', 'o', 'n'] && e != seq![
            'y',
            'm',
            'l',
        ] && e != seq!['y', 'a', 'm', 'l'],
        convert_result(path, text, r),
    ensures
        r matches Err(ConvertError::UnsupportedFormat { path: p }) && p@ == path,
{
}

/// Converting a `.json` file whose text is not valid JSON (a trailing comma,
/// say) fails as invalid JSON, naming the file and carrying the parser's error.
pub proof fn lemma_malformed_json_named(
    path: Seq<char>,
    text: Seq<char>,
    r: Result<String, ConvertError>,
)
    requires
        format_of(path) == Some(Format::Json),
        !json_accepts(text),
        convert_result(path, text, r),
    ensures
        r matches Err(ConvertError::InvalidJson { path: p, .. }) && p@ == path,
{
}

} // verus!
