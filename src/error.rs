use vstd::prelude::*;

verus! {

/// Why a conversion or a write could not be done. Each variant names the
/// path concerned; parse and output failures carry the underlying cause.
#[allow(inconsistent_fields)]
#[derive(Debug)]
pub enum ConvertError {
    /// The input's extension announces neither JSON nor YAML.
    UnsupportedFormat { path: String },
    /// The input was expected to be JSON and is not valid JSON.
    InvalidJson { path: String, cause: serde_json::Error },
    /// The input was expected to be YAML and is not valid YAML.
    InvalidYaml { path: String, cause: serde_yaml::Error },
    /// The YAML writer failed. serde_yaml never fails on a JSON document, so
    /// a conversion does not give this; `yaml_output` maps the writer's error
    /// type to it.
    YamlOutput { path: String, cause: serde_yaml::Error },
    /// The parsed document could not be written out as JSON (for instance,
    /// a YAML mapping whose keys are sequences).
    JsonOutput { path: String, cause: serde_json::Error },
    /// The output path exists and may not be overwritten.
    NotWritable { path: String },
}

impl ConvertError {
    /// The path that the error is about.
    pub open spec fn path_of(&self) -> Seq<char> {
        match self {
            ConvertError::UnsupportedFormat { path } => path@,
            ConvertError::InvalidJson { path, .. } => path@,
            ConvertError::InvalidYaml { path, .. } => path@,
            ConvertError::YamlOutput { path, .. } => path@,
            ConvertError::JsonOutput { path, .. } => path@,
            ConvertError::NotWritable { path } => path@,
        }
    }

    /// The path that the error is about.
    pub fn path(&self) -> (r: &String)
        ensures
            r@ == self.path_of(),
    {
        match self {
            ConvertError::UnsupportedFormat { path } => path,
            ConvertError::InvalidJson { path, .. } => path,
            ConvertError::InvalidYaml { path, .. } => path,
            ConvertError::YamlOutput { path, .. } => path,
            ConvertError::JsonOutput { path, .. } => path,
            ConvertError::NotWritable { path } => path,
        }
    }
}

} // verus!
