//! Converts documents between JSON and YAML, choosing the direction from the
//! input file's extension, and decides whether an output path may be written.
mod convert;
mod error;
mod guard;
mod outside;
mod path;

pub use convert::{
    convert, convert_as, convert_result, json_output, json_to_yaml, json_to_yaml_result,
    lemma_malformed_json_named, lemma_other_extension_unsupported, yaml_output, yaml_to_json,
    yaml_to_json_result,
};
pub use error::ConvertError;
pub use outside::{
    json_accepts, json_pretty_of, json_value_of, yaml_accepts, yaml_text_of, yaml_value_of,
};
pub use path::{detect_format, extension, extension_of, file_name, file_name_of, format_of, Format};
pub use guard::{
    can_i_write_this_file, check_writable, lemma_absent_path_writable,
    lemma_directory_never_writable, lemma_existing_file_needs_force, output_for, writable, Existing,
    Output,
};
