use vstd::prelude::*;
use crate::error::ConvertError;
use vstd::string::{StrSliceExecFns, StringExecFns};

verus! {

/// What the file system says of an output path that exists.
#[derive(Clone, Copy, Debug, PartialEq, Eq, Structural)]
pub struct Existing {
    /// The path is a regular file (not a directory or other special file).
    pub is_file: bool,
    /// The file is marked read-only.
    pub readonly: bool,
}

/// May a path be written? `target` is `None` where the path does not exist,
/// which is always writable; an existing path only when `force` is set and it
/// is a regular file that is not read-only.
pub open spec fn writable(target: Option<Existing>, force: bool) -> bool {
    match target {
        None => true,
        Some(e) => force && e.is_file && !e.readonly,
    }
}

/// Decides whether a path, described by `target`, may be written.
pub fn can_i_write_this_file(target: Option<Existing>, force: bool) -> (r: bool)
    ensures
        r == writable(target, force),
{
    match target {
        Some(e) => force && e.is_file && !e.readonly,
        None => true,
    }
}

/// Checks the overwrite guard before writing to `path`: `Ok` exactly when the
/// path may be written, else `NotWritable` naming it.
pub fn check_writable(path: &str, target: Option<Existing>, force: bool) -> (r: Result<
    (),
    ConvertError,
>)
    ensures
        r is Ok <==> writable(target, force),
        r is Err ==> (r matches Err(ConvertError::NotWritable { path: p }) && p@ == path@),
{
    if can_i_write_this_file(target, force) {
        Ok(())
    } else {
        Err(ConvertError::NotWritable { path: String::from_str(path) })
    }
}

/// Where converted text goes.
#[derive(Debug, PartialEq, Eq)]
pub enum Output {
    /// Standard output.
    Stdout,
    /// The file at this path.
    File(String),
}

/// The output that an `--outfile` argument names: `-` stands for standard
/// output, anything else for a file of that path.
pub fn output_for(outfile: &str) -> (r: Output)
    ensures
        outfile@ == seq!['-'] ==> r == Output::Stdout,
        outfile@ != seq!['-'] ==> (r matches Output::File(p) && p@ == outfile@),
{
    if outfile.unicode_len() == 1 && outfile.get_char(0) == '-' {
        assert(outfile@ =~= seq!['-']);
        Output::Stdout
    } else {
        Output::File(String::from_str(outfile))
    }
}

/// A path that does not exist may be written, with or without `force`.
pub proof fn lemma_absent_path_writable(force: bool)
    ensures
        writable(None, force),
{
}

/// An existing regular file that is not read-only is written over only with
/// `force`.
pub proof fn lemma_existing_file_needs_force(target: Existing)
    requires
        target.is_file,
        !target.readonly,
    ensures
        !writable(Some(target), false),
        writable(Some(target), true),
{
}

/// A path that exists but is not a regular file, such as a directory, is
/// never written, even with `force`.
pub proof fn lemma_directory_never_writable(target: Existing, force: bool)
    requires
        !target.is_file,
    ensures
        !writable(Some(target), force),
{
}

} // verus!
