//! Validation of user-supplied paths.
//!
//! What the file system holds can change between calls, so the checks
//! themselves promise nothing about the disk; the contracts pin down how the
//! verdict is reported.

use vstd::prelude::*;

use crate::strutil::str_eq;

verus! {

/// Relies on std's `Path::is_file` (with `Path::new`): whether the path
/// names an existing regular file. The answer depends on the file system,
/// so nothing is promised of it.
#[verifier::external_body]
fn path_is_file(input: &str) -> bool {
    let path = std::path::Path::new(input);
    path.exists() && path.is_file()
}

/// Relies on std's `Path::is_dir` (with `Path::new`): whether the path
/// names an existing directory. The answer depends on the file system, so
/// nothing is promised of it.
#[verifier::external_body]
fn path_is_dir(input: &str) -> bool {
    let path = std::path::Path::new(input);
    path.exists() && path.is_dir()
}

/// Accept an input designator: `-` (standard input) or the path of an
/// existing file, returned unchanged.
pub fn verify_input_file(input: &str) -> (r: Result<String, &'static str>)
    ensures
        input@ == "-"@ ==> r is Ok,
        r matches Ok(s) ==> s@ == input@,
        r matches Err(e) ==> e@ == "File does not exist."@ && input@ != "-"@,
{
    if str_eq(input, "-") || path_is_file(input) {
        Ok(input.to_owned())
    } else {
        Err("File does not exist.")
    }
}

/// Accept the path of an existing directory, returned unchanged.
pub fn verify_path(path: &str) -> (r: Result<String, &'static str>)
    ensures
        r matches Ok(s) ==> s@ == path@,
        r matches Err(e) ==> e@ == "Path does not exist or is not a directory."@,
{
    if path_is_dir(path) {
        Ok(path.to_owned())
    } else {
        Err("Path does not exist or is not a directory.")
    }
}

} // verus!
