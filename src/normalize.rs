use std::path::PathBuf;
use vstd::prelude::*;
use vstd::string::*;

use crate::error::PathError;
use crate::validate::{
    check_path_chars, has_null, has_rejected_char, is_invalid_path_with, is_rejected_char,
    null_byte_message, path_chars_accepted, rejection_message,
};

verus! {

/// An owned filesystem path, carried through the library unopened.
#[verifier::external_type_specification]
#[verifier::external_body]
pub struct ExPathBuf(PathBuf);

/// Message of the error for a path that could not be resolved: the input as
/// given, then the reason that resolution gave.
pub open spec fn not_found_message(file_path: Seq<char>, reason: Seq<char>) -> Seq<char> {
    "Failed to resolve path '"@ + file_path + "': "@ + reason
}

/// Message of the error for a path that resolves to something other than a
/// regular file.
pub open spec fn not_a_file_message() -> Seq<char> {
    "Path is not a regular file"@
}

/// What follows from resolving `file_path`: `resolved` is the canonical path
/// or the reason resolution failed, and `regular_file` whether the canonical
/// path names a regular file (read only when resolution succeeded).
pub open spec fn resolution_result(
    file_path: Seq<char>,
    resolved: Result<PathBuf, String>,
    regular_file: bool,
    r: Result<PathBuf, PathError>,
) -> bool {
    match resolved {
        Err(reason) => r is Err && r->Err_0 is FileNotFound && r->Err_0.message()
            == not_found_message(file_path, reason@),
        Ok(canonical) => if regular_file {
            r == Ok::<PathBuf, PathError>(canonical)
        } else {
            r is Err && r->Err_0 is NotAFile && r->Err_0.message() == not_a_file_message()
        },
    }
}

/// What normalising `file_path` may return: the character checks decide
/// alone when they refuse the path; otherwise the outcome is that of some
/// resolution of it, which the filesystem decides.
pub open spec fn normalize_result(file_path: Seq<char>, r: Result<PathBuf, PathError>) -> bool {
    if path_chars_accepted(file_path) {
        exists|resolved: Result<PathBuf, String>, regular_file: bool|
            #[trigger] resolution_result(file_path, resolved, regular_file, r)
    } else {
        is_invalid_path_with(r, rejection_message(file_path))
    }
}

/// Relies on std::path::Path::canonicalize: resolves the path against the
/// working directory, with `.` and `..` and symbolic links resolved, or fails
/// with an I/O error, here rendered as its text. The outcome depends on the
/// filesystem, so nothing is promised of it.
#[verifier::external_body]
fn canonicalize(file_path: &str) -> (r: Result<PathBuf, String>) {
    std::path::Path::new(file_path).canonicalize().map_err(|e| e.to_string())
}

/// Relies on std::path::Path::is_file: whether the path exists on disk and
/// names a regular file. The outcome depends on the filesystem, so nothing is
/// promised of it.
#[verifier::external_body]
fn is_regular_file(path: &PathBuf) -> (r: bool) {
    path.is_file()
}

/// Decides the outcome for `file_path` once it has been resolved: a failed
/// resolution is `FileNotFound`, a canonical path that is not a regular file
/// is `NotAFile`, and otherwise the canonical path is returned.
pub fn classify_resolution(
    file_path: &str,
    resolved: Result<PathBuf, String>,
    regular_file: bool,
) -> (r: Result<PathBuf, PathError>)
    ensures
        resolution_result(file_path@, resolved, regular_file, r),
{
    match resolved {
        Err(reason) => {
            let mut msg = String::from_str("Failed to resolve path '");
            msg.append(file_path);
            msg.append("': ");
            msg.append(reason.as_str());
            Err(PathError::FileNotFound(msg))
        },
        Ok(canonical) => {
            if regular_file {
                Ok(canonical)
            } else {
                Err(PathError::NotAFile(String::from_str("Path is not a regular file")))
            }
        },
    }
}

/// Validates an untrusted path and resolves it to a canonical, absolute path
/// naming a regular file.
///
/// A null byte or a rejected character fails with `InvalidPath` before the
/// filesystem is consulted. Otherwise the path is canonicalised; failure
/// there is `FileNotFound`, a result that is not a regular file is
/// `NotAFile`. The check holds at the time of the call only: the entry may
/// change before the caller uses the path.
pub fn normalize_file_path(file_path: &str) -> (r: Result<PathBuf, PathError>)
    ensures
        normalize_result(file_path@, r),
{
    match check_path_chars(file_path) {
        Err(e) => return Err(e),
        Ok(()) => {},
    }
    let resolved = canonicalize(file_path);
    let regular_file = match &resolved {
        Ok(canonical) => is_regular_file(canonical),
        Err(_) => false,
    };
    classify_resolution(file_path, resolved, regular_file)
}

/// A path that holds a null byte is refused as `InvalidPath`, with the
/// null-byte message, whatever else it holds.
pub proof fn lemma_null_byte_is_invalid(file_path: Seq<char>, r: Result<PathBuf, PathError>)
    requires
        has_null(file_path),
        normalize_result(file_path, r),
    ensures
        is_invalid_path_with(r, null_byte_message()),
{
}

/// A path that holds a rejected character is refused as `InvalidPath`
/// whatever the filesystem holds: no resolution of it is consulted.
pub proof fn lemma_rejected_char_is_invalid(
    file_path: Seq<char>,
    r: Result<PathBuf, PathError>,
    resolved: Result<PathBuf, String>,
    regular_file: bool,
)
    requires
        has_rejected_char(file_path),
        normalize_result(file_path, r),
    ensures
        r is Err && r->Err_0 is InvalidPath,
        !resolution_result(file_path, resolved, regular_file, r),
{
}

/// Backslashes and parentheses never cause `InvalidPath`: a path whose other
/// characters are neither null nor rejected goes on to resolution, and its
/// outcome is that of a resolution.
pub proof fn lemma_backslash_and_parens_reach_resolution(
    file_path: Seq<char>,
    r: Result<PathBuf, PathError>,
)
    requires
        forall|i: int|
            0 <= i < file_path.len() ==> {
                let c = #[trigger] file_path[i];
                c == '\\' || c == '(' || c == ')' || (c != '\0' && !is_rejected_char(c))
            },
        normalize_result(file_path, r),
    ensures
        path_chars_accepted(file_path),
        !(r is Err && r->Err_0 is InvalidPath),
        exists|resolved: Result<PathBuf, String>, regular_file: bool|
            #[trigger] resolution_result(file_path, resolved, regular_file, r),
{
}

} // verus!
