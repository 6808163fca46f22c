use vstd::prelude::*;
use vstd::std_specs::iter::IteratorSpec;
use vstd::string::*;

use crate::error::PathError;

verus! {

/// Whether `c` belongs to the fixed set of characters that a file path may
/// not contain: shell metacharacters and line breaks. Backslash and
/// parentheses are not among them.
pub open spec fn is_rejected_char(c: char) -> bool {
    c == '|' || c == '&' || c == ';' || c == '`' || c == '$' || c == '<' || c == '>'
        || c == '\n' || c == '\r'
}

/// Whether the path holds a null character.
pub open spec fn has_null(s: Seq<char>) -> bool {
    exists|i: int| 0 <= i < s.len() && s[i] == '\0'
}

/// Whether the path holds a character of the rejected set.
pub open spec fn has_rejected_char(s: Seq<char>) -> bool {
    exists|i: int| 0 <= i < s.len() && is_rejected_char(#[trigger] s[i])
}

/// Whether the path passes the character checks and goes on to resolution.
pub open spec fn path_chars_accepted(s: Seq<char>) -> bool {
    !has_null(s) && !has_rejected_char(s)
}

/// Message of the error for a path that holds a null byte.
pub open spec fn null_byte_message() -> Seq<char> {
    "Null bytes not allowed in file path"@
}

/// Message of the error for a path that holds a rejected character.
pub open spec fn rejected_char_message() -> Seq<char> {
    "File path contains dangerous characters"@
}

/// Message of the error for a path refused by the character checks: a null
/// byte is reported before a rejected character.
pub open spec fn rejection_message(s: Seq<char>) -> Seq<char> {
    if has_null(s) {
        null_byte_message()
    } else {
        rejected_char_message()
    }
}

/// Whether `r` is an `InvalidPath` error carrying `msg`.
pub open spec fn is_invalid_path_with<T>(r: Result<T, PathError>, msg: Seq<char>) -> bool {
    r is Err && r->Err_0 is InvalidPath && r->Err_0.message() == msg
}

/// Executable form of [`is_rejected_char`].
pub fn rejected_char(c: char) -> (r: bool)
    ensures
        r == is_rejected_char(c),
{
    c == '|' || c == '&' || c == ';' || c == '`' || c == '$' || c == '<' || c == '>'
        || c == '\n' || c == '\r'
}

/// Checks a path for a null byte and for rejected characters, in that order.
pub fn check_path_chars(file_path: &str) -> (r: Result<(), PathError>)
    ensures
        path_chars_accepted(file_path@) ==> r is Ok,
        !path_chars_accepted(file_path@) ==> is_invalid_path_with(r, rejection_message(file_path@)),
{
    let mut null_seen = false;
    let mut rejected_seen = false;
    for c in it: file_path.chars()
        invariant
            it.seq() == file_path@,
            null_seen <==> exists|i: int| 0 <= i < it.index() && file_path@[i] == '\0',
            rejected_seen <==> exists|i: int|
                0 <= i < it.index() && is_rejected_char(#[trigger] file_path@[i]),
    {
        if c == '\0' {
            null_seen = true;
        }
        if rejected_char(c) {
            rejected_seen = true;
        }
    }
    if null_seen {
        Err(PathError::InvalidPath(String::from_str("Null bytes not allowed in file path")))
    } else if rejected_seen {
        Err(PathError::InvalidPath(String::from_str("File path contains dangerous characters")))
    } else {
        Ok(())
    }
}

} // verus!
