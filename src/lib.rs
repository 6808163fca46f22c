//! Validation and canonicalisation of untrusted file paths.
//!
//! A caller-supplied path is first checked for characters that have no place
//! in a path handed to the operating system, then resolved to an absolute,
//! canonical path that must name an existing regular file.
mod error;
mod normalize;
mod validate;

pub use error::PathError;
pub use normalize::{classify_resolution, normalize_file_path};
pub use validate::{check_path_chars, rejected_char};
