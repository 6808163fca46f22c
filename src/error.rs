use vstd::prelude::*;
use vstd::string::*;

verus! {

/// Why a path was refused. Each kind carries a message for the user.
#[derive(Debug)]
pub enum PathError {
    /// The file was not found or could not be resolved.
    FileNotFound(String),
    /// The path contains a null byte or a rejected character.
    InvalidPath(String),
    /// The path resolves to something that is not a regular file.
    NotAFile(String),
    /// Probing the path failed for another I/O reason.
    IoError(String),
}

impl PathError {
    /// The message that the error carries.
    pub open spec fn message(self) -> Seq<char> {
        match self {
            PathError::FileNotFound(m) => m@,
            PathError::InvalidPath(m) => m@,
            PathError::NotAFile(m) => m@,
            PathError::IoError(m) => m@,
        }
    }

    /// The label that the text of an error of this kind begins with.
    pub open spec fn label(self) -> Seq<char> {
        match self {
            PathError::FileNotFound(_) => "File not found: "@,
            PathError::InvalidPath(_) => "Invalid path: "@,
            PathError::NotAFile(_) => "Not a file: "@,
            PathError::IoError(_) => "I/O error: "@,
        }
    }

    /// The error as text: its label, then its message.
    pub open spec fn text(self) -> Seq<char> {
        self.label() + self.message()
    }

    /// Renders the error as text, e.g. `File not found: test.txt`.
    pub fn to_string(&self) -> (r: String)
        ensures
            r@ == self.text(),
    {
        let (label, msg) = match self {
            PathError::FileNotFound(m) => ("File not found: ", m),
            PathError::InvalidPath(m) => ("Invalid path: ", m),
            PathError::NotAFile(m) => ("Not a file: ", m),
            PathError::IoError(m) => ("I/O error: ", m),
        };
        let mut r = String::from_str(label);
        r.append(msg.as_str());
        r
    }
}

} // verus!
