//! The errors that the operations of this library report.

use vstd::prelude::*;

verus! {

/// Why an operation failed.
#[derive(Debug, PartialEq, Eq)]
pub enum Error {
    /// A required input parameter was not supplied; the text is its name.
    MissingParameter(String),
    /// The manifest path names no parent directory.
    PathResolution,
    /// Reading the source or writing the destination failed.
    Io(String),
    /// The text is not a well-formed document of the expected shape.
    Parse(String),
    /// The document could not be written out as text.
    Serialize(String),
}

impl Error {
    /// A parse error with the given detail.
    pub fn parse(detail: &str) -> (error: Error)
        ensures
            error is Parse,
            error->Parse_0@ == detail@,
    {
        Error::Parse(detail.to_owned())
    }

    /// The detail carried by the error, or a fixed sentence where it carries none.
    pub fn message(&self) -> (text: String)
        ensures
            text@ == match *self {
                Error::MissingParameter(name) => name@,
                Error::PathResolution => "unable to found folder directory of the manifest"@,
                Error::Io(detail) => detail@,
                Error::Parse(detail) => detail@,
                Error::Serialize(detail) => detail@,
            },
    {
        match self {
            Error::MissingParameter(name) => name.clone(),
            Error::PathResolution => "unable to found folder directory of the manifest".to_owned(),
            Error::Io(detail) => detail.clone(),
            Error::Parse(detail) => detail.clone(),
            Error::Serialize(detail) => detail.clone(),
        }
    }
}

} // verus!
