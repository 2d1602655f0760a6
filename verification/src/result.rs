//! The one vocabulary in which every part of the library fails.

use vstd::prelude::*;

verus! {

/// Why a run, or a step of it, failed. Each variant carries a message for
/// the person at the terminal; `MissingUrl` carries the entry's id.
#[derive(Debug, Clone, PartialEq, Eq)]
pub enum FdownError {
    /// A configuration key is missing or a configuration line is malformed.
    BadConfig(String),
    /// A URL or a path could not be taken apart as expected.
    BadFormat(String),
    /// The command line was rejected.
    Clap(String),
    /// The transport failed: no connection, or a refusal by the server.
    Hyper(String),
    /// A file could not be created or written.
    Io(String),
    /// An entry has no usable image.
    MissingUrl(String),
    /// A number on the command line could not be read.
    ParseIntError(String),
    /// A response, or a request body, is not the JSON that is expected.
    SerdeJson(String),
}

impl FdownError {
    /// The text that the variant carries.
    pub open spec fn text(self) -> Seq<char> {
        match self {
            FdownError::BadConfig(s) => s@,
            FdownError::BadFormat(s) => s@,
            FdownError::Clap(s) => s@,
            FdownError::Hyper(s) => s@,
            FdownError::Io(s) => s@,
            FdownError::MissingUrl(s) => s@,
            FdownError::ParseIntError(s) => s@,
            FdownError::SerdeJson(s) => s@,
        }
    }

    /// A second copy of the error.
    pub fn duplicate(&self) -> (out: FdownError)
        ensures
            out == *self,
    {
        match self {
            FdownError::BadConfig(s) => FdownError::BadConfig(s.clone()),
            FdownError::BadFormat(s) => FdownError::BadFormat(s.clone()),
            FdownError::Clap(s) => FdownError::Clap(s.clone()),
            FdownError::Hyper(s) => FdownError::Hyper(s.clone()),
            FdownError::Io(s) => FdownError::Io(s.clone()),
            FdownError::MissingUrl(s) => FdownError::MissingUrl(s.clone()),
            FdownError::ParseIntError(s) => FdownError::ParseIntError(s.clone()),
            FdownError::SerdeJson(s) => FdownError::SerdeJson(s.clone()),
        }
    }

    /// The text that the variant carries.
    pub fn message(&self) -> (out: &String)
        ensures
            out@ == self.text(),
    {
        match self {
            FdownError::BadConfig(s) => s,
            FdownError::BadFormat(s) => s,
            FdownError::Clap(s) => s,
            FdownError::Hyper(s) => s,
            FdownError::Io(s) => s,
            FdownError::MissingUrl(s) => s,
            FdownError::ParseIntError(s) => s,
            FdownError::SerdeJson(s) => s,
        }
    }
}

} // verus!
