//! The closed set of failures, each with the context it arose in.

use vstd::prelude::*;
use vstd::string::*;

verus! {

/// Why a run produced no schema.
#[derive(Clone, Debug, PartialEq, Eq)]
pub enum ErrorKind {
    /// The input path does not exist.
    InvalidPath { path: String },
    /// The input could not be opened or read.
    IOError { path: String },
    /// The input is not well-formed delimited text: a row does not have as
    /// many fields as the header, or a field is not valid text. `detail`
    /// is the reader's account of it, which names the offending line.
    MalformedRecord { detail: String },
    /// The input holds no row at all, not even a header.
    EmptyInput,
}

impl ErrorKind {
    /// The line that tells a person what went wrong.
    pub open spec fn spec_describe(self) -> Seq<char> {
        match self {
            ErrorKind::InvalidPath { path } => "no such file: "@ + path@,
            ErrorKind::IOError { path } => "cannot read: "@ + path@,
            ErrorKind::MalformedRecord { detail } => "malformed record: "@ + detail@,
            ErrorKind::EmptyInput => "empty input: no header row"@,
        }
    }

    /// The line that tells a person what went wrong.
    pub fn describe(&self) -> (out: String)
        ensures
            out@ == self.spec_describe(),
    {
        match self {
            ErrorKind::InvalidPath { path } => String::from_str("no such file: ").concat(
                path.as_str(),
            ),
            ErrorKind::IOError { path } => String::from_str("cannot read: ").concat(path.as_str()),
            ErrorKind::MalformedRecord { detail } => String::from_str("malformed record: ").concat(
                detail.as_str(),
            ),
            ErrorKind::EmptyInput => String::from_str("empty input: no header row"),
        }
    }
}

} // verus!
