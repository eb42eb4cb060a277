//! What can go wrong when a payload is handed to the database.

use vstd::prelude::*;
use vstd::string::StringExecFns;

verus! {

/// The failure of one write.
#[derive(Debug, PartialEq, Eq)]
pub enum InfError {
    /// The request could not be addressed or sent, or the answer could not be
    /// read. The text says what the transport reported.
    HttpError(String),
}

impl InfError {
    /// What the transport reported.
    pub open spec fn message(self) -> Seq<char> {
        match self {
            InfError::HttpError(text) => text@,
        }
    }

    /// The failure as one line of text.
    pub open spec fn line(self) -> Seq<char> {
        "http client error: "@ + self.message()
    }

    /// The failure as one line of text: a fixed prefix, then what the
    /// transport reported.
    pub fn to_string(&self) -> (line: String)
        ensures
            line@ == self.line(),
    {
        match self {
            InfError::HttpError(text) => String::from_str("http client error: ").concat(
                text.as_str(),
            ),
        }
    }
}

} // verus!
