//! The failures a simulation can report.

use vstd::prelude::*;
use vstd::string::StringExecFns;

verus! {

/// Why a simulation did not produce a result.
#[derive(Debug, PartialEq, Eq)]
pub enum Error {
    /// A string argument could not be converted to null-terminated UTF-8.
    InvalidStringEncoding,
    /// ngSPICE was unable to parse the circuit. The contained string holds error logs.
    InvalidCircuit(String),
    /// ngSPICE returned an unknown error. The contained string holds error logs.
    Unknown(String),
}

/// An error as a mathematical value.
pub ghost enum ErrorModel {
    InvalidStringEncoding,
    InvalidCircuit(Seq<char>),
    Unknown(Seq<char>),
}

impl ErrorModel {
    /// The text that describes the error to a person.
    pub open spec fn message(self) -> Seq<char> {
        match self {
            ErrorModel::InvalidStringEncoding =>
                "invalid string encoding; all strings must be UTF-8 with no null bytes"@,
            ErrorModel::InvalidCircuit(logs) => "error parsing circuit; ngSPICE logs follow:\n"@
                + logs,
            ErrorModel::Unknown(logs) => "unknown error; ngSPICE logs follow:\n"@ + logs,
        }
    }
}

impl View for Error {
    type V = ErrorModel;

    open spec fn view(&self) -> ErrorModel {
        match self {
            Error::InvalidStringEncoding => ErrorModel::InvalidStringEncoding,
            Error::InvalidCircuit(logs) => ErrorModel::InvalidCircuit(logs@),
            Error::Unknown(logs) => ErrorModel::Unknown(logs@),
        }
    }
}

impl Error {

    /// Describes the error, followed by the engine's logs where it carries any.
    pub fn message(&self) -> (text: String)
        ensures
            text@ == self@.message(),
    {
        match self {
            Error::InvalidStringEncoding => String::from_str(
                "invalid string encoding; all strings must be UTF-8 with no null bytes",
            ),
            Error::InvalidCircuit(logs) => String::from_str(
                "error parsing circuit; ngSPICE logs follow:\n",
            ).concat(logs.as_str()),
            Error::Unknown(logs) => String::from_str(
                "unknown error; ngSPICE logs follow:\n",
            ).concat(logs.as_str()),
        }
    }
}

} // verus!
