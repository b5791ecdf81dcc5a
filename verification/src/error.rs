//! The failures that reading or writing a console variable can report.

use vstd::prelude::*;
use vstd::string::*;

verus! {

/// Why an access to a console variable failed.
#[derive(Debug, Clone, PartialEq, Eq)]
pub enum ConVarError {
    /// The name is not one of the declared variables.
    UnknownConVar,
    /// The name is declared, but the text is not a value of its type.
    ParseError(String),
}

/// The mathematical content of a `ConVarError`.
pub enum ErrorModel {
    UnknownConVar,
    ParseError(Seq<char>),
}

impl ErrorModel {
    /// The text shown for this error.
    pub open spec fn text(self) -> Seq<char> {
        match self {
            ErrorModel::UnknownConVar => "unknown convar"@,
            ErrorModel::ParseError(msg) => "parse error: "@ + msg,
        }
    }
}

impl View for ConVarError {
    type V = ErrorModel;

    open spec fn view(&self) -> ErrorModel {
        match self {
            ConVarError::UnknownConVar => ErrorModel::UnknownConVar,
            ConVarError::ParseError(msg) => ErrorModel::ParseError(msg@),
        }
    }
}

impl ConVarError {
    /// The text shown for this error: a fixed phrase for an unknown name, and
    /// the parser's message behind a fixed prefix otherwise.
    pub fn to_string(&self) -> (r: String)
        ensures
            r@ == self@.text(),
    {
        match self {
            ConVarError::UnknownConVar => String::from_str("unknown convar"),
            ConVarError::ParseError(msg) => {
                let mut out = String::from_str("parse error: ");
                out.append(msg.as_str());
                out
            },
        }
    }
}

} // verus!
