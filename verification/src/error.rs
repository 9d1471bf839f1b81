//! The failures that the library reports.

use crate::text::joined;
use vstd::prelude::*;

verus! {

/// A failure, with a message that names the offending input and the cause.
#[derive(Debug)]
pub enum CedarError {
    /// A JSON document for a context or an entity store is malformed.
    JsonError(String),
    /// A policy, an entity identifier or a request is malformed.
    ParseError(String),
    /// The engine could not evaluate at all.
    AuthorizationError(String),
    /// A schema was violated.
    SchemaError(String),
    /// A policy set already holds a policy with the identifier of the one
    /// that was to be added.
    DuplicateIdError(String),
}

impl CedarError {
    /// The message that the failure carries.
    pub open spec fn detail(self) -> Seq<char> {
        match self {
            CedarError::JsonError(m) => m@,
            CedarError::ParseError(m) => m@,
            CedarError::AuthorizationError(m) => m@,
            CedarError::SchemaError(m) => m@,
            CedarError::DuplicateIdError(m) => m@,
        }
    }

    /// The words that `message` puts before the detail, by kind of failure.
    pub open spec fn label(self) -> Seq<char> {
        match self {
            CedarError::JsonError(_) => "JSON Error: "@,
            CedarError::ParseError(_) => "Parse Error: "@,
            CedarError::AuthorizationError(_) => "Authorization Error: "@,
            CedarError::SchemaError(_) => "Schema Error: "@,
            CedarError::DuplicateIdError(_) => "Duplicate Id Error: "@,
        }
    }

    /// The message that the failure carries, without its kind.
    pub fn cause(&self) -> (r: &str)
        ensures
            r@ == self.detail(),
    {
        match self {
            CedarError::JsonError(m) => m.as_str(),
            CedarError::ParseError(m) => m.as_str(),
            CedarError::AuthorizationError(m) => m.as_str(),
            CedarError::SchemaError(m) => m.as_str(),
            CedarError::DuplicateIdError(m) => m.as_str(),
        }
    }

    /// The failure as one line of text: its kind, then its message.
    pub fn message(&self) -> (r: String)
        ensures
            r@ == self.label() + self.detail(),
    {
        match self {
            CedarError::JsonError(m) => joined("JSON Error: ", m.as_str()),
            CedarError::ParseError(m) => joined("Parse Error: ", m.as_str()),
            CedarError::AuthorizationError(m) => joined("Authorization Error: ", m.as_str()),
            CedarError::SchemaError(m) => joined("Schema Error: ", m.as_str()),
            CedarError::DuplicateIdError(m) => joined("Duplicate Id Error: ", m.as_str()),
        }
    }
}

} // verus!
