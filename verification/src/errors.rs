//! The error taxonomy of the engine.

use vstd::prelude::*;

verus! {

/// A failure reported by a query executor.
#[derive(Debug, PartialEq, Clone)]
pub enum QueryError {
    /// Transport or authentication failure reaching the store; the caller may
    /// retry.
    ConnectionError(String),
    /// The store rejected or failed a query; carries the store's message.
    ExecutionError(String),
}

impl QueryError {
    /// The message carried by either variant.
    pub fn message(&self) -> (r: &str)
        ensures
            r@ == self.spec_message(),
    {
        match self {
            QueryError::ConnectionError(m) => m.as_str(),
            QueryError::ExecutionError(m) => m.as_str(),
        }
    }

    pub open spec fn spec_message(&self) -> Seq<char> {
        match self {
            QueryError::ConnectionError(m) => m@,
            QueryError::ExecutionError(m) => m@,
        }
    }
}

/// A configured filter pattern that is not a valid regular expression.
/// Fatal to engine construction: no partial policy is ever built.
#[derive(Debug, PartialEq, Clone)]
pub struct InvalidPattern {
    /// The offending pattern as configured.
    pub pattern: String,
    /// The syntax diagnostic from the regex compiler.
    pub message: String,
}

} // verus!
