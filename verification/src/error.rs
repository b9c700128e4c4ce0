//! The error taxonomy of the library. Parse and count failures are absorbed by
//! the orchestration and never propagate; the rest surface to the caller.
use vstd::prelude::*;
use vstd::string::*;

verus! {

/// A request-level failure. No variant ever terminates the process.
#[derive(Debug, Clone, PartialEq, Eq)]
pub enum DbError {
    /// The selector names a dialect this library does not know.
    UnsupportedDialect,
    /// The dialect does not implement the requested optional capability.
    UnsupportedOperation,
    /// The backing engine could not be opened or reached.
    ConnectionFailure(String),
    /// The statement rewriter could not parse the input.
    ParseFailure,
    /// The backing engine rejected the statement.
    ExecutionFailure(String),
    /// The derived count query failed.
    CountFailure,
}

/// The descriptive text of each failure kind.
pub open spec fn message_spec(e: DbError) -> Seq<char> {
    match e {
        DbError::UnsupportedDialect => "not support dialect"@,
        DbError::UnsupportedOperation => "not support operation"@,
        DbError::ConnectionFailure(s) => "connection failed: "@ + s@,
        DbError::ParseFailure => "parse failed"@,
        DbError::ExecutionFailure(s) => "execution failed: "@ + s@,
        DbError::CountFailure => "count failed"@,
    }
}

impl DbError {
    /// The single error string a caller sees for this failure.
    pub fn message(&self) -> (r: String)
        ensures
            r@ == message_spec(*self),
    {
        match self {
            DbError::UnsupportedDialect => String::from_str("not support dialect"),
            DbError::UnsupportedOperation => String::from_str("not support operation"),
            DbError::ConnectionFailure(s) => {
                let mut m = String::from_str("connection failed: ");
                m.append(s.as_str());
                m
            },
            DbError::ParseFailure => String::from_str("parse failed"),
            DbError::ExecutionFailure(s) => {
                let mut m = String::from_str("execution failed: ");
                m.append(s.as_str());
                m
            },
            DbError::CountFailure => String::from_str("count failed"),
        }
    }
}

} // verus!
