//! The error taxonomy used by every layer of the library.
//!
//! Each failure carries a human-readable message and, where the server
//! supplied one, an SQLSTATE-like numeric code.

use vstd::prelude::*;

verus! {

/// Message plus optional driver-supplied code attached to most error kinds.
#[derive(Debug, Clone)]
pub struct ErrorDetail {
    pub msg: String,
    pub code: Option<i32>,
}

/// The single error type used throughout the library.
#[derive(Debug, Clone)]
pub enum FbError {
    /// Attach, detach or authentication failures.
    ConnectionFailure(ErrorDetail),
    /// SQL rejected by the server at prepare time.
    StatementPrepareFailure(ErrorDetail),
    /// Failures while executing a statement.
    ExecutionFailure(ErrorDetail),
    /// Runtime errors during row materialization.
    FetchFailure(ErrorDetail),
    /// A column value cannot be converted to the requested host type.
    ConversionFailure(ErrorDetail),
    /// Driver-internal failures (wire decode, handle mismatch).
    ProtocolFailure(ErrorDetail),
    /// Catch-all for unclassified conditions.
    Other(String),
}

impl FbError {
    /// The message carried by this error, whatever its kind.
    pub fn message(&self) -> (r: &String)
        ensures
            r@ == self.spec_message(),
    {
        match self {
            FbError::ConnectionFailure(d) => &d.msg,
            FbError::StatementPrepareFailure(d) => &d.msg,
            FbError::ExecutionFailure(d) => &d.msg,
            FbError::FetchFailure(d) => &d.msg,
            FbError::ConversionFailure(d) => &d.msg,
            FbError::ProtocolFailure(d) => &d.msg,
            FbError::Other(m) => m,
        }
    }

    pub open spec fn spec_message(&self) -> Seq<char> {
        match self {
            FbError::ConnectionFailure(d) => d.msg@,
            FbError::StatementPrepareFailure(d) => d.msg@,
            FbError::ExecutionFailure(d) => d.msg@,
            FbError::FetchFailure(d) => d.msg@,
            FbError::ConversionFailure(d) => d.msg@,
            FbError::ProtocolFailure(d) => d.msg@,
            FbError::Other(m) => m@,
        }
    }

    /// Builds a `ConnectionFailure` without a code.
    pub fn connection(msg: &str) -> (r: FbError)
        ensures
            r matches FbError::ConnectionFailure(d) && d.msg@ == msg@ && d.code is None,
    {
        FbError::ConnectionFailure(ErrorDetail { msg: String::from_str(msg), code: None })
    }

    /// Builds an `ExecutionFailure` without a code.
    pub fn execution(msg: &str) -> (r: FbError)
        ensures
            r matches FbError::ExecutionFailure(d) && d.msg@ == msg@ && d.code is None,
    {
        FbError::ExecutionFailure(ErrorDetail { msg: String::from_str(msg), code: None })
    }

    /// Builds a `ProtocolFailure` without a code.
    pub fn protocol(msg: &str) -> (r: FbError)
        ensures
            r matches FbError::ProtocolFailure(d) && d.msg@ == msg@ && d.code is None,
    {
        FbError::ProtocolFailure(ErrorDetail { msg: String::from_str(msg), code: None })
    }

    /// Builds a `ConversionFailure` without a code.
    pub fn conversion(msg: &str) -> (r: FbError)
        ensures
            r matches FbError::ConversionFailure(d) && d.msg@ == msg@ && d.code is None,
    {
        FbError::ConversionFailure(ErrorDetail { msg: String::from_str(msg), code: None })
    }
}

} // verus!
