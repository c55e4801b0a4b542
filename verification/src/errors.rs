//! Error taxonomy of the engine.
//!
//! Each error carries a machine-readable kind and, where the failing
//! condition has detail, a human-readable message. The boundary turns these
//! into HTTP responses; the status code and response text for each variant
//! are fixed here so that the mapping itself is verified.

use vstd::prelude::*;

verus! {

/// Errors of the query path: template compilation, binding, dispatch and
/// execution.
#[derive(Debug, Clone, PartialEq, Eq)]
pub enum QueryError {
    InvalidInput(String),
    StrategyNotFound(String),
    DatabaseError(String),
    ExecutionError(String),
    InternalError(String),
}

impl QueryError {
    /// The HTTP status the query path answers with for this error.
    pub fn status_code(&self) -> (r: u16)
        ensures
            r == match self {
                QueryError::InvalidInput(_) => 400u16,
                QueryError::StrategyNotFound(_) => 404u16,
                QueryError::DatabaseError(_) => 500u16,
                QueryError::ExecutionError(_) => 500u16,
                QueryError::InternalError(_) => 500u16,
            },
    {
        match self {
            QueryError::InvalidInput(_) => 400,
            QueryError::StrategyNotFound(_) => 404,
            QueryError::DatabaseError(_) => 500,
            QueryError::ExecutionError(_) => 500,
            QueryError::InternalError(_) => 500,
        }
    }

    /// The message placed in the response body.
    pub fn error_message(&self) -> (r: &str)
        ensures
            r@ == match self {
                QueryError::InvalidInput(m) => m@,
                QueryError::StrategyNotFound(m) => m@,
                QueryError::DatabaseError(m) => m@,
                QueryError::ExecutionError(m) => m@,
                QueryError::InternalError(m) => m@,
            },
    {
        match self {
            QueryError::InvalidInput(m) => m.as_str(),
            QueryError::StrategyNotFound(m) => m.as_str(),
            QueryError::DatabaseError(m) => m.as_str(),
            QueryError::ExecutionError(m) => m.as_str(),
            QueryError::InternalError(m) => m.as_str(),
        }
    }
}

/// Errors of the metadata services and the tabular upload path.
#[derive(Debug, Clone, PartialEq, Eq)]
pub enum ServiceError {
    NotFound,
    AlreadyExists,
    InvalidInput(String),
    Unauthorized,
}

impl ServiceError {
    /// The HTTP status the service boundary answers with for this error.
    pub fn status_code(&self) -> (r: u16)
        ensures
            r == match self {
                ServiceError::NotFound => 404u16,
                ServiceError::AlreadyExists => 409u16,
                ServiceError::InvalidInput(_) => 422u16,
                ServiceError::Unauthorized => 401u16,
            },
    {
        match self {
            ServiceError::NotFound => 404,
            ServiceError::AlreadyExists => 409,
            ServiceError::InvalidInput(_) => 422,
            ServiceError::Unauthorized => 401,
        }
    }
}

/// Errors of the task-execution path.
#[derive(Debug, Clone, PartialEq, Eq)]
pub enum ExecutorError {
    UnsupportedTaskType,
    ExecutionFailed(String),
    ConnectionFailed,
}

impl ExecutorError {
    /// The HTTP status the executor boundary answers with for this error.
    pub fn status_code(&self) -> (r: u16)
        ensures
            r == match self {
                ExecutorError::UnsupportedTaskType => 400u16,
                ExecutorError::ExecutionFailed(_) => 500u16,
                ExecutorError::ConnectionFailed => 500u16,
            },
    {
        match self {
            ExecutorError::UnsupportedTaskType => 400,
            ExecutorError::ExecutionFailed(_) => 500,
            ExecutorError::ConnectionFailed => 500,
        }
    }
}

/// Errors of the external task-center client.
#[derive(Debug, Clone, PartialEq, Eq)]
pub enum ClientError {
    RequestFailed(String),
    ParseError(String),
}

impl ClientError {
    /// The HTTP status the boundary answers with for this error.
    pub fn status_code(&self) -> (r: u16)
        ensures
            r == 502u16,
    {
        match self {
            ClientError::RequestFailed(_) => 502,
            ClientError::ParseError(_) => 502,
        }
    }
}

} // verus!
