//! Statements, query results and the error taxonomy shared by the router,
//! the proxy protocol and the replication machinery.

use vstd::prelude::*;

verus! {

/// Classification of a statement, as produced by the statement classifier.
#[derive(Clone, Copy, Debug, PartialEq, Eq, Structural)]
pub enum Kind {
    ReadOnly,
    Write,
    Begin,
    Commit,
    Rollback,
    Other,
}

/// A statement: raw text plus its classification. Immutable once classified.
#[derive(Debug, PartialEq, Eq)]
pub struct Statement {
    pub stmt: String,
    pub kind: Kind,
}

impl Statement {
    pub fn new(stmt: String, kind: Kind) -> (s: Statement)
        ensures
            s.stmt == stmt,
            s.kind == kind,
    {
        Statement { stmt, kind }
    }

    /// True exactly when the classifier labelled this statement read-only.
    pub fn is_read_only(&self) -> (r: bool)
        ensures
            r == (self.kind == Kind::ReadOnly),
    {
        match self.kind {
            Kind::ReadOnly => true,
            _ => false,
        }
    }
}

/// A single column value of a result row.
#[derive(Debug, PartialEq, Eq)]
pub enum Value {
    Null,
    Integer(i64),
    Text(String),
    Blob(Vec<u8>),
}

/// Error taxonomy: transport failures, SQL-level failures, statements on a
/// desynchronized handle, and replication failures.
#[derive(Clone, Copy, Debug, PartialEq, Eq, Structural)]
pub enum ErrorCode {
    ConnectionError,
    StatementError,
    StateError,
    ReplicationError,
}

/// A typed error surfaced to the caller of the router or of the proxy.
#[derive(Debug, PartialEq, Eq)]
pub struct QueryError {
    pub code: ErrorCode,
    pub message: String,
}

impl QueryError {
    pub fn new(code: ErrorCode, message: String) -> (e: QueryError)
        ensures
            e.code == code,
            e.message == message,
    {
        QueryError { code, message }
    }
}

/// A successful result set: column metadata plus the ordered rows.
#[derive(Debug, PartialEq, Eq)]
pub struct QueryResponse {
    pub column_names: Vec<String>,
    pub rows: Vec<Vec<Value>>,
}

pub type QueryResult = Result<QueryResponse, QueryError>;

} // verus!
