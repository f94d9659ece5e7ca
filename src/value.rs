use vstd::prelude::*;

verus! {

/// A value produced or bound by a request.
#[derive(Clone, Copy, Debug, PartialEq, Eq, Structural)]
pub enum Value {
    /// The empty value, returned by requests that produce nothing.
    Unit,
    Bool(bool),
    Int(i64),
}

/// Failures that a connection or a request can report.
#[derive(Clone, Debug)]
pub enum Error {
    /// A file-backed address that does not name a filesystem path; carries the address text.
    InvalidUrl(String),
    /// A failure reported by the storage engine.
    Engine(String),
}

/// The operations that a request can carry.
#[derive(Clone, Debug)]
pub enum Method {
    /// Select the namespace and database of the session.
    Use { namespace: Option<String>, database: Option<String> },
    /// Bind a variable for the rest of the connection.
    SetVariable(String, Value),
    /// Remove a variable binding.
    UnsetVariable(String),
    /// Evaluate a variable reference; unbound variables evaluate to `Value::Unit`.
    Evaluate(String),
    /// A statement for the engine to execute.
    Query(String),
}

impl Method {
    /// Whether the request is a query for the engine.
    pub fn is_query(&self) -> (r: bool)
        ensures
            r == (self is Query),
    {
        match self {
            Method::Query(_) => true,
            _ => false,
        }
    }
}

} // verus!
