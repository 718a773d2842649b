//! The error taxonomy of the persistence core.  Errors are never
//! swallowed: every operation either succeeds or returns one of these.

use vstd::prelude::*;

verus! {

/// The mathematical view of a `QueryError`.
pub enum QueryErrorV {
    ConnectionFailed(Seq<char>),
    ExecuteFailed(Seq<char>),
    NotImplemented(Seq<char>),
    IncompatibleData(Seq<char>, Seq<char>),
}

/// An error of the persistence core.
#[derive(Clone, PartialEq, Debug)]
pub enum QueryError {
    /// The pool could not produce a connection or a transaction.
    ConnectionFailed(String),
    /// A statement execution or a commit failed; carries the store's
    /// own message.
    ExecuteFailed(String),
    /// An unsupported type or capability; carries the feature name.
    NotImplemented(String),
    /// A value could not be coerced or generated; carries the field name
    /// and a description of the offending value or owning type.
    IncompatibleData(String, String),
}

impl View for QueryError {
    type V = QueryErrorV;

    open spec fn view(&self) -> QueryErrorV {
        match self {
            QueryError::ConnectionFailed(s) => QueryErrorV::ConnectionFailed(s@),
            QueryError::ExecuteFailed(s) => QueryErrorV::ExecuteFailed(s@),
            QueryError::NotImplemented(s) => QueryErrorV::NotImplemented(s@),
            QueryError::IncompatibleData(f, d) => QueryErrorV::IncompatibleData(f@, d@),
        }
    }
}

/// The feature name reported when an object-valued field reaches the
/// persistence layer.
pub open spec fn spec_object_not_implemented() -> QueryErrorV {
    QueryErrorV::NotImplemented("support for type Object"@)
}

/// Builds the `NotImplemented` error for object-valued fields.
pub fn object_not_implemented() -> (r: QueryError)
    ensures
        r@ == spec_object_not_implemented(),
{
    QueryError::NotImplemented(String::from_str("support for type Object"))
}

impl QueryError {
    /// A short, user-readable rendering of the error.
    pub fn describe(&self) -> (r: String)
        ensures
            match self@ {
                QueryErrorV::ConnectionFailed(s) => r@ == "connection failed: "@ + s,
                QueryErrorV::ExecuteFailed(s) => r@ == "execution failed: "@ + s,
                QueryErrorV::NotImplemented(s) => r@ == "not implemented: "@ + s,
                QueryErrorV::IncompatibleData(f, d) => r@ == "incompatible data for field "@ + f
                    + ": "@ + d,
            },
    {
        match self {
            QueryError::ConnectionFailed(s) => {
                let mut m = String::from_str("connection failed: ");
                m.append(s.as_str());
                m
            },
            QueryError::ExecuteFailed(s) => {
                let mut m = String::from_str("execution failed: ");
                m.append(s.as_str());
                m
            },
            QueryError::NotImplemented(s) => {
                let mut m = String::from_str("not implemented: ");
                m.append(s.as_str());
                m
            },
            QueryError::IncompatibleData(f, d) => {
                let mut m = String::from_str("incompatible data for field ");
                m.append(f.as_str());
                m.append(": ");
                m.append(d.as_str());
                m
            },
        }
    }
}

} // verus!
