//! Query handling for CQRS: queries are read operations, each routed by
//! its type key to the one handler registered for it.

use crate::registry::route_of;
use crate::{result_type_mismatch_text, type_mismatch_text};
use crate::registry::HandlerRegistry;
use std::marker::PhantomData;
use vstd::prelude::*;
use vstd::string::StringExecFns;

verus! {

/// Query trait
///
/// Queries represent read operations in CQRS.
pub trait Query: Send + Sync + 'static {
    /// Query result type
    type Result: Send;
}

/// Query error
#[derive(Debug)]
pub enum QueryError {
    ExecutionFailed(String),
    HandlerNotFound,
    NotFound(String),
    InvalidParameters(String),
}

/// The text of a query error: a fixed prefix per variant, followed by the
/// variant's detail where it has one.
pub open spec fn query_error_text(e: QueryError) -> Seq<char> {
    match e {
        QueryError::ExecutionFailed(m) => "Query execution failed: "@ + m@,
        QueryError::HandlerNotFound => "Handler not found for query"@,
        QueryError::NotFound(m) => "Data not found: "@ + m@,
        QueryError::InvalidParameters(m) => "Invalid query parameters: "@ + m@,
    }
}

impl QueryError {
    /// The human-readable message of this error.
    pub fn to_string(&self) -> (r: String)
        ensures
            r@ == query_error_text(*self),
    {
        match self {
            QueryError::ExecutionFailed(m) => {
                let mut s = String::from_str("Query execution failed: ");
                s.append(m.as_str());
                s
            },
            QueryError::HandlerNotFound => String::from_str("Handler not found for query"),
            QueryError::NotFound(m) => {
                let mut s = String::from_str("Data not found: ");
                s.append(m.as_str());
                s
            },
            QueryError::InvalidParameters(m) => {
                let mut s = String::from_str("Invalid query parameters: ");
                s.append(m.as_str());
                s
            },
        }
    }
}

/// Wrapper for typed query handlers: a handler for queries of type `Q`,
/// as the bus stores it.
pub struct TypedQueryHandler<Q: Query, H> {
    handler: H,
    _phantom: PhantomData<Q>,
}

impl<Q: Query, H> TypedQueryHandler<Q, H> {
    /// The wrapped handler.
    pub closed spec fn inner(&self) -> H {
        self.handler
    }

    /// Wraps `handler`.
    pub fn new(handler: H) -> (r: Self)
        ensures
            r.inner() == handler,
    {
        TypedQueryHandler { handler, _phantom: PhantomData }
    }

    /// The wrapped handler.
    pub fn handler(&self) -> (r: &H)
        ensures
            *r == self.inner(),
    {
        &self.handler
    }

    /// Decides whether a type-erased query reaches the wrapped handler.
    /// `query` is the query recovered at type `Q`, or `None` when the
    /// erased value was of another type: then the handler is not run and the
    /// dispatch fails with "Type mismatch".
    pub fn accept_query(query: Option<Q>) -> (r: Result<Q, QueryError>)
        ensures
            query matches Some(q) ==> r == Ok::<Q, QueryError>(q),
            query is None ==> (r matches Err(QueryError::ExecutionFailed(m))
                && m@ == type_mismatch_text()),
    {
        match query {
            Some(q) => Ok(q),
            None => Err(QueryError::ExecutionFailed(String::from_str("Type mismatch"))),
        }
    }
}

/// Decides what executing a query returns, once its handler has run.
/// `outcome` is the handler's own error, or its result recovered at the
/// query's result type (`None` when the erased result was of another type).
/// A handler error is passed through unchanged, a result of the right type is
/// returned as it is, and a result of another type fails with "Result type
/// mismatch".
pub fn query_execution_result<R>(outcome: Result<Option<R>, QueryError>) -> (r: Result<
    R,
    QueryError,
>)
    ensures
        outcome matches Ok(Some(v)) ==> r == Ok::<R, QueryError>(v),
        outcome matches Err(e) ==> r == Err::<R, QueryError>(e),
        outcome matches Ok(None) ==> (r matches Err(QueryError::ExecutionFailed(m)) && m@
            == result_type_mismatch_text()),
{
    match outcome {
        Ok(Some(v)) => Ok(v),
        Ok(None) => Err(QueryError::ExecutionFailed(String::from_str("Result type mismatch"))),
        Err(e) => Err(e),
    }
}

/// Query bus: routes each query type key to its registered handler.
pub struct QueryBus<H> {
    handlers: HandlerRegistry<H>,
}

impl<H> View for QueryBus<H> {
    type V = Map<u64, H>;

    /// The handler registered for each query type key.
    closed spec fn view(&self) -> Map<u64, H> {
        self.handlers.routes()
    }
}

impl<H> QueryBus<H> {
    /// The bus's internal table is consistent.
    pub closed spec fn wf(&self) -> bool {
        self.handlers.wf()
    }

    /// Create new query bus
    pub fn new() -> (r: Self)
        ensures
            r.wf(),
            r@ == Map::<u64, H>::empty(),
    {
        QueryBus { handlers: HandlerRegistry::new() }
    }

    /// Register a query handler for the query type with key `key`,
    /// replacing the handler registered for it before, if any.
    pub fn register(&mut self, key: u64, handler: H)
        requires
            old(self).wf(),
        ensures
            final(self).wf(),
            final(self)@ == old(self)@.insert(key, handler),
    {
        self.handlers.register(key, handler);
    }

    /// The handler that a query with type key `key` is executed by, or
    /// `HandlerNotFound` when none is registered for it.
    pub fn lookup(&self, key: u64) -> (r: Result<&H, QueryError>)
        requires
            self.wf(),
        ensures
            r matches Ok(h) ==> route_of(self@, key) == Some(*h),
            r matches Err(e) ==> route_of(self@, key) is None && e is HandlerNotFound,
    {
        match self.handlers.get(key) {
            Some(h) => Ok(h),
            None => Err(QueryError::HandlerNotFound),
        }
    }
}

impl<H> Default for QueryBus<H> {
    fn default() -> (r: Self)
        ensures
            r.wf(),
            r@ == Map::<u64, H>::empty(),
    {
        Self::new()
    }
}

} // verus!
