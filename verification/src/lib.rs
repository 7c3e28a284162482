//! CQRS (Command Query Responsibility Segregation) building blocks: a command
//! bus and a query bus that route each message type to the one handler
//! registered for it.

use vstd::prelude::*;

pub mod command;
pub mod query;
pub mod registry;

pub use command::{Command, CommandBus, CommandError, TypedCommandHandler};
pub use query::{Query, QueryBus, QueryError, TypedQueryHandler};

verus! {

/// The detail of the execution failure reported when a type-erased message
/// handed to a typed handler is not of that handler's message type.
pub open spec fn type_mismatch_text() -> Seq<char> {
    "Type mismatch"@
}

/// The detail of the execution failure reported when a handler's type-erased
/// result is not of the message's result type.
pub open spec fn result_type_mismatch_text() -> Seq<char> {
    "Result type mismatch"@
}

} // verus!
