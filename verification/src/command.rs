//! Command handling for CQRS: commands are write operations, each routed by
//! its type key to the one handler registered for it.

use crate::registry::route_of;
use crate::{result_type_mismatch_text, type_mismatch_text};
use crate::registry::HandlerRegistry;
use std::marker::PhantomData;
use vstd::prelude::*;
use vstd::string::StringExecFns;

verus! {

/// Command trait
///
/// Commands represent write operations in CQRS.
pub trait Command: Send + Sync + 'static {
    /// Command result type
    type Result: Send;
}

/// Command error
#[derive(Debug)]
pub enum CommandError {
    ExecutionFailed(String),
    HandlerNotFound,
    ValidationError(String),
    BusinessRuleViolation(String),
}

/// The text of a command error: a fixed prefix per variant, followed by the
/// variant's detail where it has one.
pub open spec fn command_error_text(e: CommandError) -> Seq<char> {
    match e {
        CommandError::ExecutionFailed(m) => "Command execution failed: "@ + m@,
        CommandError::HandlerNotFound => "Handler not found for command"@,
        CommandError::ValidationError(m) => "Validation error: "@ + m@,
        CommandError::BusinessRuleViolation(m) => "Business rule violation: "@ + m@,
    }
}

impl CommandError {
    /// The human-readable message of this error.
    pub fn to_string(&self) -> (r: String)
        ensures
            r@ == command_error_text(*self),
    {
        match self {
            CommandError::ExecutionFailed(m) => {
                let mut s = String::from_str("Command execution failed: ");
                s.append(m.as_str());
                s
            },
            CommandError::HandlerNotFound => String::from_str("Handler not found for command"),
            CommandError::ValidationError(m) => {
                let mut s = String::from_str("Validation error: ");
                s.append(m.as_str());
                s
            },
            CommandError::BusinessRuleViolation(m) => {
                let mut s = String::from_str("Business rule violation: ");
                s.append(m.as_str());
                s
            },
        }
    }
}

/// Wrapper for typed command handlers: a handler for commands of type `C`,
/// as the bus stores it.
pub struct TypedCommandHandler<C: Command, H> {
    handler: H,
    _phantom: PhantomData<C>,
}

impl<C: Command, H> TypedCommandHandler<C, H> {
    /// The wrapped handler.
    pub closed spec fn inner(&self) -> H {
        self.handler
    }

    /// Wraps `handler`.
    pub fn new(handler: H) -> (r: Self)
        ensures
            r.inner() == handler,
    {
        TypedCommandHandler { handler, _phantom: PhantomData }
    }

    /// The wrapped handler.
    pub fn handler(&self) -> (r: &H)
        ensures
            *r == self.inner(),
    {
        &self.handler
    }

    /// Decides whether a type-erased command reaches the wrapped handler.
    /// `command` is the command recovered at type `C`, or `None` when the
    /// erased value was of another type: then the handler is not run and the
    /// dispatch fails with "Type mismatch".
    pub fn accept_command(command: Option<C>) -> (r: Result<C, CommandError>)
        ensures
            command matches Some(c) ==> r == Ok::<C, CommandError>(c),
            command is None ==> (r matches Err(CommandError::ExecutionFailed(m))
                && m@ == type_mismatch_text()),
    {
        match command {
            Some(c) => Ok(c),
            None => Err(CommandError::ExecutionFailed(String::from_str("Type mismatch"))),
        }
    }
}

/// Decides what executing a command returns, once its handler has run.
/// `outcome` is the handler's own error, or its result recovered at the
/// command's result type (`None` when the erased result was of another type).
/// A handler error is passed through unchanged, a result of the right type is
/// returned as it is, and a result of another type fails with "Result type
/// mismatch".
pub fn command_execution_result<R>(outcome: Result<Option<R>, CommandError>) -> (r: Result<
    R,
    CommandError,
>)
    ensures
        outcome matches Ok(Some(v)) ==> r == Ok::<R, CommandError>(v),
        outcome matches Err(e) ==> r == Err::<R, CommandError>(e),
        outcome matches Ok(None) ==> (r matches Err(CommandError::ExecutionFailed(m)) && m@
            == result_type_mismatch_text()),
{
    match outcome {
        Ok(Some(v)) => Ok(v),
        Ok(None) => Err(CommandError::ExecutionFailed(String::from_str("Result type mismatch"))),
        Err(e) => Err(e),
    }
}

/// Command bus: routes each command type key to its registered handler.
pub struct CommandBus<H> {
    handlers: HandlerRegistry<H>,
}

impl<H> View for CommandBus<H> {
    type V = Map<u64, H>;

    /// The handler registered for each command type key.
    closed spec fn view(&self) -> Map<u64, H> {
        self.handlers.routes()
    }
}

impl<H> CommandBus<H> {
    /// The bus's internal table is consistent.
    pub closed spec fn wf(&self) -> bool {
        self.handlers.wf()
    }

    /// Create new command bus
    pub fn new() -> (r: Self)
        ensures
            r.wf(),
            r@ == Map::<u64, H>::empty(),
    {
        CommandBus { handlers: HandlerRegistry::new() }
    }

    /// Register a command handler for the command type with key `key`,
    /// replacing the handler registered for it before, if any.
    pub fn register(&mut self, key: u64, handler: H)
        requires
            old(self).wf(),
        ensures
            final(self).wf(),
            final(self)@ == old(self)@.insert(key, handler),
    {
        self.handlers.register(key, handler);
    }

    /// The handler that a command with type key `key` is executed by, or
    /// `HandlerNotFound` when none is registered for it.
    pub fn lookup(&self, key: u64) -> (r: Result<&H, CommandError>)
        requires
            self.wf(),
        ensures
            r matches Ok(h) ==> route_of(self@, key) == Some(*h),
            r matches Err(e) ==> route_of(self@, key) is None && e is HandlerNotFound,
    {
        match self.handlers.get(key) {
            Some(h) => Ok(h),
            None => Err(CommandError::HandlerNotFound),
        }
    }
}

impl<H> Default for CommandBus<H> {
    fn default() -> (r: Self)
        ensures
            r.wf(),
            r@ == Map::<u64, H>::empty(),
    {
        Self::new()
    }
}

} // verus!
