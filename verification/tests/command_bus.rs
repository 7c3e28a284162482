use armature_cqrs::command::command_execution_result;
use armature_cqrs::{Command, CommandBus, CommandError, TypedCommandHandler};
use std::any::Any;
use std::cell::RefCell;
use std::rc::Rc;

/// A type-erased handler, as a bus stores it.
type ErasedHandler = Rc<dyn Fn(Box<dyn Any>) -> Result<Box<dyn Any>, CommandError>>;

/// The type key each test command is routed by.
trait Keyed {
    const KEY: u64;
}

fn erase<C, F>(handler: F) -> ErasedHandler
where
    C: Command,
    F: Fn(C) -> Result<C::Result, CommandError> + 'static,
{
    let typed = TypedCommandHandler::<C, F>::new(handler);
    Rc::new(move |command: Box<dyn Any>| {
        let command = TypedCommandHandler::<C, F>::accept_command(
            command.downcast::<C>().ok().map(|b| *b),
        )?;
        let result = (typed.handler())(command)?;
        Ok(Box::new(result) as Box<dyn Any>)
    })
}

fn register<C, F>(bus: &RefCell<CommandBus<ErasedHandler>>, handler: F)
where
    C: Command + Keyed,
    F: Fn(C) -> Result<C::Result, CommandError> + 'static,
{
    bus.borrow_mut().register(C::KEY, erase::<C, F>(handler));
}

fn execute<C: Command + Keyed>(
    bus: &RefCell<CommandBus<ErasedHandler>>,
    command: C,
) -> Result<C::Result, CommandError> {
    // The handler is cloned out and the borrow released before it runs.
    let handler = bus.borrow().lookup(C::KEY)?.clone();
    let outcome = handler(Box::new(command)).map(|r| r.downcast::<C::Result>().ok().map(|b| *b));
    command_execution_result(outcome)
}

struct CreateUserCommand {
    email: String,
}

impl Command for CreateUserCommand {
    type Result = String;
}

impl Keyed for CreateUserCommand {
    const KEY: u64 = 1;
}

fn create_user_handler(command: CreateUserCommand) -> Result<String, CommandError> {
    Ok(format!("user-{}", command.email))
}

struct AnotherCommand {
    value: u32,
}

impl Command for AnotherCommand {
    type Result = u32;
}

impl Keyed for AnotherCommand {
    const KEY: u64 = 2;
}

fn another_command_handler(command: AnotherCommand) -> Result<u32, CommandError> {
    Ok(command.value)
}

#[test]
fn test_command_bus() {
    let bus = RefCell::new(CommandBus::new());
    register::<CreateUserCommand, _>(&bus, create_user_handler);

    let command = CreateUserCommand {
        email: "alice@example.com".to_string(),
    };

    let result = execute(&bus, command).unwrap();
    assert_eq!(result, "user-alice@example.com");
}

#[test]
fn test_command_bus_handler_not_found() {
    let bus = RefCell::new(CommandBus::new());

    let command = CreateUserCommand {
        email: "bob@example.com".to_string(),
    };

    let err = execute(&bus, command).unwrap_err();
    assert!(matches!(err, CommandError::HandlerNotFound));
}

#[test]
fn test_command_bus_independent_types_do_not_collide() {
    let bus = RefCell::new(CommandBus::new());
    register::<CreateUserCommand, _>(&bus, create_user_handler);
    register::<AnotherCommand, _>(&bus, another_command_handler);

    let user_result = execute(
        &bus,
        CreateUserCommand {
            email: "carol@example.com".to_string(),
        },
    )
    .unwrap();
    assert_eq!(user_result, "user-carol@example.com");

    let another_result = execute(&bus, AnotherCommand { value: 42 }).unwrap();
    assert_eq!(another_result, 42);
}

#[test]
fn command_test_handler_can_register_while_running() {
    let bus: Rc<RefCell<CommandBus<ErasedHandler>>> = Rc::new(RefCell::new(CommandBus::new()));
    let inner = bus.clone();
    register::<CreateUserCommand, _>(&bus, move |command: CreateUserCommand| {
        // Registering under the same command type while this handler runs.
        register::<CreateUserCommand, _>(&inner, create_user_handler);
        Ok(format!("user-{}", command.email))
    });

    let result = execute(
        &bus,
        CreateUserCommand {
            email: "dana@example.com".to_string(),
        },
    );
    assert_eq!(result.unwrap(), "user-dana@example.com");
    // The handler registered while running is the one used from now on.
    let again = execute(
        &bus,
        CreateUserCommand {
            email: "eve@example.com".to_string(),
        },
    );
    assert_eq!(again.unwrap(), "user-eve@example.com");
}

#[test]
fn command_reregistration_replaces_handler() {
    let bus = RefCell::new(CommandBus::new());
    register::<AnotherCommand, _>(&bus, another_command_handler);
    register::<AnotherCommand, _>(&bus, |command: AnotherCommand| Ok(command.value + 1));
    assert_eq!(execute(&bus, AnotherCommand { value: 41 }).unwrap(), 42);
}

#[test]
fn command_lookup_routes_by_key() {
    let mut bus: CommandBus<u32> = CommandBus::new();
    assert!(matches!(bus.lookup(5), Err(CommandError::HandlerNotFound)));
    bus.register(5, 50);
    bus.register(7, 70);
    assert_eq!(*bus.lookup(5).unwrap(), 50);
    assert_eq!(*bus.lookup(7).unwrap(), 70);
    assert!(matches!(bus.lookup(6), Err(CommandError::HandlerNotFound)));
    bus.register(5, 55);
    assert_eq!(*bus.lookup(5).unwrap(), 55);
    assert_eq!(*bus.lookup(7).unwrap(), 70);
}

#[test]
fn command_default_bus_is_empty() {
    let bus: CommandBus<u32> = CommandBus::default();
    assert!(matches!(bus.lookup(0), Err(CommandError::HandlerNotFound)));
}

#[test]
fn command_wrong_command_type_is_type_mismatch() {
    let bus = RefCell::new(CommandBus::new());
    // A handler for `AnotherCommand` registered under the key of `CreateUserCommand`.
    bus.borrow_mut().register(
        CreateUserCommand::KEY,
        erase::<AnotherCommand, _>(another_command_handler),
    );
    let err = execute(
        &bus,
        CreateUserCommand {
            email: "erin@example.com".to_string(),
        },
    )
    .unwrap_err();
    match err {
        CommandError::ExecutionFailed(m) => assert_eq!(m, "Type mismatch"),
        other => panic!("unexpected error {:?}", other),
    }
}

#[test]
fn command_wrong_result_type_is_result_type_mismatch() {
    let outcome: Result<Option<u32>, CommandError> = Ok(None);
    match command_execution_result(outcome) {
        Err(CommandError::ExecutionFailed(m)) => assert_eq!(m, "Result type mismatch"),
        other => panic!("unexpected outcome {:?}", other),
    }
}

#[test]
fn command_handler_error_passes_through() {
    let bus = RefCell::new(CommandBus::new());
    register::<AnotherCommand, _>(&bus, |_command: AnotherCommand| {
        Err(CommandError::ValidationError("value too large".to_string()))
    });
    match execute(&bus, AnotherCommand { value: 1 }) {
        Err(CommandError::ValidationError(m)) => assert_eq!(m, "value too large"),
        other => panic!("unexpected outcome {:?}", other),
    }
}

#[test]
fn command_execution_result_passes_value() {
    let outcome: Result<Option<u32>, CommandError> = Ok(Some(7));
    assert_eq!(command_execution_result(outcome).unwrap(), 7);
}

#[test]
fn command_accept_command_keeps_command() {
    let accepted = TypedCommandHandler::<AnotherCommand, u8>::accept_command(Some(AnotherCommand {
        value: 9,
    }));
    assert_eq!(accepted.unwrap().value, 9);
    match TypedCommandHandler::<AnotherCommand, u8>::accept_command(None) {
        Err(CommandError::ExecutionFailed(m)) => assert_eq!(m, "Type mismatch"),
        _ => panic!("expected a type mismatch"),
    }
}

#[test]
fn command_typed_handler_keeps_handler() {
    let typed = TypedCommandHandler::<AnotherCommand, u32>::new(17);
    assert_eq!(*typed.handler(), 17);
}

#[test]
fn command_error_messages() {
    assert_eq!(
        CommandError::ExecutionFailed("boom".to_string()).to_string(),
        "Command execution failed: boom"
    );
    assert_eq!(
        CommandError::HandlerNotFound.to_string(),
        "Handler not found for command"
    );
    assert_eq!(
        CommandError::ValidationError("bad email".to_string()).to_string(),
        "Validation error: bad email"
    );
    assert_eq!(
        CommandError::BusinessRuleViolation("duplicate".to_string()).to_string(),
        "Business rule violation: duplicate"
    );
}
