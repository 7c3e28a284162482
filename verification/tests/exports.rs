use armature_cqrs::{CommandBus, CommandError, QueryBus, QueryError};

#[test]
fn test_module_exports() {
    // Ensure module compiles
    let _commands: CommandBus<u8> = CommandBus::new();
    let _queries: QueryBus<u8> = QueryBus::new();
    let _command_error = CommandError::HandlerNotFound;
    let _query_error = QueryError::HandlerNotFound;
}
