use swiboe::plugin_core::{
    core_function, handle_core_call, Command, CoreFunction, CoreRequest, ErrorKind,
    NewRpcRequest, RpcResult,
};

#[test]
fn core_functions_are_recognised() {
    assert_eq!(core_function("core.exit"), Some(CoreFunction::Exit));
    assert_eq!(core_function("core.new_rpc"), Some(CoreFunction::NewRpc));
}

#[test]
fn other_functions_are_not_core_functions() {
    assert_eq!(core_function("core.exi"), None);
    assert_eq!(core_function("core.exit "), None);
    assert_eq!(core_function("core.new"), None);
    assert_eq!(core_function(""), None);
    assert_eq!(core_function("test.test"), None);
}

#[test]
fn exit_quits_and_succeeds() {
    let outcome = handle_core_call(3, "ctx".to_string(), CoreRequest::Exit);
    assert!(matches!(outcome.command, Some(Command::Quit)));
    assert!(matches!(outcome.reply, Some(RpcResult::Success)));
}

#[test]
fn new_rpc_registers_without_answering() {
    let request = NewRpcRequest { priority: 50, name: "test.test".to_string() };
    let outcome = handle_core_call(7, "ctx-1".to_string(), CoreRequest::NewRpc(Ok(request)));
    match outcome.command {
        Some(Command::NewRpc(caller, context, name, priority)) => {
            assert_eq!(caller, 7);
            assert_eq!(context, "ctx-1");
            assert_eq!(name, "test.test");
            assert_eq!(priority, 50);
        }
        other => panic!("unexpected command {:?}", other),
    }
    assert!(outcome.reply.is_none());
}

#[test]
fn new_rpc_invalid_args_answers_with_error() {
    let outcome = handle_core_call(
        1,
        "ctx".to_string(),
        CoreRequest::NewRpc(Err("missing field `priority`".to_string())),
    );
    assert!(outcome.command.is_none());
    match outcome.reply {
        Some(RpcResult::Failed(error)) => {
            assert_eq!(error.kind, ErrorKind::InvalidArgs);
            assert_eq!(error.details.as_deref(), Some("missing field `priority`"));
        }
        other => panic!("unexpected reply {:?}", other),
    }
}

#[test]
fn unknown_function_is_answered_with_unknown_rpc() {
    let request = match core_function("core.reboot") {
        Some(_) => panic!("core.reboot is not a core function"),
        None => CoreRequest::Unknown,
    };
    let outcome = handle_core_call(2, "ctx".to_string(), request);
    assert!(outcome.command.is_none());
    match outcome.reply {
        Some(RpcResult::Failed(error)) => {
            assert_eq!(error.kind, ErrorKind::UnknownRpc);
            assert!(error.details.is_none());
        }
        other => panic!("unexpected reply {:?}", other),
    }
}
