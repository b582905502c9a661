use vstd::prelude::*;
use vstd::string::StrSliceExecFns;

verus! {

/// The identifier of a connected client.
pub type ClientId = usize;

/// The arguments of `core.new_rpc`: the RPC to register and its priority.
#[derive(Debug)]
pub struct NewRpcRequest {
    pub priority: u16,
    pub name: String,
}

/// A command for the server.
#[derive(Debug)]
pub enum Command {
    /// Shut the server down.
    Quit,
    /// Register an RPC for a client: the caller, the call's context, the RPC's name and its
    /// priority.
    NewRpc(ClientId, String, String, u16),
}

/// The kinds of errors an RPC can answer with.
#[derive(Debug, Clone, Copy, PartialEq, Eq, Structural)]
pub enum ErrorKind {
    /// No RPC of that name is known.
    UnknownRpc,
    /// The arguments could not be read.
    InvalidArgs,
}

/// An error an RPC answers with, and what more is known of it.
#[derive(Debug)]
pub struct RpcError {
    pub kind: ErrorKind,
    pub details: Option<String>,
}

/// The answer of a core function.
#[derive(Debug)]
pub enum RpcResult {
    /// Done, with nothing to hand back.
    Success,
    /// Failed with an error.
    Failed(RpcError),
}

/// The functions the core plugin provides.
#[derive(Debug, Clone, Copy, PartialEq, Eq, Structural)]
pub enum CoreFunction {
    /// `core.exit`
    Exit,
    /// `core.new_rpc`
    NewRpc,
}

/// The core function that an RPC of this name calls, if any.
pub open spec fn core_function_named(function: Seq<char>) -> Option<CoreFunction> {
    if function == "core.exit"@ {
        Some(CoreFunction::Exit)
    } else if function == "core.new_rpc"@ {
        Some(CoreFunction::NewRpc)
    } else {
        None
    }
}

/// A call of the core plugin, with the arguments of `core.new_rpc` as they were read: the
/// request, or why it could not be read.
pub enum CoreRequest {
    Exit,
    NewRpc(Result<NewRpcRequest, String>),
    /// A function that the core plugin does not provide.
    Unknown,
}

/// What the core plugin does with a call: the command it sends to the server, if any, and the
/// answer to the caller, if it answers at once.
pub struct CoreOutcome {
    pub command: Option<Command>,
    pub reply: Option<RpcResult>,
}

/// Whether two strings hold the same characters.
fn str_equal(a: &str, b: &str) -> (res: bool)
    ensures
        res == (a@ == b@),
{
    let len = a.unicode_len();
    if len != b.unicode_len() {
        return false;
    }
    let mut i: usize = 0;
    while i < len
        invariant
            i <= len,
            len == a@.len(),
            len == b@.len(),
            a@.take(i as int) == b@.take(i as int),
        decreases len - i,
    {
        if a.get_char(i) != b.get_char(i) {
            assert(a@[i as int] != b@[i as int]);
            return false;
        }
        assert(a@.take(i + 1) =~= a@.take(i as int).push(a@[i as int]));
        assert(b@.take(i + 1) =~= b@.take(i as int).push(b@[i as int]));
        i = i + 1;
    }
    assert(a@.take(len as int) =~= a@);
    assert(b@.take(len as int) =~= b@);
    true
}

/// The core function an RPC named `function` calls, if it is one.
pub fn core_function(function: &str) -> (res: Option<CoreFunction>)
    ensures
        res == core_function_named(function@),
{
    if str_equal(function, "core.exit") {
        Some(CoreFunction::Exit)
    } else if str_equal(function, "core.new_rpc") {
        Some(CoreFunction::NewRpc)
    } else {
        None
    }
}

/// Decides what a call of the core plugin from `caller`, in `context`, does. A function that
/// the plugin does not provide is answered with `UnknownRpc`.
pub fn handle_core_call(caller: ClientId, context: String, request: CoreRequest) -> (res:
    CoreOutcome)
    ensures
        match request {
            CoreRequest::Exit => {
                &&& res.command == Some(Command::Quit)
                &&& res.reply == Some(RpcResult::Success)
            },
            CoreRequest::NewRpc(Ok(args)) => {
                &&& res.command == Some(Command::NewRpc(caller, context, args.name, args.priority))
                &&& res.reply is None
            },
            CoreRequest::NewRpc(Err(reason)) => {
                &&& res.command is None
                &&& res.reply == Some(
                    RpcResult::Failed(RpcError { kind: ErrorKind::InvalidArgs, details: Some(reason) }),
                )
            },
            CoreRequest::Unknown => {
                &&& res.command is None
                &&& res.reply == Some(
                    RpcResult::Failed(RpcError { kind: ErrorKind::UnknownRpc, details: None }),
                )
            },
        },
{
    match request {
        CoreRequest::Exit => CoreOutcome {
            command: Some(Command::Quit),
            reply: Some(RpcResult::Success),
        },
        CoreRequest::NewRpc(Ok(args)) => CoreOutcome {
            command: Some(Command::NewRpc(caller, context, args.name, args.priority)),
            reply: None,
        },
        CoreRequest::NewRpc(Err(reason)) => CoreOutcome {
            command: None,
            reply: Some(
                RpcResult::Failed(RpcError { kind: ErrorKind::InvalidArgs, details: Some(reason) }),
            ),
        },
        CoreRequest::Unknown => CoreOutcome {
            command: None,
            reply: Some(RpcResult::Failed(RpcError { kind: ErrorKind::UnknownRpc, details: None })),
        },
    }
}

} // verus!
