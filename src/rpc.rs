use vstd::prelude::*;

use crate::task::str_eq;

verus! {

/// The JSON-RPC requests the tool server answers.
#[derive(Clone, Copy, Debug, PartialEq, Eq, Structural)]
pub enum RpcMethod {
    Initialize,
    Ping,
    Shutdown,
    ToolsList,
    ToolsCall,
}

/// The tools the server offers, one per task operation.
#[derive(Clone, Copy, Debug, PartialEq, Eq, Structural)]
pub enum ToolKind {
    Start,
    Send,
    Status,
    List,
    Log,
    Stop,
    Archive,
}

pub open spec fn method_name(m: RpcMethod) -> Seq<char> {
    match m {
        RpcMethod::Initialize => "initialize"@,
        RpcMethod::Ping => "ping"@,
        RpcMethod::Shutdown => "shutdown"@,
        RpcMethod::ToolsList => "tools/list"@,
        RpcMethod::ToolsCall => "tools/call"@,
    }
}

pub open spec fn tool_name(t: ToolKind) -> Seq<char> {
    match t {
        ToolKind::Start => "task.start"@,
        ToolKind::Send => "task.send"@,
        ToolKind::Status => "task.status"@,
        ToolKind::List => "task.list"@,
        ToolKind::Log => "task.log"@,
        ToolKind::Stop => "task.stop"@,
        ToolKind::Archive => "task.archive"@,
    }
}

impl RpcMethod {
    /// The request method name.
    pub fn name(&self) -> (r: &'static str)
        ensures
            r@ == method_name(*self),
    {
        match self {
            RpcMethod::Initialize => "initialize",
            RpcMethod::Ping => "ping",
            RpcMethod::Shutdown => "shutdown",
            RpcMethod::ToolsList => "tools/list",
            RpcMethod::ToolsCall => "tools/call",
        }
    }

    /// The method a request names, if the server answers it.
    pub fn from_name(name: &str) -> (r: Option<RpcMethod>)
        ensures
            r matches Some(m) ==> method_name(m) == name@,
            r is None ==> forall|m: RpcMethod| method_name(m) != name@,
    {
        let all = [RpcMethod::Initialize, RpcMethod::Ping, RpcMethod::Shutdown, RpcMethod::ToolsList, RpcMethod::ToolsCall];
        let mut i: usize = 0;
        while i < 5
            invariant
                i <= 5,
                all@ == seq![RpcMethod::Initialize, RpcMethod::Ping, RpcMethod::Shutdown, RpcMethod::ToolsList, RpcMethod::ToolsCall],
                forall|j: int| 0 <= j < i ==> method_name(#[trigger] all@[j]) != name@,
            decreases 5 - i,
        {
            if str_eq(all[i].name(), name) {
                return Some(all[i]);
            }
            i = i + 1;
        }
        proof {
            assert forall|m: RpcMethod| method_name(m) != name@ by {
                match m {
                    RpcMethod::Initialize => assert(all@[0] == m),
                    RpcMethod::Ping => assert(all@[1] == m),
                    RpcMethod::Shutdown => assert(all@[2] == m),
                    RpcMethod::ToolsList => assert(all@[3] == m),
                    RpcMethod::ToolsCall => assert(all@[4] == m),
                }
            }
        }
        None
    }
}

impl ToolKind {
    /// The tool's name.
    pub fn name(&self) -> (r: &'static str)
        ensures
            r@ == tool_name(*self),
    {
        match self {
            ToolKind::Start => "task.start",
            ToolKind::Send => "task.send",
            ToolKind::Status => "task.status",
            ToolKind::List => "task.list",
            ToolKind::Log => "task.log",
            ToolKind::Stop => "task.stop",
            ToolKind::Archive => "task.archive",
        }
    }

    /// Every tool, in the order the server lists them.
    pub fn all() -> (r: Vec<ToolKind>)
        ensures
            r@ == seq![ToolKind::Start, ToolKind::Send, ToolKind::Status, ToolKind::List, ToolKind::Log, ToolKind::Stop, ToolKind::Archive],
    {
        vec![ToolKind::Start, ToolKind::Send, ToolKind::Status, ToolKind::List, ToolKind::Log, ToolKind::Stop, ToolKind::Archive]
    }

    /// The tool a call names, if there is one.
    pub fn from_name(name: &str) -> (r: Option<ToolKind>)
        ensures
            r matches Some(t) ==> tool_name(t) == name@,
            r is None ==> forall|t: ToolKind| tool_name(t) != name@,
    {
        let all = ToolKind::all();
        let mut i: usize = 0;
        while i < all.len()
            invariant
                i <= all@.len(),
                all@ == seq![ToolKind::Start, ToolKind::Send, ToolKind::Status, ToolKind::List, ToolKind::Log, ToolKind::Stop, ToolKind::Archive],
                forall|j: int| 0 <= j < i ==> tool_name(#[trigger] all@[j]) != name@,
            decreases all@.len() - i,
        {
            if str_eq(all[i].name(), name) {
                return Some(all[i]);
            }
            i = i + 1;
        }
        proof {
            assert forall|t: ToolKind| tool_name(t) != name@ by {
                match t {
                    ToolKind::Start => assert(all@[0] == t),
                    ToolKind::Send => assert(all@[1] == t),
                    ToolKind::Status => assert(all@[2] == t),
                    ToolKind::List => assert(all@[3] == t),
                    ToolKind::Log => assert(all@[4] == t),
                    ToolKind::Stop => assert(all@[5] == t),
                    ToolKind::Archive => assert(all@[6] == t),
                }
            }
        }
        None
    }
}

} // verus!
