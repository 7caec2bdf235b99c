use codex_tasks::rpc::{RpcMethod, ToolKind};

#[test]
fn request_methods() {
    assert_eq!(RpcMethod::from_name("initialize"), Some(RpcMethod::Initialize));
    assert_eq!(RpcMethod::from_name("tools/call"), Some(RpcMethod::ToolsCall));
    assert_eq!(RpcMethod::from_name("tools/list"), Some(RpcMethod::ToolsList));
    assert_eq!(RpcMethod::from_name("ping"), Some(RpcMethod::Ping));
    assert_eq!(RpcMethod::from_name("shutdown"), Some(RpcMethod::Shutdown));
    assert_eq!(RpcMethod::from_name("resources/list"), None);
}

#[test]
fn tool_names() {
    let names: Vec<&str> = ToolKind::all().iter().map(|t| t.name()).collect();
    assert_eq!(
        names,
        vec!["task.start", "task.send", "task.status", "task.list", "task.log", "task.stop", "task.archive"]
    );
    for kind in ToolKind::all() {
        assert_eq!(ToolKind::from_name(kind.name()), Some(kind));
    }
    assert_eq!(ToolKind::from_name("task.delete"), None);
}
