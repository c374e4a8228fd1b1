use krokit::agent::{AgentAction, AgentBuilder, AgentCore, AgentEvent, AgentState, BrainStep, ChatMessage};
use krokit::capability::{ClaimManager, ToolCapability};
use krokit::toolset::{builtin_tools, gather_tools, select_mcp_tools, BuiltinTool};
use krokit::tool::{ToolCall, ToolResult, ToolSpec};

fn call(id: &str, name: &str) -> ToolCall {
    ToolCall { tool_call_id: id.to_string(), tool_name: name.to_string(), parameters: serde_json::from_str("{}").unwrap() }
}

fn spec(name: &str, caps: Vec<ToolCapability>) -> ToolSpec {
    ToolSpec { name: name.to_string(), capabilities: caps, required: vec![] }
}

fn agent() -> AgentCore {
    let mut claims = ClaimManager::new();
    claims.sudo();
    let tools = vec![
        spec("bash", vec![ToolCapability::Read, ToolCapability::Write, ToolCapability::Network]),
        spec("read", vec![ToolCapability::Read]),
        spec("ls", vec![ToolCapability::Read]),
    ];
    AgentCore::new("s".to_string(), vec![ChatMessage::User { content: "hi".to_string() }], tools, claims)
}

fn names(v: &[&str]) -> Vec<String> {
    v.iter().map(|s| s.to_string()).collect()
}

#[test]
fn text_without_tool_calls_goes_to_goal_check() {
    let mut a = agent();
    assert!(matches!(a.next_action(), AgentAction::AskBrain));
    a.on_brain_step(BrainStep::Text { content: "done".to_string() });
    assert_eq!(a.state, AgentState::CheckingGoal);
    assert!(matches!(a.next_action(), AgentAction::CheckGoal));
    assert_eq!(a.trace.len(), 2);
    let events = a.drain_events();
    assert!(!events.iter().any(|e| matches!(e, AgentEvent::ToolDispatched { .. })));
    a.on_goal_decision(true);
    assert_eq!(a.state, AgentState::Terminated);
    assert!(matches!(a.next_action(), AgentAction::Stop));
}

#[test]
fn goal_check_may_send_the_loop_back() {
    let mut a = agent();
    a.on_brain_step(BrainStep::ToolCalls { content: Some("thinking".to_string()), calls: vec![] });
    assert_eq!(a.state, AgentState::CheckingGoal);
    a.on_goal_decision(false);
    assert_eq!(a.state, AgentState::AwaitingStep);
}

#[test]
fn results_follow_proposal_order_not_completion_order() {
    let mut a = agent();
    a.on_brain_step(BrainStep::ToolCalls {
        content: None,
        calls: vec![call("c0", "bash"), call("c1", "read"), call("c2", "ls")],
    });
    assert_eq!(a.state, AgentState::ExecutingTools);
    match a.next_action() {
        AgentAction::RunTools { calls } => {
            let ids: Vec<(usize, String)> = calls.iter().map(|(i, c)| (*i, c.tool_call_id.clone())).collect();
            assert_eq!(ids, vec![(0, "c0".to_string()), (1, "c1".to_string()), (2, "c2".to_string())]);
        }
        _ => panic!("expected tool runs"),
    }
    a.on_tool_result(2, ToolResult::success("third".to_string()));
    assert_eq!(a.state, AgentState::ExecutingTools);
    a.on_tool_result(0, ToolResult::error("first failed".to_string()));
    a.on_tool_result(1, ToolResult::success("second".to_string()));
    assert_eq!(a.state, AgentState::AwaitingStep);
    let tail: Vec<(String, String)> = a.trace[2..]
        .iter()
        .map(|m| match m {
            ChatMessage::Tool { tool_call_id, content } => (tool_call_id.clone(), content.clone()),
            _ => panic!("expected tool entries"),
        })
        .collect();
    assert_eq!(
        tail,
        vec![
            ("c0".to_string(), "first failed".to_string()),
            ("c1".to_string(), "second".to_string()),
            ("c2".to_string(), "third".to_string()),
        ]
    );
}

#[test]
fn brain_error_and_cancel_end_the_run() {
    let mut a = agent();
    a.on_brain_error("provider down".to_string());
    assert_eq!(a.state, AgentState::Terminated);
    let mut b = agent();
    b.on_brain_step(BrainStep::ToolCalls { content: None, calls: vec![call("c0", "bash")] });
    b.cancel();
    assert_eq!(b.state, AgentState::Terminated);
    assert!(b.drain_events().len() > 0);
    assert_eq!(b.drain_events().len(), 0);
}

#[test]
fn builder_appends_goal_and_applies_sudo() {
    let b = AgentBuilder::new();
    assert_eq!(b.session_id.len(), 36);
    let core = b.id("agent-x").goal("fix the bug").with_traces(vec![]).tools(vec![spec("ls", vec![])]).sudo().build();
    assert_eq!(core.tools.len(), 1);
    assert!(core.check_goal);
    assert_eq!(core.session_id, "agent-x");
    assert!(core.permissions.is_sudo());
    assert_eq!(core.trace.len(), 1);
    assert!(matches!(&core.trace[0], ChatMessage::User { content } if content == "fix the bug"));
}

#[test]
fn builtin_tool_names() {
    assert_eq!(builtin_tools(&names(&["*"])).unwrap().len(), 10);
    assert_eq!(builtin_tools(&names(&["ls", "bash"])).unwrap(), vec![BuiltinTool::Ls, BuiltinTool::Bash]);
    assert_eq!(builtin_tools(&names(&["ls", "rm"])).unwrap_err(), "Unknown builtin tool: rm");
}

#[test]
fn mcp_tool_selection() {
    let offered = names(&["fetch", "search", "crawl"]);
    assert_eq!(select_mcp_tools(&offered, &names(&["*"]), "web").unwrap(), vec![0, 1, 2]);
    assert_eq!(select_mcp_tools(&offered, &names(&["crawl", "fetch"]), "web").unwrap(), vec![0, 2]);
    assert_eq!(
        select_mcp_tools(&offered, &names(&["fetch", "post"]), "web").unwrap_err(),
        "Tool 'post' not found in MCP client 'web'"
    );
}

#[test]
fn denied_capability_yields_error_entry_and_is_never_dispatched() {
    let mut claims = ClaimManager::new();
    claims.grant(ToolCapability::Read);
    let tools = vec![spec("write", vec![ToolCapability::Write]), spec("read", vec![ToolCapability::Read])];
    let mut a = AgentCore::new("s".to_string(), vec![], tools, claims);
    a.on_brain_step(BrainStep::ToolCalls { content: None, calls: vec![call("w", "write"), call("r", "read")] });
    match a.next_action() {
        AgentAction::RunTools { calls } => {
            assert_eq!(calls.len(), 1);
            assert_eq!(calls[0].0, 1);
            assert_eq!(calls[0].1.tool_call_id, "r");
        }
        _ => panic!("expected the read call only"),
    }
    a.on_tool_result(1, ToolResult::success("contents".to_string()));
    assert_eq!(a.state, AgentState::AwaitingStep);
    match &a.trace[1] {
        ChatMessage::Tool { tool_call_id, content } => {
            assert_eq!(tool_call_id, "w");
            assert_eq!(content, "Permission denied: the tool requires the Write capability");
        }
        _ => panic!("expected the refusal entry"),
    }
}

#[test]
fn every_call_refused_goes_back_to_the_brain() {
    let tools = vec![spec("write", vec![ToolCapability::Write])];
    let mut a = AgentCore::new("s".to_string(), vec![], tools, ClaimManager::new());
    a.on_brain_step(BrainStep::ToolCalls { content: None, calls: vec![call("w", "write"), call("x", "nope")] });
    assert_eq!(a.state, AgentState::AwaitingStep);
    assert_eq!(a.trace.len(), 3);
    assert!(matches!(&a.trace[2], ChatMessage::Tool { content, .. } if content == "Unknown tool: nope"));
}

#[test]
fn server_failures_are_fatal_only_without_tools() {
    let ok = gather_tools(&names(&["bash"]), &vec![Err("refused".to_string()), Ok(names(&["fetch"]))]).unwrap();
    assert_eq!(ok.0, names(&["bash", "fetch"]));
    assert_eq!(ok.1, names(&["refused"]));
    assert_eq!(gather_tools(&vec![], &vec![Err("down".to_string())]).unwrap_err(), "No tools available: down");
    assert!(gather_tools(&vec![], &vec![]).unwrap().0.is_empty());
}
