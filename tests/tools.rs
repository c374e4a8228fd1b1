use krokit::bash::{combine_output, failure_message, is_blank, timeout_message, BashTool, BashToolParams, ExecOutcome};
use krokit::capability::{ClaimManager, ToolCapability};
use krokit::tool::{authorize, authorize_value, prepare_call, Rejection, ToolCall, ToolResult, ToolSpec};

fn params(command: &str, timeout: Option<u32>) -> BashToolParams {
    BashToolParams { command: command.to_string(), working_dir: None, env: vec![], timeout }
}

fn meta_value(r: &ToolResult, key: &str) -> Option<String> {
    let m = match r {
        ToolResult::Success { metadata, .. } => metadata,
        ToolResult::Error { metadata, .. } => metadata,
    };
    m.iter().find(|(k, _)| k == key).map(|(_, v)| v.clone())
}

fn spec(name: &str, caps: Vec<ToolCapability>, required: Vec<&str>) -> ToolSpec {
    ToolSpec { name: name.to_string(), capabilities: caps, required: required.into_iter().map(String::from).collect() }
}

#[test]
fn echo_hello_succeeds_with_exit_code_zero() {
    let tool = BashTool::new();
    let p = params("echo hello", None);
    let plan = tool.plan_command(&p).unwrap();
    assert_eq!(plan.program, "bash");
    assert_eq!(plan.args, vec!["-c".to_string(), "echo hello".to_string()]);
    assert!(plan.new_process_group);
    assert_eq!(plan.timeout_secs, None);
    let outcome = ExecOutcome::Exited { stdout: "hello\n".to_string(), stderr: String::new(), exit_code: 0 };
    let r = tool.result_from_outcome(&p, outcome, 3);
    match &r {
        ToolResult::Success { output, .. } => assert_eq!(output, "hello\n"),
        _ => panic!("expected success"),
    }
    assert_eq!(meta_value(&r, "exit_code").as_deref(), Some("0"));
    assert_eq!(meta_value(&r, "success").as_deref(), Some("true"));
    assert_eq!(meta_value(&r, "timeout").as_deref(), Some("none"));
    assert_eq!(meta_value(&r, "command").as_deref(), Some("echo hello"));
}

#[test]
fn sleep_with_timeout_reports_timed_out() {
    let tool = BashTool::new();
    let p = params("sleep 5", Some(1));
    let plan = tool.plan_command(&p).unwrap();
    assert_eq!(plan.timeout_secs, Some(1));
    let outcome = ExecOutcome::TimedOut;
    assert!(outcome.needs_teardown());
    let r = tool.result_from_outcome(&p, outcome, 1000);
    match &r {
        ToolResult::Error { error, .. } => assert!(error.contains("timed out after 1 seconds")),
        _ => panic!("expected error"),
    }
    assert_eq!(meta_value(&r, "success").as_deref(), Some("false"));
    assert_eq!(meta_value(&r, "timeout").as_deref(), Some("1"));
}

#[test]
fn failed_exit_keeps_both_streams_and_env_in_metadata() {
    let tool = BashTool::new();
    let mut p = params("make", None);
    p.env = vec![("CC".to_string(), "clang".to_string())];
    let outcome = ExecOutcome::Exited { stdout: "building".to_string(), stderr: "error".to_string(), exit_code: 1 };
    let r = tool.result_from_outcome(&p, outcome, 5);
    assert_eq!(meta_value(&r, "stdout").as_deref(), Some("building"));
    assert_eq!(meta_value(&r, "stderr").as_deref(), Some("error"));
    assert_eq!(meta_value(&r, "env.CC").as_deref(), Some("clang"));
}

#[test]
fn cancellation_is_a_distinct_error() {
    let tool = BashTool::new();
    let p = params("sleep 5", None);
    assert!(ExecOutcome::Cancelled.needs_teardown());
    let r = tool.result_from_outcome(&p, ExecOutcome::Cancelled, 10);
    assert_eq!(r.message(), "Command was cancelled by user");
    assert!(!r.is_success());
}

#[test]
fn nonzero_exit_is_an_error_with_both_streams() {
    let tool = BashTool::new();
    let p = params("grep x y", None);
    let outcome = ExecOutcome::Exited { stdout: String::new(), stderr: "no such file".to_string(), exit_code: 2 };
    assert!(!outcome.needs_teardown());
    let r = tool.result_from_outcome(&p, outcome, 5);
    assert_eq!(r.message(), "Command failed with exit code 2: no such file");
    assert_eq!(meta_value(&r, "exit_code").as_deref(), Some("2"));
    assert_eq!(meta_value(&r, "has_stderr").as_deref(), Some("true"));
    assert_eq!(meta_value(&r, "stderr_length").as_deref(), Some("12"));
    let quiet = ExecOutcome::Exited { stdout: "out".to_string(), stderr: String::new(), exit_code: -1 };
    let r = tool.result_from_outcome(&p, quiet, 5);
    assert_eq!(r.message(), "Command failed with exit code -1");
}

#[test]
fn blank_command_is_refused() {
    let tool = BashTool::new();
    assert_eq!(tool.plan_command(&params("  \t\n", None)).unwrap_err(), "Command cannot be empty");
    assert!(tool.plan_command(&params("", None)).is_err());
    assert!(is_blank(" \u{2003}\n"));
    assert!(!is_blank(" ls "));
}

#[test]
fn outputs_merge_with_separator() {
    assert_eq!(combine_output("a".to_string(), "b".to_string()), "a\n--- STDERR ---\nb");
    assert_eq!(combine_output("a".to_string(), String::new()), "a");
    assert_eq!(combine_output(String::new(), "b".to_string()), "b");
    assert_eq!(failure_message(127, ""), "Command failed with exit code 127");
    assert_eq!(timeout_message(30), "Command timed out after 30 seconds");
}

#[test]
fn bash_declares_every_capability() {
    let caps = BashTool::new().capabilities();
    assert_eq!(caps, vec![ToolCapability::Read, ToolCapability::Write, ToolCapability::Network]);
}

#[test]
fn write_tool_is_refused_without_write_claim() {
    let mut claims = ClaimManager::new();
    claims.grant(ToolCapability::Read);
    let writer = spec("write", vec![ToolCapability::Read, ToolCapability::Write], vec![]);
    match authorize(&writer, &claims, &vec![]) {
        Err(Rejection::Unauthorized(c)) => assert_eq!(c, ToolCapability::Write),
        _ => panic!("expected a refusal"),
    }
    let reader = spec("read", vec![ToolCapability::Read], vec![]);
    assert!(authorize(&reader, &claims, &vec![]).is_ok());
}

#[test]
fn read_only_tool_is_rejected_before_running_under_checked_claims() {
    let claims = ClaimManager::new();
    let tools = vec![spec("read", vec![ToolCapability::Read], vec!["path"])];
    let call = ToolCall {
        tool_call_id: "c1".to_string(),
        tool_name: "read".to_string(),
        parameters: serde_json::from_str("{\"path\": \"a.txt\"}").unwrap(),
    };
    let r = prepare_call(&tools, &claims, &call).unwrap_err();
    assert_eq!(r.message(), "Permission denied: the tool requires the Read capability");
}

#[test]
fn sudo_bypasses_checks_and_freezes_policy() {
    let mut claims = ClaimManager::new();
    claims.sudo();
    assert!(claims.is_sudo());
    assert!(claims.allows(ToolCapability::Network));
    claims.grant(ToolCapability::Write);
    assert!(!claims.is_granted(ToolCapability::Write));
    let tool = spec("bash", vec![ToolCapability::Read, ToolCapability::Write, ToolCapability::Network], vec![]);
    assert!(authorize(&tool, &claims, &vec![]).is_ok());
}

#[test]
fn grant_and_revoke_change_one_capability() {
    let mut claims = ClaimManager::new();
    claims.grant(ToolCapability::Network);
    assert!(claims.allows(ToolCapability::Network));
    assert!(!claims.allows(ToolCapability::Read));
    claims.revoke(ToolCapability::Network);
    assert!(!claims.allows(ToolCapability::Network));
    assert_eq!(claims.first_denied(&vec![ToolCapability::Read]), Some(ToolCapability::Read));
}

#[test]
fn parameters_are_checked_against_the_schema_first() {
    let claims = ClaimManager::new();
    let tool = spec("fetch", vec![ToolCapability::Network], vec!["url"]);
    let missing: serde_json::Value = serde_json::from_str("{\"timeout\": 3}").unwrap();
    match authorize_value(&tool, &claims, &missing) {
        Err(Rejection::MissingParameter(name)) => assert_eq!(name, "url"),
        _ => panic!("expected a missing parameter"),
    }
    let not_object: serde_json::Value = serde_json::from_str("[1, 2]").unwrap();
    assert!(matches!(authorize_value(&tool, &claims, &not_object), Err(Rejection::NotAnObject)));
    let r = Rejection::MissingParameter("url".to_string()).to_result();
    assert_eq!(r.message(), "Invalid parameters: missing required field url");
}

#[test]
fn unknown_tool_is_an_error_result() {
    let claims = ClaimManager::new();
    let call = ToolCall {
        tool_call_id: "c2".to_string(),
        tool_name: "nope".to_string(),
        parameters: serde_json::from_str("{}").unwrap(),
    };
    let r = prepare_call(&vec![], &claims, &call).unwrap_err();
    assert_eq!(r.message(), "Unknown tool: nope");
}
