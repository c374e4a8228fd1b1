use krokit::mcp::{
    create_mcp_client, project_content, remote_result, wrap_tools, AnyMcpClient, ContentPart, HttpClient, McpClient,
    McpConfig, McpToolDescription, StdioClient,
};
use krokit::oauth::{
    callback_url, check_callback, discover_endpoints, registration_body, well_known_url, CallbackOutcome, FlowAction,
    FlowEvent, FlowPhase, OAuthError, OAuthFlow,
};

fn query(pairs: &[(&str, &str)]) -> Vec<(String, String)> {
    pairs.iter().map(|(k, v)| (k.to_string(), v.to_string())).collect()
}

#[test]
fn test_mcp_config_factory() {
    let stdio_config = McpConfig::Stdio { command: "echo".to_string(), args: vec!["hello".to_string()] };
    match create_mcp_client(stdio_config) {
        AnyMcpClient::Stdio(c) => {
            assert_eq!(c.command, "echo");
            assert_eq!(c.args, vec!["hello".to_string()]);
        }
        _ => panic!("expected a stdio client"),
    }
    let http_config = McpConfig::Http { url: "http://localhost:8080".to_string(), bearer_token: None };
    match create_mcp_client(http_config) {
        AnyMcpClient::Http(c) => assert_eq!(c.url, "http://localhost:8080"),
        _ => panic!("expected an http client"),
    }
    let sse_config = McpConfig::Sse { url: "http://localhost:8080/sse".to_string() };
    match create_mcp_client(sse_config) {
        AnyMcpClient::Sse(c) => assert_eq!(c.url, "http://localhost:8080/sse"),
        _ => panic!("expected an sse client"),
    }
}

#[test]
fn connect_twice_opens_one_session() {
    let mut client = create_mcp_client(McpConfig::Sse { url: "http://localhost:8000/sse".to_string() });
    assert!(client.needs_connect());
    client.mark_connected();
    assert!(!client.needs_connect());
    assert!(client.disconnect());
    assert!(client.needs_connect());
}

#[test]
fn disconnect_without_connect_cancels_nothing() {
    let mut client = StdioClient::new("nonexistent-command".to_string(), vec![]);
    assert!(!client.is_connected());
    assert!(!client.disconnect());
    assert!(!client.disconnect());
}

#[test]
fn failed_connect_leaves_client_unconnected() {
    // a spawn failure never records a session, so listing is never reached
    let client = StdioClient::new("nonexistent-command".to_string(), vec![]);
    assert!(client.needs_connect());
    assert!(!client.is_connected());
}

#[test]
fn bearer_token_becomes_authorization_header() {
    let c = HttpClient::new_with_auth("https://localhost:8000/mcp".to_string(), Some("TEST_BEARER".to_string()));
    assert_eq!(c.authorization_header().as_deref(), Some("Bearer TEST_BEARER"));
    assert_eq!(HttpClient::new("u".to_string()).authorization_header(), None);
}

#[test]
fn config_descriptions() {
    let a = McpConfig::Http { url: "http://h".to_string(), bearer_token: Some("t".to_string()) };
    assert_eq!(a.describe(), "http: http://h (authenticated)");
    let b = McpConfig::Http { url: "http://h".to_string(), bearer_token: None };
    assert_eq!(b.describe(), "http: http://h");
    let c = McpConfig::Stdio { command: "uvx".to_string(), args: vec!["x".to_string()] };
    assert_eq!(c.describe(), "stdio: uvx");
    let d = McpConfig::Sse { url: "http://s".to_string() };
    assert_eq!(d.describe(), "sse: http://s");
}

#[test]
fn remote_output_is_projected_to_text() {
    let parts = vec![
        ContentPart::Text("hello".to_string()),
        ContentPart::Image { bytes: 1024 },
        ContentPart::Resource,
        ContentPart::Audio { bytes: 7 },
    ];
    assert_eq!(project_content(&parts), "hello\n[Image: 1024 bytes]\n[Resource]\n[Audio: 7 bytes]");
    assert_eq!(project_content(&vec![]), "");
    let r = remote_result(&vec![ContentPart::Text("x".to_string())], false);
    assert!(r.is_success());
    assert_eq!(r.message(), "x");
    let e = remote_result(&vec![ContentPart::Text("bad url".to_string())], true);
    assert!(!e.is_success());
    assert_eq!(e.message(), "bad url");
}

#[test]
fn wrapped_tools_carry_server_name_and_network_only() {
    let desc = McpToolDescription {
        name: "fetch".to_string(),
        description: "Fetches a URL".to_string(),
        parameters_schema: serde_json::from_str("{\"type\": \"object\"}").unwrap(),
    };
    let tools = wrap_tools(vec![desc], "web");
    assert_eq!(tools.len(), 1);
    assert_eq!(tools[0].name(), "fetch");
    assert_eq!(tools[0].group(), "web");
    assert_eq!(tools[0].capabilities(), vec![krokit::capability::ToolCapability::Network]);
    let call = tools[0].new_call(serde_json::from_str("{\"url\": \"https://ovhcloud.com\"}").unwrap());
    assert!(call.tool_call_id.starts_with("mcp-"));
    assert_eq!(call.tool_call_id.len(), 40);
    assert_eq!(call.tool_name, "fetch");
    let other = tools[0].new_call(serde_json::from_str("{}").unwrap());
    assert_ne!(call.tool_call_id, other.tool_call_id);
    assert_eq!(tools[0].failed_call("closed").message(), "MCP tool execution failed: closed");
}

#[test]
fn well_known_url_drops_trailing_slashes() {
    assert_eq!(
        well_known_url("https://mcp.eu.ovhcloud.com/"),
        "https://mcp.eu.ovhcloud.com/.well-known/oauth-authorization-server"
    );
    assert_eq!(well_known_url("http://a//"), "http://a/.well-known/oauth-authorization-server");
    assert_eq!(well_known_url("http://a"), "http://a/.well-known/oauth-authorization-server");
}

#[test]
fn discovery_names_the_missing_endpoint() {
    let doc = "{\"authorization_endpoint\": \"https://a/auth\", \"token_endpoint\": \"https://a/token\"}";
    assert!(matches!(discover_endpoints(doc), Err(OAuthError::MissingRegistrationEndpoint)));
    let doc = "{\"token_endpoint\": \"https://a/token\"}";
    assert!(matches!(discover_endpoints(doc), Err(OAuthError::MissingAuthorizationEndpoint)));
    let doc = "{\"authorization_endpoint\": \"x\"}";
    assert!(matches!(discover_endpoints(doc), Err(OAuthError::MissingTokenEndpoint)));
    assert!(matches!(discover_endpoints("not json"), Err(OAuthError::InvalidMetadata)));
    assert!(matches!(discover_endpoints("[1]"), Err(OAuthError::MissingAuthorizationEndpoint)));
    let doc = "{\"authorization_endpoint\": \"A\", \"token_endpoint\": \"T\", \"registration_endpoint\": \"R\"}";
    let e = discover_endpoints(doc).unwrap();
    assert_eq!((e.authorization.as_str(), e.token.as_str(), e.registration.as_str()), ("A", "T", "R"));
    assert_eq!(OAuthError::MissingRegistrationEndpoint.message(), "No registration_endpoint in OAuth metadata");
}

#[test]
fn oauth_flow_aborts_without_registration_endpoint() {
    let mut flow = OAuthFlow::new();
    match flow.step(FlowEvent::Begin { base_url: "https://mcp.example/".to_string() }) {
        FlowAction::FetchMetadata { url } => {
            assert_eq!(url, "https://mcp.example/.well-known/oauth-authorization-server")
        }
        _ => panic!("expected a metadata fetch"),
    }
    let doc = "{\"authorization_endpoint\": \"https://a/auth\", \"token_endpoint\": \"https://a/token\"}";
    match flow.step(FlowEvent::MetadataFetched { document: doc.to_string() }) {
        FlowAction::Abort { error } => assert!(matches!(error, OAuthError::MissingRegistrationEndpoint)),
        _ => panic!("expected an abort, with no listener bound"),
    }
    assert!(matches!(flow.phase, FlowPhase::Failed));
    assert!(matches!(flow.step(FlowEvent::ListenerBound { port: 4000 }), FlowAction::Abort { .. }));
}

#[test]
fn oauth_flow_runs_to_a_token() {
    let mut flow = OAuthFlow::new();
    flow.step(FlowEvent::Begin { base_url: "https://s".to_string() });
    let doc = "{\"authorization_endpoint\": \"A\", \"token_endpoint\": \"T\", \"registration_endpoint\": \"R\"}";
    assert!(matches!(flow.step(FlowEvent::MetadataFetched { document: doc.to_string() }), FlowAction::BindListener));
    match flow.step(FlowEvent::ListenerBound { port: 4567 }) {
        FlowAction::RegisterClient { endpoint, body } => {
            assert_eq!(endpoint, "R");
            assert!(body.contains("http://127.0.0.1:4567/callback"));
        }
        _ => panic!("expected registration"),
    }
    match flow.step(FlowEvent::Registered { response: "{\"client_id\": \"cid\"}".to_string() }) {
        FlowAction::OpenAuthorization { authorization_endpoint, token_endpoint, client, redirect_url } => {
            assert_eq!(client.client_id, "cid");
            assert_eq!(authorization_endpoint, "A");
            assert_eq!(token_endpoint, "T");
            assert_eq!(client.client_id, "cid");
            assert_eq!(client.client_secret, None);
            assert_eq!(redirect_url, "http://127.0.0.1:4567/callback");
        }
        _ => panic!("expected the browser step"),
    }
    assert!(matches!(
        flow.step(FlowEvent::AuthorizationOpened { csrf_state: "st".to_string() }),
        FlowAction::AwaitCallback { port: 4567 }
    ));
    match flow.step(FlowEvent::CallbackReceived { query: query(&[("code", "abc"), ("state", "st")]) }) {
        FlowAction::ExchangeCode { code } => assert_eq!(code, "abc"),
        _ => panic!("expected the exchange"),
    }
    match flow.step(FlowEvent::TokenIssued { access_token: "tok".to_string() }) {
        FlowAction::Finish { access_token } => assert_eq!(access_token, "tok"),
        _ => panic!("expected the token"),
    }
    assert!(flow.is_finished());
}

#[test]
fn oauth_state_mismatch_aborts() {
    let mut flow = OAuthFlow::new();
    flow.phase = FlowPhase::AwaitingCallback {
        endpoints: krokit::oauth::OAuthEndpoints {
            authorization: "A".to_string(),
            token: "T".to_string(),
            registration: "R".to_string(),
        },
        port: 1,
        csrf_state: "good".to_string(),
    };
    match flow.step(FlowEvent::CallbackReceived { query: query(&[("code", "abc"), ("state", "evil")]) }) {
        FlowAction::Abort { error } => assert!(matches!(error, OAuthError::StateMismatch)),
        _ => panic!("expected an abort"),
    }
    let mut flow = OAuthFlow::new();
    flow.step(FlowEvent::Begin { base_url: "https://s".to_string() });
    match flow.step(FlowEvent::StepFailed { message: "connection refused".to_string() }) {
        FlowAction::Abort { error } => assert_eq!(error.message(), "connection refused"),
        _ => panic!("expected an abort"),
    }
}

#[test]
fn callback_checks() {
    assert!(matches!(check_callback(&query(&[("state", "s"), ("code", "c")]), "s"), CallbackOutcome::Authorized(c) if c == "c"));
    assert_eq!(
        check_callback(&query(&[("state", "s"), ("code", "c")]), "s").page_message(),
        "Authorization successful! You can close this tab now."
    );
    match check_callback(&query(&[("error", "access_denied")]), "s") {
        CallbackOutcome::Rejected(e) => assert_eq!(e.message(), "Authorization failed: access_denied"),
        _ => panic!("expected a refusal"),
    }
    match check_callback(&query(&[("code", "c")]), "s") {
        CallbackOutcome::Rejected(e) => assert_eq!(e.message(), "Missing required parameters."),
        _ => panic!("expected a refusal"),
    }
    assert!(matches!(
        check_callback(&query(&[("code", "c"), ("state", "x"), ("state", "s")]), "s"),
        CallbackOutcome::Authorized(_)
    ));
}

#[test]
fn registration_and_callback_texts() {
    assert_eq!(callback_url(8080), "http://127.0.0.1:8080/callback");
    assert_eq!(
        registration_body(80),
        "{\"redirect_uris\":[\"http://127.0.0.1:80/callback\"],\"client_name\":\"Shai MCP Client\",\"grant_types\":[\"authorization_code\"],\"response_types\":[\"code\"]}"
    );
    let v: serde_json::Value = serde_json::from_str(&registration_body(9)).unwrap();
    assert_eq!(v["grant_types"][0], "authorization_code");
}
