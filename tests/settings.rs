use krokit::cmdnav::{CommandNav, CommandSuggestion, NavDirection};
use krokit::config::{KrokitConfig, ToolCallMethod};
use krokit::mcp::McpConfig;
use krokit::tool::{normalize_field, required_fields, TypeDecl};

fn cmd(c: &str, args: &[&str]) -> CommandSuggestion {
    CommandSuggestion { command: c.to_string(), description: String::new(), args: args.iter().map(|s| s.to_string()).collect() }
}

fn env(pairs: &[(&str, &str)]) -> Vec<(String, String)> {
    pairs.iter().map(|(k, v)| (k.to_string(), v.to_string())).collect()
}

#[test]
fn command_picker_filters_by_prefix_ignoring_case() {
    let mut nav = CommandNav::new(vec![cmd("/exit", &[]), cmd("/tc", &["method"]), cmd("/TEST", &[])]);
    nav.show_suggestions("/t");
    let shown: Vec<&str> = nav.filtered_suggestions.iter().map(|s| s.command.as_str()).collect();
    assert_eq!(shown, vec!["/tc", "/TEST"]);
    assert!(nav.is_showing());
    assert!(nav.selected_has_args());
    assert_eq!(nav.height(), 2);
    nav.navigate(NavDirection::Up);
    assert_eq!(nav.get_selected_completion().as_deref(), Some("/TEST"));
    nav.navigate(NavDirection::Down);
    assert_eq!(nav.get_selected_completion().as_deref(), Some("/tc"));
    nav.show_suggestions("/");
    assert_eq!(nav.filtered_suggestions.len(), 3);
    nav.show_suggestions("/zzz");
    assert!(!nav.is_showing());
    assert_eq!(nav.get_selected_completion(), None);
    nav.hide_suggestions();
    assert_eq!(nav.height(), 0);
}

#[test]
fn providers_add_select_and_remove() {
    let mut c = KrokitConfig::new_default();
    assert_eq!(c.providers[0].model, "Qwen3-32B");
    assert_eq!(c.providers[0].tool_method, ToolCallMethod::FunctionCall);
    let i = c.add_provider("openai".to_string(), env(&[("KEY", "k")]), "gpt".to_string());
    assert_eq!(i, 1);
    assert!(c.is_duplicate_config("openai", &env(&[("KEY", "k")]), "gpt"));
    assert!(!c.is_duplicate_config("openai", &env(&[("KEY", "other")]), "gpt"));
    assert_eq!(c.set_selected_provider(5).unwrap_err(), "Provider index 5 out of bounds (have 2 providers)");
    c.set_selected_provider(1).unwrap();
    assert_eq!(c.get_selected_provider().unwrap().provider, "openai");
    assert_eq!(c.find_providers_by_type("openai"), vec![1]);
    let removed = c.remove_provider(0).unwrap();
    assert_eq!(removed.provider, "ovhcloud");
    assert_eq!(c.selected_provider, 0);
    assert_eq!(c.remove_provider(0).unwrap_err(), "Cannot remove the last provider");
    assert_eq!(c.list_providers(), vec![(0, "openai".to_string(), "gpt".to_string())]);
    c.selected_provider = 9;
    c.normalize_selection();
    assert_eq!(c.selected_provider, 0);
}

#[test]
fn mcp_servers_by_name() {
    let mut c = KrokitConfig::new_default();
    assert!(c.add_mcp_config("web".to_string(), McpConfig::Sse { url: "http://s".to_string() }).is_none());
    let old = c.add_mcp_config("web".to_string(), McpConfig::Http { url: "http://h".to_string(), bearer_token: None });
    assert!(matches!(old, Some(McpConfig::Sse { .. })));
    assert!(c.has_mcp_config("web"));
    assert!(matches!(c.get_mcp_config("web"), Some(McpConfig::Http { .. })));
    assert_eq!(c.list_mcp_configs(), vec![("web".to_string(), "http: http://h".to_string())]);
    assert!(c.remove_mcp_config("web").is_some());
    assert!(!c.has_mcp_config("web"));
    assert!(c.remove_mcp_config("web").is_none());
}

#[test]
fn nullable_fields_are_optional() {
    let (t, req) = normalize_field(&TypeDecl::Union(vec!["integer".to_string(), "null".to_string()]));
    assert!(!req);
    assert!(matches!(t, TypeDecl::Single(s) if s == "integer"));
    let (t, req) = normalize_field(&TypeDecl::Union(vec!["string".to_string(), "integer".to_string()]));
    assert!(req);
    assert!(matches!(t, TypeDecl::Union(_)));
    let fields = vec![
        ("command".to_string(), TypeDecl::Single("string".to_string())),
        ("timeout".to_string(), TypeDecl::Union(vec!["null".to_string(), "integer".to_string()])),
        ("env".to_string(), TypeDecl::Absent),
    ];
    assert_eq!(required_fields(&fields), vec!["command".to_string()]);
    let more = vec![
        ("b".to_string(), TypeDecl::Single("string".to_string())),
        ("a".to_string(), TypeDecl::Single("string".to_string())),
    ];
    assert_eq!(required_fields(&more), vec!["b".to_string(), "a".to_string()]);
}
