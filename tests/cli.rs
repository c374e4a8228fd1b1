use krokit::filenav::FileNav;
use krokit::headless::{AgentKind, AppHeadless};
use krokit::helper::HelpArea;
use krokit::ls::{default_directory, default_max_files, LsToolParams};
use krokit::prompt::{
    coder_check_goal, coder_next_step, render_system_prompt_template, todo_status_block, PromptEnv, CODER_CHECK_GOAL,
};
use krokit::session::KrokitSessionClient;
use krokit::shell::{
    detect_shell, find_shell_by_type, format_command_for_shell, get_shell, history_file_path, history_shell_type,
    trim_text, Shell, ShellProbe, ShellType, MAGIC_COOKIE,
};
use krokit::tool::ToolResult;

fn env(git: bool) -> PromptEnv {
    PromptEnv {
        today: "2025-01-02".to_string(),
        platform: "linux".to_string(),
        os_version: "6.1".to_string(),
        working_dir: "/w".to_string(),
        is_git_repo: git,
        git_branch: "main".to_string(),
        git_status: "clean".to_string(),
        git_log: "abc fix".to_string(),
    }
}

fn probe() -> ShellProbe {
    ShellProbe {
        shell_var: None,
        shell_var_exists: false,
        zsh_version_set: false,
        bash_version_set: false,
        fish_version_set: false,
        zsh_path: None,
        bash_path: None,
        fish_path: None,
        sh_path: None,
    }
}

fn nav(files: &[&str]) -> FileNav {
    let mut n = FileNav::new();
    n.set_index(files.iter().map(|s| s.to_string()).collect());
    n
}

#[test]
fn template_without_placeholders_is_unchanged() {
    assert_eq!(render_system_prompt_template("plain {text}", &env(true)), "plain {text}");
}

#[test]
fn template_placeholders_are_filled() {
    let t = "{{TODAY}} {{PLATFORM}} {{OS_VERSION}} {{WORKING_DIR}} {{IS_GIT_REPO}} {{GIT_BRANCH}}";
    assert_eq!(render_system_prompt_template(t, &env(true)), "2025-01-02 linux 6.1 /w true main");
    assert_eq!(render_system_prompt_template(t, &env(false)), "2025-01-02 linux 6.1 /w false ");
}

#[test]
fn base_prompt_has_guideline_environment_and_git() {
    let p = coder_next_step(&env(true));
    assert!(p.contains("You are KROKIT"));
    assert!(p.contains("Working directory: /w"));
    assert!(p.contains("Current branch: main"));
    assert!(!p.contains("{{"));
    let q = coder_next_step(&env(false));
    assert!(!q.contains("<git>"));
    assert_eq!(coder_check_goal(), CODER_CHECK_GOAL);
}

#[test]
fn todo_block_reports_list_or_empty() {
    let ok = todo_status_block(&ToolResult::success("1. write tests".to_string()));
    assert!(ok.contains("1. write tests"));
    let err = todo_status_block(&ToolResult::error("x".to_string()));
    assert!(err.contains("the todo list is empty.."));
}

#[test]
fn file_filter_ranks_names_before_paths() {
    let mut n = nav(&["src/Main.rs", "docs/main_notes.md", "main/lib.rs", "zz/other.rs"]);
    n.update_filter("MAIN");
    assert_eq!(n.filter_text, "MAIN");
    assert_eq!(n.filtered, vec!["docs/main_notes.md".to_string(), "src/Main.rs".to_string(), "main/lib.rs".to_string()]);
    assert!(n.is_showing());
    assert_eq!(n.height(), 3);
    assert_eq!(n.selected_value(), Some("docs/main_notes.md"));
    n.update_filter("nothing-here");
    assert!(!n.is_showing());
    assert_eq!(n.height(), 0);
    assert_eq!(n.selected_value(), None);
}

#[test]
fn file_selection_wraps_and_pages() {
    let files: Vec<String> = (0..20).map(|i| format!("f{:02}.txt", i)).collect();
    let mut n = FileNav::new();
    n.set_index(files);
    n.update_filter("f");
    assert_eq!(n.filtered.len(), 20);
    assert_eq!(n.height(), 8);
    n.move_up();
    assert_eq!(n.selected, 19);
    n.move_down();
    assert_eq!(n.selected, 0);
    n.page_down();
    assert_eq!(n.selected, 8);
    n.page_down();
    n.page_down();
    assert_eq!(n.selected, 19);
    n.page_up();
    assert_eq!(n.selected, 11);
    n.close();
    assert!(!n.is_showing());
    assert_eq!(n.selected, 0);
}

#[test]
fn index_is_sorted_and_built_once() {
    let mut n = nav(&["b", "a", "c"]);
    assert!(!n.needs_index());
    n.set_index(vec!["z".to_string()]);
    n.update_filter("");
    assert_eq!(n.filtered, vec!["a".to_string(), "b".to_string(), "c".to_string()]);
}

#[test]
fn hook_scripts_name_shell_and_binary() {
    let s = Shell::new(ShellType::Bash, "/bin/bash".to_string());
    let rc = s.generate_rc_content("/usr/local/bin/krokit");
    assert!(rc.starts_with("# Krokit hook for POSIX sh\n# Shell path: /bin/bash\n"));
    assert!(rc.contains("\"/usr/local/bin/krokit\" precmd \"$KROKIT_CURRENT_CMD\""));
    assert!(rc.contains(MAGIC_COOKIE));
    assert!(rc.contains("export PROMPT_COMMAND=\"${PROMPT_COMMAND:+$PROMPT_COMMAND; }krokit_postcmd\""));
    let z = Shell::new(ShellType::Zsh, "/bin/zsh".to_string()).generate_rc_content("k");
    assert!(z.contains("add-zsh-hook preexec krokit_preexec_hook"));
    let f = Shell::new(ShellType::Fish, "/usr/bin/fish".to_string()).generate_rc_content("k");
    assert!(f.contains("function krokit_precmd --on-event fish_preexec"));
    let p = Shell::new(ShellType::Powershell, "/usr/bin/pwsh".to_string()).generate_rc_content("k");
    assert!(p.contains("\"k\" postcmd $LASTEXITCODE"));
    assert!(!p.contains(MAGIC_COOKIE));
}

#[test]
fn shell_lookup_by_type() {
    let s = find_shell_by_type(ShellType::Zsh, Some("/bin/zsh".to_string())).unwrap();
    assert_eq!(s.path, "/bin/zsh");
    assert_eq!(find_shell_by_type(ShellType::Powershell, None).unwrap_err(), "Shell 'pwsh' not found in PATH");
    let g = get_shell(Some(ShellType::Fish), None, probe()).unwrap_err();
    assert_eq!(g, "Shell 'fish' not found in PATH");
}

#[test]
fn shell_detection_order() {
    let mut p = probe();
    p.shell_var = Some("/usr/bin/ZSH".to_string());
    p.shell_var_exists = true;
    let s = detect_shell(p.clone()).unwrap();
    assert_eq!(s.shell_type, ShellType::Zsh);
    assert_eq!(s.path, "/usr/bin/ZSH");
    let mut q = probe();
    q.shell_var = Some("/bin/tcsh".to_string());
    q.shell_var_exists = true;
    q.bash_version_set = true;
    q.bash_path = Some("/bin/bash".to_string());
    q.sh_path = Some("/bin/sh".to_string());
    assert_eq!(detect_shell(q).unwrap().shell_type, ShellType::Bash);
    let mut r = probe();
    r.sh_path = Some("/bin/sh".to_string());
    assert_eq!(get_shell(None, None, r).unwrap().shell_type, ShellType::Sh);
    assert_eq!(
        detect_shell(probe()).unwrap_err(),
        "Could not detect shell and no compatible shell is available. Please specify shell explicitly."
    );
}

#[test]
fn history_lines_per_shell() {
    assert_eq!(format_command_for_shell(ShellType::Zsh, "  ls -la \n", 1700000000), ": 1700000000:0;ls -la\n");
    assert_eq!(format_command_for_shell(ShellType::Fish, "ls", 5), "- cmd: ls\n  when: 5\n");
    assert_eq!(format_command_for_shell(ShellType::Bash, "\tls\t", 5), "ls\n");
    assert_eq!(format_command_for_shell(ShellType::Powershell, "ls", 5), "");
    assert_eq!(trim_text("   "), "");
    assert_eq!(history_file_path(ShellType::Zsh, None, "/home/u"), "/home/u/.zsh_history");
    assert_eq!(history_file_path(ShellType::Bash, Some("/tmp/h".to_string()), "/home/u"), "/tmp/h");
    assert_eq!(history_file_path(ShellType::Fish, Some("/tmp/h".to_string()), "/home/u"), "/home/u/.local/share/fish/fish_history");
    assert_eq!(history_shell_type("/usr/bin/zsh"), Some(ShellType::Zsh));
    assert_eq!(history_shell_type("/bin/sh"), Some(ShellType::Sh));
    assert_eq!(history_shell_type("/bin/csh"), Some(ShellType::Sh));
    assert_eq!(history_shell_type("/bin/nu"), None);
}

#[test]
fn small_front_end_items() {
    assert_eq!(KrokitSessionClient::new("abc").socket(), "/tmp/krokit_history_abc");
    assert_eq!(AppHeadless::new().kind, AgentKind::Coder);
    let h = HelpArea;
    assert_eq!(h.height(), 7);
    let msg = h.helper_msg();
    assert_eq!(msg.lines().count(), 7);
    assert!(msg.starts_with("  ? to print help"));
    assert_eq!(default_directory(), ".");
    assert_eq!(default_max_files(), Some(200));
    let p = LsToolParams::with_defaults();
    assert_eq!(p.directory, ".");
    assert!(!p.recursive);
}
