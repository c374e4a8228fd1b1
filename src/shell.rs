//! Shells: which one to hook, the hook script that records each command,
//! and how a command is written to the shell's history file. Looking things
//! up on disk and in the environment is the caller's; it hands over what it
//! found.

use vstd::prelude::*;
use crate::bash::{is_white_space, white_space};
use crate::filenav::{last_segment, lower_of, segment_after_slash, to_lower};
use crate::text::{contains_text, digits, has_sub};

verus! {

/// The line a hook script prints once it is installed.
pub const MAGIC_COOKIE: &'static str = ">>>KROKIT_HOOKS_INJECTED<<<";

pub const SH_RC_0: &'static str = r#"# Krokit hook for POSIX sh
# Shell path: "#;

pub const SH_RC_1: &'static str = r#"
# Pre-command hook (captures command before execution)
krokit_precmd() {
    case "$BASH_COMMAND" in
        krokit*|*krokit_precmd*|*krokit_postcmd*) return ;;
    esac
    KROKIT_CURRENT_CMD="$BASH_COMMAND"
    ""#;

pub const SH_RC_2: &'static str = r#"" precmd "$KROKIT_CURRENT_CMD"
}

# Post-command hook (captures exit status after execution)
krokit_postcmd() {
    exit_code="$?"
    if [ -n "$KROKIT_CURRENT_CMD" ]; then
        ""#;

pub const SH_RC_3: &'static str = r#"" postcmd "$exit_code" "$KROKIT_CURRENT_CMD"
        unset KROKIT_CURRENT_CMD
    fi
    # Reload history to pick up any new entries
    history -r 2>/dev/null || true
}

# Set up the prompt command to run the hook
export PROMPT_COMMAND="${PROMPT_COMMAND:+$PROMPT_COMMAND; }krokit_postcmd"

echo ""#;

pub const SH_RC_4: &'static str = r#""
# Capture command in DEBUG trap (before execution)
trap 'krokit_precmd' DEBUG
    "#;

pub const ZSH_RC_0: &'static str = r#"# Krokit hook for zsh
# Shell path: "#;

pub const ZSH_RC_1: &'static str = r#"
# Capture command before execution
krokit_preexec_hook() {
    KROKIT_CURRENT_CMD="$1"
    ""#;

pub const ZSH_RC_2: &'static str = r#"" precmd "$1"
}

# Pre-command hook (captures after execution)
krokit_precmd_hook() {
    exit_code=$?
    if [ -n "$KROKIT_CURRENT_CMD" ]; then
        case "$KROKIT_CURRENT_CMD" in
            krokit*|*krokit_preexec_hook*|*krokit_precmd_hook*) ;;
            *) ""#;

pub const ZSH_RC_3: &'static str = r#"" postcmd "$exit_code" "$KROKIT_CURRENT_CMD" ;;
        esac
    fi
    unset KROKIT_CURRENT_CMD
    # Reload history to pick up any new entries
    fc -R 2>/dev/null || true
}

# Hook into zsh's command execution cycle
autoload -Uz add-zsh-hook
add-zsh-hook preexec krokit_preexec_hook
add-zsh-hook precmd  krokit_precmd_hook
echo ""#;

pub const ZSH_RC_4: &'static str = r#""
    "#;

pub const FISH_RC_0: &'static str = r#"# Krokit hook for fish
# Shell path: "#;

pub const FISH_RC_1: &'static str = r#"
# Pre-command hook (captures command before execution)
function krokit_precmd --on-event fish_preexec
    set cmd $argv[1]
    # Skip krokit-related commands
    if string match -q "krokit*" $cmd; or string match -q "*krokit_precmd*" $cmd; or string match -q "*krokit_postcmd*" $cmd
        return
    end
    set -g KROKIT_CURRENT_CMD $cmd
    ""#;

pub const FISH_RC_2: &'static str = r#"" precmd "$KROKIT_CURRENT_CMD"
end

# Post-command hook (captures exit status after execution)
function krokit_postcmd --on-event fish_postexec
    set exit_code $status
    if set -q KROKIT_CURRENT_CMD
        ""#;

pub const FISH_RC_3: &'static str = r#"" postcmd $exit_code "$KROKIT_CURRENT_CMD"
        set -e KROKIT_CURRENT_CMD
    end
    # Reload history to pick up any new entries
    history --merge 2>/dev/null; or true
end

echo ""#;

pub const FISH_RC_4: &'static str = r#""
    "#;

pub const PWSH_RC_0: &'static str = r#"# Krokit hook for PowerShell
# Shell path: "#;

pub const PWSH_RC_1: &'static str = r#"
# Initialize command variable
$global:KROKIT_CURRENT_CMD = $null

# Function to check if command should be filtered
function Test-KrokitCommand {
    param([string]$Command)
    if ([string]::IsNullOrEmpty($Command)) { return $true }
    
    $patterns = @("krokit*", "*krokit_precmd*", "*krokit_postcmd*", "*Invoke-Krokit*", "*Set-KrokitCommand*", "*Test-KrokitCommand*")
    foreach ($pattern in $patterns) {
        if ($Command -like $pattern) { return $true }
    }
    return $false
}

# Pre-command hook
function Invoke-KrokitPrecmd {
    if ($global:KROKIT_CURRENT_CMD -and -not (Test-KrokitCommand $global:KROKIT_CURRENT_CMD)) {
        ""#;

pub const PWSH_RC_2: &'static str = r#"" precmd $global:KROKIT_CURRENT_CMD
    }
}

# Post-command hook
function Invoke-KrokitPostcmd {
    if ($global:KROKIT_CURRENT_CMD -and -not (Test-KrokitCommand $global:KROKIT_CURRENT_CMD)) {
        ""#;

pub const PWSH_RC_3: &'static str = r#"" postcmd $LASTEXITCODE $global:KROKIT_CURRENT_CMD
    }
    $global:KROKIT_CURRENT_CMD = $null
}

# Try to use PSReadLine for automatic command capture if available
if (Get-Module -ListAvailable -Name PSReadLine) {
    try {
        Import-Module PSReadLine -ErrorAction Stop
        
        # Set up PSReadLine to capture commands
        Set-PSReadLineOption -AddToHistoryHandler {
            param($command)
            if (-not (Test-KrokitCommand $command)) {
                $global:KROKIT_CURRENT_CMD = $command
            }
            return $true
        }
        
        Write-Host "Krokit: Using PSReadLine for automatic command capture" -ForegroundColor Green
    } catch {
        Write-Host "Krokit: PSReadLine available but failed to configure. Using manual mode." -ForegroundColor Yellow
    }
} else {
    Write-Host "Krokit: PSReadLine not available. Commands must be set manually using Set-KrokitCommand." -ForegroundColor Yellow
}

# Manual command setting function for when PSReadLine is not available
function Set-KrokitCommand {
    param([string]$Command)
    if (-not (Test-KrokitCommand $Command)) {
        $global:KROKIT_CURRENT_CMD = $Command
    }
}

# Override the prompt function to include our hooks
function prompt {
    # Run pre-command hook first
    Invoke-KrokitPrecmd
    
    # Run post-command hook
    Invoke-KrokitPostcmd
    
    # Return the prompt string (customize as needed)
    "PS $($executionContext.SessionState.Path.CurrentLocation)$('>' * ($nestedPromptLevel + 1)) "
}

# Usage examples:
# With PSReadLine (automatic): Just run commands normally
# Without PSReadLine (manual): Set-KrokitCommand "your-command"; your-command
    "#;

/// A supported shell.
#[derive(Clone, Copy, Debug, PartialEq, Eq, Structural)]
pub enum ShellType {
    Sh,
    Bash,
    Zsh,
    Fish,
    Powershell,
}

/// A shell and where its binary lives.
#[derive(Clone, Debug)]
pub struct Shell {
    pub shell_type: ShellType,
    pub path: String,
}

/// The binary a shell type is looked up by.
pub open spec fn binary_name(t: ShellType) -> Seq<char> {
    match t {
        ShellType::Sh => "sh"@,
        ShellType::Bash => "bash"@,
        ShellType::Zsh => "zsh"@,
        ShellType::Fish => "fish"@,
        ShellType::Powershell => "pwsh"@,
    }
}

/// The hook script for a shell at `path` that reports to `binary`.
pub open spec fn rc_text(t: ShellType, path: Seq<char>, binary: Seq<char>) -> Seq<char> {
    match t {
        ShellType::Sh | ShellType::Bash => SH_RC_0@ + path + SH_RC_1@ + binary + SH_RC_2@ + binary + SH_RC_3@
            + MAGIC_COOKIE@ + SH_RC_4@,
        ShellType::Zsh => ZSH_RC_0@ + path + ZSH_RC_1@ + binary + ZSH_RC_2@ + binary + ZSH_RC_3@
            + MAGIC_COOKIE@ + ZSH_RC_4@,
        ShellType::Fish => FISH_RC_0@ + path + FISH_RC_1@ + binary + FISH_RC_2@ + binary + FISH_RC_3@
            + MAGIC_COOKIE@ + FISH_RC_4@,
        ShellType::Powershell => PWSH_RC_0@ + path + PWSH_RC_1@ + binary + PWSH_RC_2@ + binary + PWSH_RC_3@,
    }
}

fn glue(pieces: &[&str]) -> (r: String)
    ensures
        r@ == glued(pieces@, pieces@.len() as int),
{
    let mut s = String::new();
    let mut i: usize = 0;
    while i < pieces.len()
        invariant
            i <= pieces@.len(),
            s@ == glued(pieces@, i as int),
        decreases pieces@.len() - i,
    {
        s.append(pieces[i]);
        i += 1;
    }
    s
}

/// The first `n` pieces, one after the other.
pub open spec fn glued(pieces: Seq<&str>, n: int) -> Seq<char>
    decreases n,
{
    if n <= 0 { Seq::empty() } else { glued(pieces, n - 1) + pieces[n - 1]@ }
}

impl Shell {
    pub fn new(shell_type: ShellType, path: String) -> (r: Shell)
        ensures
            r.shell_type == shell_type,
            r.path == path,
    {
        Shell { shell_type, path }
    }

    /// The hook script to source in this shell; `binary` is the program the
    /// hooks call.
    pub fn generate_rc_content(&self, binary: &str) -> (r: String)
        ensures
            r@ == rc_text(self.shell_type, self.path@, binary@),
    {
        let p = self.path.as_str();
        let pieces: [&str; 9];
        match self.shell_type {
            ShellType::Sh | ShellType::Bash => {
                pieces = [SH_RC_0, p, SH_RC_1, binary, SH_RC_2, binary, SH_RC_3, MAGIC_COOKIE, SH_RC_4];
            }
            ShellType::Zsh => {
                pieces = [ZSH_RC_0, p, ZSH_RC_1, binary, ZSH_RC_2, binary, ZSH_RC_3, MAGIC_COOKIE, ZSH_RC_4];
            }
            ShellType::Fish => {
                pieces = [FISH_RC_0, p, FISH_RC_1, binary, FISH_RC_2, binary, FISH_RC_3, MAGIC_COOKIE, FISH_RC_4];
            }
            ShellType::Powershell => {
                pieces = [PWSH_RC_0, p, PWSH_RC_1, binary, PWSH_RC_2, binary, PWSH_RC_3, "", ""];
            }
        }
        let r = glue(&pieces);
        proof {
            reveal_strlit("");
            reveal_with_fuel(glued, 10);
            assert(r@ =~= rc_text(self.shell_type, self.path@, binary@));
        }
        r
    }
}

pub fn binary_name_of(t: ShellType) -> (r: &'static str)
    ensures
        r@ == binary_name(t),
{
    match t {
        ShellType::Sh => "sh",
        ShellType::Bash => "bash",
        ShellType::Zsh => "zsh",
        ShellType::Fish => "fish",
        ShellType::Powershell => "pwsh",
    }
}

pub open spec fn not_found_text(t: ShellType) -> Seq<char> {
    "Shell '"@ + binary_name(t) + "' not found in PATH"@
}

/// The shell of a requested type, given where its binary was found (none
/// if the lookup found nothing).
pub fn find_shell_by_type(shell_type: ShellType, found: Option<String>) -> (r: Result<Shell, String>)
    ensures
        match found {
            Some(p) => r matches Ok(s) && s.shell_type == shell_type && s.path == p,
            None => r matches Err(e) && e@ == not_found_text(shell_type),
        },
{
    match found {
        Some(path) => Ok(Shell::new(shell_type, path)),
        None => {
            let mut e = String::from_str("Shell '");
            e.append(binary_name_of(shell_type));
            e.append("' not found in PATH");
            Err(e)
        }
    }
}

/// The shell type that a binary's name denotes.
pub open spec fn type_named(name: Seq<char>) -> Option<ShellType> {
    if name == "sh"@ { Some(ShellType::Sh) }
    else if name == "bash"@ { Some(ShellType::Bash) }
    else if name == "zsh"@ { Some(ShellType::Zsh) }
    else if name == "fish"@ { Some(ShellType::Fish) }
    else if name == "pwsh"@ || name == "powershell"@ { Some(ShellType::Powershell) }
    else { None }
}

fn same_text(s: &String, lit: &str) -> (r: bool)
    ensures
        r == (s@ == lit@),
{
    *s == String::from_str(lit)
}

pub fn shell_type_named(name: &String) -> (r: Option<ShellType>)
    ensures
        r == type_named(name@),
{
    if same_text(name, "sh") { Some(ShellType::Sh) }
    else if same_text(name, "bash") { Some(ShellType::Bash) }
    else if same_text(name, "zsh") { Some(ShellType::Zsh) }
    else if same_text(name, "fish") { Some(ShellType::Fish) }
    else if same_text(name, "pwsh") || same_text(name, "powershell") { Some(ShellType::Powershell) }
    else { None }
}

/// What the caller found in the environment and on disk.
#[derive(Clone, Debug)]
pub struct ShellProbe {
    /// `SHELL`, if set.
    pub shell_var: Option<String>,
    /// Whether the file `SHELL` names exists.
    pub shell_var_exists: bool,
    pub zsh_version_set: bool,
    pub bash_version_set: bool,
    pub fish_version_set: bool,
    /// Where each binary was found, if it was.
    pub zsh_path: Option<String>,
    pub bash_path: Option<String>,
    pub fish_path: Option<String>,
    pub sh_path: Option<String>,
}

pub open spec fn undetected_text() -> Seq<char> {
    "Could not detect shell and no compatible shell is available. Please specify shell explicitly."@
}

/// The shell that `SHELL` names, when its binary's name is a known shell
/// and it exists.
pub open spec fn from_shell_var(p: ShellProbe) -> Option<ShellType> {
    match p.shell_var {
        Some(v) => if p.shell_var_exists { type_named(lower_of(last_segment(v@))) } else { None },
        None => None,
    }
}

/// Detection: `SHELL` first; then zsh, bash, fish by their version variables
/// where the binary was found; then `sh`.
pub fn detect_shell(probe: ShellProbe) -> (r: Result<Shell, String>)
    ensures
        from_shell_var(probe) matches Some(t) ==> (r matches Ok(s) && s.shell_type == t && s.path == probe.shell_var->Some_0),
        from_shell_var(probe) is None && probe.zsh_version_set && probe.zsh_path is Some
            ==> (r matches Ok(s) && s.shell_type == ShellType::Zsh && s.path == probe.zsh_path->Some_0),
        from_shell_var(probe) is None && !(probe.zsh_version_set && probe.zsh_path is Some)
            && probe.bash_version_set && probe.bash_path is Some
            ==> (r matches Ok(s) && s.shell_type == ShellType::Bash && s.path == probe.bash_path->Some_0),
        from_shell_var(probe) is None && !(probe.zsh_version_set && probe.zsh_path is Some)
            && !(probe.bash_version_set && probe.bash_path is Some)
            && probe.fish_version_set && probe.fish_path is Some
            ==> (r matches Ok(s) && s.shell_type == ShellType::Fish && s.path == probe.fish_path->Some_0),
        from_shell_var(probe) is None && !(probe.zsh_version_set && probe.zsh_path is Some)
            && !(probe.bash_version_set && probe.bash_path is Some)
            && !(probe.fish_version_set && probe.fish_path is Some)
            ==> match probe.sh_path {
                Some(p) => r matches Ok(s) && s.shell_type == ShellType::Sh && s.path == p,
                None => r matches Err(e) && e@ == undetected_text(),
            },
{
    let ShellProbe {
        shell_var, shell_var_exists, zsh_version_set, bash_version_set, fish_version_set,
        zsh_path, bash_path, fish_path, sh_path,
    } = probe;
    if let Some(v) = shell_var {
        if shell_var_exists {
            let seg = segment_after_slash(v.as_str());
            let name = to_lower(seg.as_str());
            if let Some(t) = shell_type_named(&name) {
                return Ok(Shell::new(t, v));
            }
        }
    }
    if zsh_version_set {
        if let Some(p) = zsh_path {
            return Ok(Shell::new(ShellType::Zsh, p));
        }
    }
    if bash_version_set {
        if let Some(p) = bash_path {
            return Ok(Shell::new(ShellType::Bash, p));
        }
    }
    if fish_version_set {
        if let Some(p) = fish_path {
            return Ok(Shell::new(ShellType::Fish, p));
        }
    }
    match sh_path {
        Some(p) => Ok(Shell::new(ShellType::Sh, p)),
        None => Err(String::from_str(
            "Could not detect shell and no compatible shell is available. Please specify shell explicitly.",
        )),
    }
}

/// The shell to use: the requested type, looked up where the caller found
/// its binary; else the detected one.
pub fn get_shell(shell_type: Option<ShellType>, found: Option<String>, probe: ShellProbe) -> (r: Result<Shell, String>)
    ensures
        shell_type matches Some(t) ==> match found {
            Some(p) => r matches Ok(s) && s.shell_type == t && s.path == p,
            None => r matches Err(e) && e@ == not_found_text(t),
        },
{
    match shell_type {
        Some(t) => find_shell_by_type(t, found),
        None => detect_shell(probe),
    }
}

pub open spec fn trim_start(s: Seq<char>) -> Seq<char>
    decreases s.len(),
{
    if s.len() > 0 && white_space(s[0]) { trim_start(s.drop_first()) } else { s }
}

pub open spec fn trim_end(s: Seq<char>) -> Seq<char>
    decreases s.len(),
{
    if s.len() > 0 && white_space(s.last()) { trim_end(s.drop_last()) } else { s }
}

/// The text without surrounding white space.
pub open spec fn trimmed(s: Seq<char>) -> Seq<char> {
    trim_end(trim_start(s))
}

pub fn trim_text(s: &str) -> (r: String)
    ensures
        r@ == trimmed(s@),
{
    let n = s.unicode_len();
    let mut a: usize = 0;
    proof {
        assert(s@.subrange(0, n as int) =~= s@);
    }
    while a < n && is_white_space(s.get_char(a))
        invariant
            a <= n,
            n == s@.len(),
            trim_start(s@) == trim_start(s@.subrange(a as int, n as int)),
        decreases n - a,
    {
        assert(s@.subrange(a as int, n as int).drop_first() =~= s@.subrange(a + 1, n as int));
        a += 1;
    }
    let mut b: usize = n;
    proof {
        assert(trim_start(s@.subrange(a as int, n as int)) == s@.subrange(a as int, n as int));
    }
    while b > a && is_white_space(s.get_char(b - 1))
        invariant
            a <= b <= n,
            n == s@.len(),
            trimmed(s@) == trim_end(s@.subrange(a as int, b as int)),
        decreases b - a,
    {
        assert(s@.subrange(a as int, b as int).drop_last() =~= s@.subrange(a as int, b - 1));
        b -= 1;
    }
    String::from_str(s.substring_char(a, b))
}

/// A command as the shell's history file records it at time `timestamp`.
pub open spec fn history_entry(t: ShellType, command: Seq<char>, timestamp: u64) -> Seq<char> {
    match t {
        ShellType::Zsh => ": "@ + digits(timestamp as nat) + ":0;"@ + trimmed(command) + "\n"@,
        ShellType::Fish => "- cmd: "@ + trimmed(command) + "\n  when: "@ + digits(timestamp as nat) + "\n"@,
        ShellType::Sh | ShellType::Bash => trimmed(command) + "\n"@,
        ShellType::Powershell => Seq::empty(),
    }
}

pub fn format_command_for_shell(shell_type: ShellType, command: &str, timestamp: u64) -> (r: String)
    ensures
        r@ == history_entry(shell_type, command@, timestamp),
{
    let cmd = trim_text(command);
    match shell_type {
        ShellType::Zsh => {
            let mut s = String::from_str(": ");
            let ts = crate::text::count_to_text(timestamp);
            s.append(ts.as_str());
            s.append(":0;");
            s.append(cmd.as_str());
            s.append("\n");
            s
        }
        ShellType::Fish => {
            let mut s = String::from_str("- cmd: ");
            s.append(cmd.as_str());
            s.append("\n  when: ");
            let ts = crate::text::count_to_text(timestamp);
            s.append(ts.as_str());
            s.append("\n");
            s
        }
        ShellType::Sh | ShellType::Bash => {
            let mut s = cmd;
            s.append("\n");
            s
        }
        ShellType::Powershell => String::new(),
    }
}

/// Where a shell keeps its history: `HISTFILE` for zsh and bash when set,
/// else the usual file under `home`; none for PowerShell.
pub open spec fn history_path(t: ShellType, histfile: Option<Seq<char>>, home: Seq<char>) -> Seq<char> {
    match t {
        ShellType::Zsh => match histfile { Some(h) => h, None => home + "/.zsh_history"@ },
        ShellType::Sh | ShellType::Bash => match histfile { Some(h) => h, None => home + "/.bash_history"@ },
        ShellType::Fish => home + "/.local/share/fish/fish_history"@,
        ShellType::Powershell => Seq::empty(),
    }
}

pub fn history_file_path(shell_type: ShellType, histfile: Option<String>, home: &str) -> (r: String)
    ensures
        r@ == history_path(shell_type, match histfile { Some(h) => Some(h@), None => None }, home@),
{
    match shell_type {
        ShellType::Zsh | ShellType::Sh | ShellType::Bash => match histfile {
            Some(h) => h,
            None => {
                let mut s = String::from_str(home);
                if shell_type == ShellType::Zsh {
                    s.append("/.zsh_history");
                } else {
                    s.append("/.bash_history");
                }
                s
            }
        },
        ShellType::Fish => {
            let mut s = String::from_str(home);
            s.append("/.local/share/fish/fish_history");
            s
        }
        ShellType::Powershell => String::new(),
    }
}

/// The shell whose history to write, from `SHELL`: the first of zsh, bash,
/// fish and sh that it mentions.
pub open spec fn history_shell(shell: Seq<char>) -> Option<ShellType> {
    if has_sub(shell, "zsh"@) { Some(ShellType::Zsh) }
    else if has_sub(shell, "bash"@) { Some(ShellType::Bash) }
    else if has_sub(shell, "fish"@) { Some(ShellType::Fish) }
    else if has_sub(shell, "sh"@) { Some(ShellType::Sh) }
    else { None }
}

pub fn history_shell_type(shell: &str) -> (r: Option<ShellType>)
    ensures
        r == history_shell(shell@),
{
    if contains_text(shell, "zsh") { Some(ShellType::Zsh) }
    else if contains_text(shell, "bash") { Some(ShellType::Bash) }
    else if contains_text(shell, "fish") { Some(ShellType::Fish) }
    else if contains_text(shell, "sh") { Some(ShellType::Sh) }
    else { None }
}

} // verus!
