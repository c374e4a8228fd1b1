//! The shell tool: what it runs, and how the end of a run becomes a result.
//! Spawning, stream capture and the group kill are the caller's; this module
//! decides what is spawned and what the outcome means.

use vstd::prelude::*;
use crate::capability::ToolCapability;
use crate::text::{count_to_text, decimal, digits, int_to_text};
use crate::tool::{Metadata, ToolResult};

verus! {

/// Whether `c` is white space in Unicode's sense.
pub uninterp spec fn white_space(c: char) -> bool;

/// Relies on `char::is_whitespace`: Unicode's `White_Space` property, a
/// function of the character alone.
#[verifier::external_body]
pub(crate) fn is_white_space(c: char) -> (r: bool)
    ensures
        r == white_space(c),
{
    c.is_whitespace()
}

/// The text is empty once surrounding white space is trimmed.
pub open spec fn blank(s: Seq<char>) -> bool {
    forall|i: int| 0 <= i < s.len() ==> white_space(#[trigger] s[i])
}

pub fn is_blank(s: &str) -> (r: bool)
    ensures
        r == blank(s@),
{
    let n = s.unicode_len();
    let mut i: usize = 0;
    while i < n
        invariant
            n == s@.len(),
            i <= n,
            forall|j: int| 0 <= j < i ==> white_space(#[trigger] s@[j]),
        decreases n - i,
    {
        if !is_white_space(s.get_char(i)) {
            return false;
        }
        i += 1;
    }
    true
}

/// Parameters of one shell command.
#[derive(Clone, Debug)]
pub struct BashToolParams {
    pub command: String,
    pub working_dir: Option<String>,
    pub env: Vec<(String, String)>,
    /// Whole seconds; none means no bound.
    pub timeout: Option<u32>,
}

/// What is handed to the operating system: `bash -c <command>`, as the
/// leader of a new process group, with stdin closed and both output streams
/// captured.
#[derive(Clone, Debug)]
pub struct CommandPlan {
    pub program: String,
    pub args: Vec<String>,
    pub working_dir: Option<String>,
    pub env: Vec<(String, String)>,
    pub timeout_secs: Option<u64>,
    pub new_process_group: bool,
}

/// How a run ended: the race between exit, cancellation and timeout, or a
/// failure to run at all.
#[derive(Clone, Debug)]
pub enum ExecOutcome {
    Exited { stdout: String, stderr: String, exit_code: i32 },
    Cancelled,
    TimedOut,
    Failed { message: String },
}

impl ExecOutcome {
    /// Cancellation and timeout both end in the same teardown: the capture
    /// tasks are aborted and the whole process group is killed.
    pub fn needs_teardown(&self) -> (r: bool)
        ensures
            r == (self is Cancelled || self is TimedOut),
    {
        match self {
            ExecOutcome::Cancelled | ExecOutcome::TimedOut => true,
            _ => false,
        }
    }
}

pub open spec fn stderr_separator() -> Seq<char> {
    "\n--- STDERR ---\n"@
}

/// Both streams as one output: either alone when the other is empty, else
/// stdout, the separator, stderr.
pub open spec fn combined(stdout: Seq<char>, stderr: Seq<char>) -> Seq<char> {
    if stderr.len() == 0 {
        stdout
    } else if stdout.len() == 0 {
        stderr
    } else {
        stdout + stderr_separator() + stderr
    }
}

pub open spec fn failure_text(exit_code: int, stderr: Seq<char>) -> Seq<char> {
    if stderr.len() == 0 {
        "Command failed with exit code "@ + decimal(exit_code)
    } else {
        "Command failed with exit code "@ + decimal(exit_code) + ": "@ + stderr
    }
}

pub open spec fn timeout_text(secs: int) -> Seq<char> {
    "Command timed out after "@ + decimal(secs) + " seconds"@
}

pub open spec fn cancelled_text() -> Seq<char> {
    "Command was cancelled by user"@
}

pub open spec fn empty_command_text() -> Seq<char> {
    "Command cannot be empty"@
}

/// The error message of an outcome that is not a clean exit.
pub open spec fn outcome_error_text(o: ExecOutcome, timeout: Option<u32>) -> Seq<char> {
    match o {
        ExecOutcome::Exited { stderr, exit_code, .. } => failure_text(exit_code as int, stderr@),
        ExecOutcome::Cancelled => cancelled_text(),
        ExecOutcome::TimedOut => match timeout {
            Some(t) => timeout_text(t as int),
            None => "Command timed out"@,
        },
        ExecOutcome::Failed { message } => message@,
    }
}

/// The run ended by itself with exit code 0.
pub open spec fn clean_exit(o: ExecOutcome) -> bool {
    o matches ExecOutcome::Exited { exit_code, .. } && exit_code == 0
}

/// The merged output of a run that ended by itself.
pub open spec fn exit_output(o: ExecOutcome) -> Seq<char> {
    match o {
        ExecOutcome::Exited { stdout, stderr, .. } => combined(stdout@, stderr@),
        _ => Seq::empty(),
    }
}

/// The metadata holds `key` with the value `value`.
pub open spec fn meta_has(m: Seq<(String, String)>, key: Seq<char>, value: Seq<char>) -> bool {
    exists|i: int| 0 <= i < m.len() && (#[trigger] m[i]).0@ == key && m[i].1@ == value
}

pub fn combine_output(stdout: String, stderr: String) -> (r: String)
    ensures
        r@ == combined(stdout@, stderr@),
{
    if stderr.unicode_len() == 0 {
        stdout
    } else if stdout.unicode_len() == 0 {
        stderr
    } else {
        let mut s = stdout;
        s.append("\n--- STDERR ---\n");
        s.append(stderr.as_str());
        s
    }
}

pub fn failure_message(exit_code: i32, stderr: &str) -> (r: String)
    ensures
        r@ == failure_text(exit_code as int, stderr@),
{
    let mut s = String::from_str("Command failed with exit code ");
    let code = int_to_text(exit_code as i64);
    s.append(code.as_str());
    if stderr.unicode_len() != 0 {
        s.append(": ");
        s.append(stderr);
    }
    s
}

pub fn timeout_message(secs: u32) -> (r: String)
    ensures
        r@ == timeout_text(secs as int),
{
    let mut s = String::from_str("Command timed out after ");
    let n = int_to_text(secs as i64);
    s.append(n.as_str());
    s.append(" seconds");
    s
}

fn push_entry(m: &mut Metadata, key: &str, value: String)
    ensures
        final(m)@.len() == old(m)@.len() + 1,
        meta_has(final(m)@, key@, value@),
        forall|k: Seq<char>, v: Seq<char>| meta_has(old(m)@, k, v) ==> meta_has(final(m)@, k, v),
{
    let ghost before = m@;
    m.push((String::from_str(key), value));
    let ghost last = m@.len() - 1;
    assert(m@[last].0@ == key@);
    assert forall|k: Seq<char>, v: Seq<char>| meta_has(before, k, v) implies meta_has(m@, k, v) by {
        let i = choose|i: int| 0 <= i < before.len() && (#[trigger] before[i]).0@ == k && before[i].1@ == v;
        assert(m@[i] == before[i]);
    }
}

/// Two lists of string pairs with the same texts in the same order.
pub open spec fn same_pairs(a: Seq<(String, String)>, b: Seq<(String, String)>) -> bool {
    a.len() == b.len() && forall|i: int| 0 <= i < a.len() ==> (#[trigger] a[i]).0@ == b[i].0@ && a[i].1@ == b[i].1@
}

pub fn copy_pairs(v: &Vec<(String, String)>) -> (r: Vec<(String, String)>)
    ensures
        same_pairs(r@, v@),
{
    let mut r: Vec<(String, String)> = Vec::new();
    let mut i: usize = 0;
    while i < v.len()
        invariant
            i <= v@.len(),
            r@.len() == i,
            forall|j: int| 0 <= j < i ==> (#[trigger] r@[j]).0@ == v@[j].0@ && r@[j].1@ == v@[j].1@,
        decreases v@.len() - i,
    {
        let (a, b) = &v[i];
        r.push((a.clone(), b.clone()));
        i += 1;
    }
    r
}

/// How the bound is recorded: its seconds, or `none`.
pub open spec fn timeout_value(t: Option<u32>) -> Seq<char> {
    match t {
        Some(n) => digits(n as nat),
        None => "none"@,
    }
}

/// Records each environment variable under `env.<name>`.
fn push_env(m: &mut Metadata, env: &Vec<(String, String)>)
    ensures
        forall|i: int| 0 <= i < env@.len() ==> meta_has(final(m)@, "env."@ + (#[trigger] env@[i]).0@, env@[i].1@),
        forall|k: Seq<char>, v: Seq<char>| meta_has(old(m)@, k, v) ==> meta_has(final(m)@, k, v),
{
    let mut i: usize = 0;
    while i < env.len()
        invariant
            i <= env@.len(),
            forall|j: int| 0 <= j < i ==> meta_has(m@, "env."@ + (#[trigger] env@[j]).0@, env@[j].1@),
            forall|k: Seq<char>, v: Seq<char>| meta_has(old(m)@, k, v) ==> meta_has(m@, k, v),
        decreases env@.len() - i,
    {
        let mut key = String::from_str("env.");
        key.append(env[i].0.as_str());
        push_entry(m, key.as_str(), env[i].1.clone());
        i += 1;
    }
}

/// A shell tool; it declares every capability, since a command may do
/// anything.
pub struct BashTool;

impl BashTool {
    pub fn new() -> (r: BashTool) {
        BashTool
    }

    pub fn name(&self) -> (r: &'static str)
        ensures
            r@ == "bash"@,
    {
        "bash"
    }

    pub fn capabilities(&self) -> (r: Vec<ToolCapability>)
        ensures
            r@ == seq![ToolCapability::Read, ToolCapability::Write, ToolCapability::Network],
    {
        let mut v = Vec::new();
        v.push(ToolCapability::Read);
        v.push(ToolCapability::Write);
        v.push(ToolCapability::Network);
        v
    }

    /// What to spawn for `params`; a blank command is refused.
    pub fn plan_command(&self, params: &BashToolParams) -> (r: Result<CommandPlan, String>)
        ensures
            blank(params.command@) ==> (r matches Err(e) && e@ == empty_command_text()),
            !blank(params.command@) ==> (r matches Ok(p) && {
                &&& p.program@ == "bash"@
                &&& p.args@.len() == 2
                &&& p.args@[0]@ == "-c"@
                &&& p.args@[1]@ == params.command@
                &&& p.working_dir == params.working_dir
                &&& same_pairs(p.env@, params.env@)
                &&& p.timeout_secs == match params.timeout { Some(t) => Some(t as u64), None => None }
                &&& p.new_process_group
            }),
    {
        if is_blank(params.command.as_str()) {
            return Err(String::from_str("Command cannot be empty"));
        }
        let mut args = Vec::new();
        args.push(String::from_str("-c"));
        args.push(params.command.clone());
        let working_dir = match &params.working_dir {
            Some(d) => Some(d.clone()),
            None => None,
        };
        let timeout_secs = match params.timeout {
            Some(t) => Some(t as u64),
            None => None,
        };
        Ok(CommandPlan {
            program: String::from_str("bash"),
            args,
            working_dir,
            env: copy_pairs(&params.env),
            timeout_secs,
            new_process_group: true,
        })
    }

    /// The result of a run: a clean exit with code 0 is a success whose
    /// output merges both streams; any other code, a cancellation, a timeout
    /// or a failure to run is an error. The metadata records the command,
    /// the time taken, the bound, and for an exit its code and success.
    pub fn result_from_outcome(&self, params: &BashToolParams, outcome: ExecOutcome, elapsed_ms: u64) -> (r: ToolResult)
        ensures
            clean_exit(outcome) <==> r is Success,
            clean_exit(outcome) ==> r.text() == exit_output(outcome),
            !clean_exit(outcome) ==> r.text() == outcome_error_text(outcome, params.timeout),
            r is Success ==> meta_has(r.meta(), "exit_code"@, "0"@),
            outcome is Exited ==> meta_has(r.meta(), "exit_code"@, decimal(outcome->exit_code as int)),
            r is Error ==> meta_has(r.meta(), "success"@, "false"@),
            meta_has(r.meta(), "command"@, params.command@),
            meta_has(r.meta(), "timeout"@, timeout_value(params.timeout)),
            r is Success ==> meta_has(r.meta(), "success"@, "true"@),
            outcome is Exited && outcome->exit_code != 0
                ==> meta_has(r.meta(), "stdout"@, outcome->stdout@) && meta_has(r.meta(), "stderr"@, outcome->stderr@),
            outcome is Exited ==> forall|i: int| 0 <= i < params.env@.len()
                ==> meta_has(r.meta(), "env."@ + (#[trigger] params.env@[i]).0@, params.env@[i].1@),
    {
        let mut metadata: Metadata = Vec::new();
        push_entry(&mut metadata, "command", params.command.clone());
        match outcome {
            ExecOutcome::Exited { stdout, stderr, exit_code } => {
                push_entry(&mut metadata, "exit_code", int_to_text(exit_code as i64));
                push_entry(&mut metadata, "execution_time_ms", count_to_text(elapsed_ms));
                self.push_timeout(&mut metadata, params);
                let ok = exit_code == 0;
                let success = if ok { String::from_str("true") } else { String::from_str("false") };
                assert(ok ==> success@ == "true"@);
                assert(!ok ==> success@ == "false"@);
                push_entry(&mut metadata, "success", success);
                assert(!ok ==> meta_has(metadata@, "success"@, "false"@));
                if let Some(dir) = &params.working_dir {
                    push_entry(&mut metadata, "working_dir", dir.clone());
                }
                push_env(&mut metadata, &params.env);
                if !ok {
                    push_entry(&mut metadata, "stdout", stdout.clone());
                    push_entry(&mut metadata, "stderr", stderr.clone());
                }
                let stderr_len = stderr.unicode_len();
                if stderr_len > 0 {
                    push_entry(&mut metadata, "has_stderr", String::from_str("true"));
                    push_entry(&mut metadata, "stderr_length", count_to_text(stderr_len as u64));
                }
                proof {
                    reveal_strlit("0");
                    if ok {
                        assert(decimal(exit_code as int) =~= "0"@);
                    }
                }
                if ok {
                    ToolResult::Success { output: combine_output(stdout, stderr), metadata }
                } else {
                    ToolResult::Error { error: failure_message(exit_code, stderr.as_str()), metadata }
                }
            }
            ExecOutcome::Cancelled => {
                self.push_failure_entries(&mut metadata, params, elapsed_ms);
                ToolResult::Error { error: String::from_str("Command was cancelled by user"), metadata }
            }
            ExecOutcome::TimedOut => {
                self.push_failure_entries(&mut metadata, params, elapsed_ms);
                let error = match params.timeout {
                    Some(t) => timeout_message(t),
                    None => String::from_str("Command timed out"),
                };
                ToolResult::Error { error, metadata }
            }
            ExecOutcome::Failed { message } => {
                self.push_failure_entries(&mut metadata, params, elapsed_ms);
                ToolResult::Error { error: message, metadata }
            }
        }
    }

    fn push_timeout(&self, m: &mut Metadata, params: &BashToolParams)
        ensures
            meta_has(final(m)@, "timeout"@, timeout_value(params.timeout)),
            forall|k: Seq<char>, v: Seq<char>| meta_has(old(m)@, k, v) ==> meta_has(final(m)@, k, v),
    {
        let v = match params.timeout {
            Some(t) => count_to_text(t as u64),
            None => String::from_str("none"),
        };
        push_entry(m, "timeout", v);
    }

    fn push_failure_entries(&self, m: &mut Metadata, params: &BashToolParams, elapsed_ms: u64)
        ensures
            meta_has(final(m)@, "success"@, "false"@),
            meta_has(final(m)@, "timeout"@, timeout_value(params.timeout)),
            forall|k: Seq<char>, v: Seq<char>| meta_has(old(m)@, k, v) ==> meta_has(final(m)@, k, v),
    {
        push_entry(m, "execution_time_ms", count_to_text(elapsed_ms));
        self.push_timeout(m, params);
        push_entry(m, "success", String::from_str("false"));
    }
}

} // verus!
