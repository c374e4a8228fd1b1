//! The coder's system prompt: templates with `{{NAME}}` placeholders,
//! filled from facts about the environment that the caller gathers.

use vstd::prelude::*;
use crate::text::{bool_text, bool_to_text, has_sub, replaced, contains_text, replace_text};
use crate::tool::ToolResult;

verus! {

pub const CODER_GUIDELINE: &'static str = r#"
You are KROKIT, a coding agent designed to be your pair programming buddy. Your purpose is to assist users with their software engineering tasks by leveraging the tools at your disposal.
 
### Core Principles:
 
**Helpfulness First:** 
Your primary goal is to be helpful. Understand the user's request and use your tools to achieve their goals. Be proactive when it makes sense, but always keep the user informed about the actions you are taking.

**Security is Paramount:**
 * You must prioritize writing secure code.
 * Never introduce vulnerabilities.
 * Never handle or expose user secrets or credentials.

## Interaction Guidelines:
 
**Clarity and Conciseness:** 
Communicate clearly, directly and accurately. Your output is for a command-line interface, so be brief. Avoid unnecessary chatter. Do not write code when replying to the user unless asked to. If you cannot do something, explain why and offers alternative. 

**Explain Your Actions:** 
Before executing any command that modifies the user's system or files, explain what the command does and why you are running it. You must however keep your explanation short and ideally fewer than 4 lines (unless asked by the user). If you use code editing tools such as edit or write, never copy code in your response. Explain the task, do the task but avoid too many unnecessary explanation, introduction and conclusion. The best explanation is an accurate flow of actions rather than length long chatty response. 

**Follow Conventions:** 
When modifying code, adhere to the existing style, libraries, and patterns of the project. Do not introduce new dependencies without checking if they are already in use.

**Tool Usage:**
 * Use the provided tools to interact with the user's environment.
 * Do not use comments in code to communicate with the user.
 * Use the `todo_write` and `todo_read` tools to plan and track your work, especially for complex tasks. This provide visibility to the user. You must use these tools extensively.

**No Surprises:** 
Do not commit changes to version control unless explicitly asked to do so by the user.

**Proactiveness**
You are allowed to be proactive and take initiative that are aligned with the user intent. For instance if the user asks you to make a function, you can proactively follow your implementation with a call to compile / test the project to make sure that your change were correct. You must however avoid proactively taking actions that are out of scope or unnecessary. For instance if the user asks you to modify a function, you should not immediately assume that this function should be used everywhere. You have to strike a balance between helpfulness, autonomy while also keeping the user in the loop.
"#;

pub const CODER_ENV: &'static str = r#"
### Environment Information:

You are running in the following environment:
<env>
  Today's date: {{TODAY}}
  Platform: {{PLATFORM}}
  OS Version: {{OS_VERSION}}
  Working directory: {{WORKING_DIR}}
  Is Working directory a git repo: {{IS_GIT_REPO}}  
</env>
"#;

pub const CODER_PROMPT: &'static str = r#"{{CODER_GUIDELINE}}

{{CODER_ENV}}"#;

pub const CODER_PROMPT_GIT: &'static str = r#"
<git>
gitStatus: This is the current git status at the last message of the conversation.

Current branch: {{GIT_BRANCH}}

Status: 
{{GIT_STATUS}}

Recent commits: 
{{GIT_LOG}}
</git>
"#;

pub const TODO_STATUS: &'static str = r#"
<todo>
todoStatus: This is the current status of the todo list

{{TODO_LIST}}
</todo>
"#;

pub const CODER_CHECK_GOAL: &'static str = r#"
You are an interactive CLI tool called that helps users with software engineering tasks. Use the instructions below and the tools available to you to assist the user. 

You are typically provided with an history of interaction with a user, we are currently sitting right after your last response that yields no tool call. This usually means that we are going to yield control back to user and wait for its input. However before doing so, we want to give ourself a little assesment and check if we have made a good job at assisting the user and if his last query was properly adressed. As such, based on the previous interaction, reply to the following question: 

"do you consider that the task set by the user is fulfilled and no further action on your part is necessary?". 

Use the tool provided to fill in your decision, the tool expect a decision (yes or no) and a rational:
- YES: if control must be yield back to the user because either the task is fulfilled OR the task cannot be fulfilled for some reason which no further tool call would easily solve.
- NO: if you think that the task is not yet completed and you must go for another round of thinking and tool calling.

Though achieving user's objective is the principal objective, it may happen that it is not possible or that achieving it requires more input from the user or more complex work needs to be done. In that case you can reply Yes. It may happen that you thought you were done, though upon further examination some tool calls could get us closer to user's objective, in that case reply NO.

If you reply is NO, then you must explain to yourself why upon further investigation you think you can do more in this round.
"#;

/// Facts about the machine and the working directory that templates may
/// mention.
#[derive(Clone, Debug)]
pub struct PromptEnv {
    pub today: String,
    pub platform: String,
    pub os_version: String,
    pub working_dir: String,
    pub is_git_repo: bool,
    pub git_branch: String,
    pub git_status: String,
    pub git_log: String,
}

/// The environment placeholders of `t` filled in.
pub open spec fn with_env(t: Seq<char>, e: PromptEnv) -> Seq<char> {
    let a = replaced(t, "{{TODAY}}"@, e.today@);
    let b = replaced(a, "{{PLATFORM}}"@, e.platform@);
    let c = replaced(b, "{{OS_VERSION}}"@, e.os_version@);
    let d = replaced(c, "{{WORKING_DIR}}"@, e.working_dir@);
    replaced(d, "{{IS_GIT_REPO}}"@, bool_text(e.is_git_repo))
}

/// The git placeholders of `t` filled in, or removed outside a repository.
pub open spec fn with_git(t: Seq<char>, e: PromptEnv) -> Seq<char> {
    let branch = if e.is_git_repo { e.git_branch@ } else { Seq::empty() };
    let status = if e.is_git_repo { e.git_status@ } else { Seq::empty() };
    let log = if e.is_git_repo { e.git_log@ } else { Seq::empty() };
    replaced(replaced(replaced(t, "{{GIT_BRANCH}}"@, branch), "{{GIT_STATUS}}"@, status), "{{GIT_LOG}}"@, log)
}

pub open spec fn env_block(e: PromptEnv) -> Seq<char> {
    with_env(CODER_ENV@, e)
}

pub open spec fn git_block(e: PromptEnv) -> Seq<char> {
    replaced(
        replaced(replaced(CODER_PROMPT_GIT@, "{{GIT_BRANCH}}"@, e.git_branch@), "{{GIT_STATUS}}"@, e.git_status@),
        "{{GIT_LOG}}"@,
        e.git_log@,
    )
}

/// The full coder prompt: guideline and environment, then the git block
/// inside a repository.
pub open spec fn base_prompt(e: PromptEnv) -> Seq<char> {
    let head = replaced(
        replaced(CODER_PROMPT@, "{{CODER_GUIDELINE}}"@, CODER_GUIDELINE@),
        "{{CODER_ENV}}"@,
        env_block(e),
    );
    if e.is_git_repo { head + git_block(e) } else { head }
}

/// A template rendered: unchanged without any `{{`; otherwise environment
/// facts, then the guideline, the environment block and the base prompt,
/// then the git facts.
pub open spec fn rendered(t: Seq<char>, e: PromptEnv) -> Seq<char> {
    if !has_sub(t, "{{"@) {
        t
    } else {
        let a = with_env(t, e);
        let b = replaced(a, "{{CODER_GUIDELINE}}"@, CODER_GUIDELINE@);
        let c = replaced(b, "{{CODER_ENV}}"@, env_block(e));
        let d = replaced(c, "{{CODER_BASE_PROMPT}}"@, base_prompt(e));
        with_git(d, e)
    }
}

fn fill_env(t: &str, e: &PromptEnv) -> (r: String)
    ensures
        r@ == with_env(t@, *e),
{
    proof {
        reveal_strlit("{{TODAY}}");
        reveal_strlit("{{PLATFORM}}");
        reveal_strlit("{{OS_VERSION}}");
        reveal_strlit("{{WORKING_DIR}}");
        reveal_strlit("{{IS_GIT_REPO}}");
    }
    let a = replace_text(t, "{{TODAY}}", e.today.as_str());
    let b = replace_text(a.as_str(), "{{PLATFORM}}", e.platform.as_str());
    let c = replace_text(b.as_str(), "{{OS_VERSION}}", e.os_version.as_str());
    let d = replace_text(c.as_str(), "{{WORKING_DIR}}", e.working_dir.as_str());
    let g = bool_to_text(e.is_git_repo);
    replace_text(d.as_str(), "{{IS_GIT_REPO}}", g.as_str())
}

fn fill_git(t: &str, branch: &str, status: &str, log: &str) -> (r: String)
    ensures
        r@ == replaced(replaced(replaced(t@, "{{GIT_BRANCH}}"@, branch@), "{{GIT_STATUS}}"@, status@), "{{GIT_LOG}}"@, log@),
{
    proof {
        reveal_strlit("{{GIT_BRANCH}}");
        reveal_strlit("{{GIT_STATUS}}");
        reveal_strlit("{{GIT_LOG}}");
    }
    let a = replace_text(t, "{{GIT_BRANCH}}", branch);
    let b = replace_text(a.as_str(), "{{GIT_STATUS}}", status);
    replace_text(b.as_str(), "{{GIT_LOG}}", log)
}

fn coder_base_prompt(e: &PromptEnv) -> (r: String)
    ensures
        r@ == base_prompt(*e),
{
    proof {
        reveal_strlit("{{CODER_GUIDELINE}}");
        reveal_strlit("{{CODER_ENV}}");
    }
    let env = fill_env(CODER_ENV, e);
    let a = replace_text(CODER_PROMPT, "{{CODER_GUIDELINE}}", CODER_GUIDELINE);
    let mut head = replace_text(a.as_str(), "{{CODER_ENV}}", env.as_str());
    if e.is_git_repo {
        let git = fill_git(CODER_PROMPT_GIT, e.git_branch.as_str(), e.git_status.as_str(), e.git_log.as_str());
        head.append(git.as_str());
    }
    head
}

/// Fills the placeholders of a system prompt template.
pub fn render_system_prompt_template(template: &str, env: &PromptEnv) -> (r: String)
    ensures
        r@ == rendered(template@, *env),
{
    if !contains_text(template, "{{") {
        return String::from_str(template);
    }
    proof {
        reveal_strlit("{{CODER_GUIDELINE}}");
        reveal_strlit("{{CODER_ENV}}");
        reveal_strlit("{{CODER_BASE_PROMPT}}");
    }
    let a = fill_env(template, env);
    let b = replace_text(a.as_str(), "{{CODER_GUIDELINE}}", CODER_GUIDELINE);
    let block = fill_env(CODER_ENV, env);
    let c = replace_text(b.as_str(), "{{CODER_ENV}}", block.as_str());
    let base = coder_base_prompt(env);
    let d = replace_text(c.as_str(), "{{CODER_BASE_PROMPT}}", base.as_str());
    if env.is_git_repo {
        fill_git(d.as_str(), env.git_branch.as_str(), env.git_status.as_str(), env.git_log.as_str())
    } else {
        proof {
            reveal_strlit("");
            assert(""@ =~= Seq::<char>::empty());
        }
        fill_git(d.as_str(), "", "", "")
    }
}

/// The coder's full system prompt.
pub fn coder_next_step(env: &PromptEnv) -> (r: String)
    ensures
        r@ == rendered("{{CODER_BASE_PROMPT}}"@, *env),
{
    render_system_prompt_template("{{CODER_BASE_PROMPT}}", env)
}

/// The prompt that asks whether the user's task is done.
pub fn coder_check_goal() -> (r: String)
    ensures
        r@ == CODER_CHECK_GOAL@,
{
    String::from_str(CODER_CHECK_GOAL)
}

pub open spec fn todo_status(r: ToolResult) -> Seq<char> {
    match r {
        ToolResult::Success { output, .. } => replaced(TODO_STATUS@, "{{TODO_LIST}}"@, output@),
        ToolResult::Error { .. } => replaced(TODO_STATUS@, "{{TODO_LIST}}"@, "the todo list is empty.."@),
    }
}

/// The todo block of the prompt, from what the todo-reading tool returned.
pub fn todo_status_block(todo: &ToolResult) -> (r: String)
    ensures
        r@ == todo_status(*todo),
{
    proof {
        reveal_strlit("{{TODO_LIST}}");
    }
    match todo {
        ToolResult::Success { output, .. } => replace_text(TODO_STATUS, "{{TODO_LIST}}", output.as_str()),
        ToolResult::Error { .. } => replace_text(TODO_STATUS, "{{TODO_LIST}}", "the todo list is empty.."),
    }
}

} // verus!
