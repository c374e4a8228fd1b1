//! The non-interactive front end: which agent it runs, and what it prints of
//! a finished run.

use vstd::prelude::*;
use crate::agent::ChatMessage;

verus! {

/// The kinds of agent the front end can run.
#[derive(Clone, Copy, Debug, PartialEq, Eq, Structural)]
pub enum AgentKind {
    Coder,
    Searcher,
}

/// The non-interactive front end.
#[derive(Clone, Copy, Debug)]
pub struct AppHeadless {
    pub kind: AgentKind,
}

impl AppHeadless {
    /// Runs the coder.
    pub fn new() -> (r: AppHeadless)
        ensures
            r.kind == AgentKind::Coder,
    {
        AppHeadless { kind: AgentKind::Coder }
    }

    /// What a run prints without `--trace`: the text of its last message
    /// when that is an assistant's text or a tool's result.
    pub fn final_output(trace: &Vec<ChatMessage>) -> (r: Option<&str>)
        ensures
            trace@.len() == 0 ==> r is None,
            trace@.len() > 0 ==> match trace@.last() {
                ChatMessage::Assistant { content: Some(c), .. } => r matches Some(s) && s@ == c@,
                ChatMessage::Tool { content, .. } => r matches Some(s) && s@ == content@,
                _ => r is None,
            },
    {
        if trace.len() == 0 {
            return None;
        }
        match &trace[trace.len() - 1] {
            ChatMessage::Assistant { content: Some(c), .. } => Some(c.as_str()),
            ChatMessage::Tool { content, .. } => Some(content.as_str()),
            _ => None,
        }
    }
}

} // verus!
