//! The orchestration loop: it asks the brain for a step, has the proposed
//! tool calls run, appends their results to the trace in the order they were
//! proposed, and decides when to stop. The brain, the tools and the
//! listeners are driven by the caller, which reports back each outcome.

use vstd::prelude::*;
use crate::capability::{ClaimManager, ToolCapability};
use crate::mcp::random_uuid;
use crate::tool::{admitted, first_named, lemma_denied_call_not_admitted, prepare_call, ToolCall, ToolResult, ToolSpec};

verus! {

/// One message of the conversation.
#[derive(Clone, Debug)]
pub enum ChatMessage {
    User { content: String },
    Assistant { content: Option<String>, tool_calls: Vec<ToolCall> },
    Tool { tool_call_id: String, content: String },
}

/// Where the loop stands.
#[derive(Clone, Copy, Debug, PartialEq, Eq, Structural)]
pub enum AgentState {
    AwaitingStep,
    ExecutingTools,
    CheckingGoal,
    Terminated,
}

/// What the brain proposed: text alone, or text with tool calls.
#[derive(Clone, Debug)]
pub enum BrainStep {
    Text { content: String },
    ToolCalls { content: Option<String>, calls: Vec<ToolCall> },
}

/// What listeners are told; they must not hold the loop up.
#[derive(Clone, Debug)]
pub enum AgentEvent {
    StateChanged { from: AgentState, to: AgentState },
    ToolDispatched { tool_call_id: String, tool_name: String },
    ToolCompleted { tool_call_id: String, success: bool },
    BrainFailed { message: String },
}

/// What the caller is asked to do next.
#[derive(Clone, Debug)]
pub enum AgentAction {
    /// Ask the brain for the next step, given the trace.
    AskBrain,
    /// Run the calls, concurrently if it likes, and report each result by the
    /// proposal index given with it.
    RunTools { calls: Vec<(usize, ToolCall)> },
    /// Ask whether the task is complete.
    CheckGoal,
    /// The run is over.
    Stop,
}

/// One run of the loop, bound to a trace, a tool set and a claim policy.
pub struct AgentCore {
    pub session_id: String,
    pub state: AgentState,
    pub trace: Vec<ChatMessage>,
    pub tools: Vec<ToolSpec>,
    pub permissions: ClaimManager,
    /// Whether a finished step asks for a goal check before stopping.
    pub check_goal: bool,
    /// The calls of the current step, in proposal order.
    pub pending: Vec<ToolCall>,
    /// Their results so far, by proposal index.
    pub results: Vec<Option<ToolResult>>,
    /// Events not yet handed to listeners.
    pub events: Vec<AgentEvent>,
}

/// The trace entry for a call's result.
pub open spec fn is_tool_entry(m: ChatMessage, call: ToolCall, result: ToolResult) -> bool {
    m matches ChatMessage::Tool { tool_call_id, content }
        && tool_call_id@ == call.tool_call_id@ && content@ == result.text()
}

/// `added` holds one entry per call, in proposal order, each carrying that
/// call's result, whatever order the results came in.
pub open spec fn entries_in_proposal_order(
    added: Seq<ChatMessage>,
    calls: Seq<ToolCall>,
    results: Seq<Option<ToolResult>>,
) -> bool {
    &&& added.len() == calls.len()
    &&& forall|i: int| 0 <= i < calls.len() ==> results[i] is Some
        && is_tool_entry(#[trigger] added[i], calls[i], results[i]->Some_0)
}

pub open spec fn all_reported(results: Seq<Option<ToolResult>>) -> bool {
    forall|i: int| 0 <= i < results.len() ==> (#[trigger] results[i]) is Some
}

/// The calls handed out to run: exactly those of the step still without a
/// result, each with its proposal index, in proposal order.
pub open spec fn dispatch_list(
    calls: Seq<(usize, ToolCall)>,
    pending: Seq<ToolCall>,
    results: Seq<Option<ToolResult>>,
) -> bool {
    &&& forall|k: int| 0 <= k < calls.len() ==> (#[trigger] calls[k]).0 < pending.len()
        && results[calls[k].0 as int] is None && calls[k].1 == pending[calls[k].0 as int]
    &&& forall|i: int| 0 <= i < pending.len() && (#[trigger] results[i]) is None
        ==> exists|k: int| 0 <= k < calls.len() && (#[trigger] calls[k]).0 == i
    &&& forall|a: int, b: int| 0 <= a < b < calls.len() ==> (#[trigger] calls[a]).0 < (#[trigger] calls[b]).0
}

/// Each entry is the result entry of the call at the same position.
pub open spec fn entries_for_calls(added: Seq<ChatMessage>, calls: Seq<ToolCall>) -> bool {
    added.len() == calls.len() && forall|i: int| 0 <= i < calls.len()
        ==> ((#[trigger] added[i]) matches ChatMessage::Tool { tool_call_id, .. } && tool_call_id@ == calls[i].tool_call_id@)
}

impl AgentCore {
    /// While tools run: one result slot per call, some still open, and a slot
    /// is open only for a call the framework admitted.
    pub open spec fn wf(&self) -> bool {
        self.state == AgentState::ExecutingTools ==> {
            &&& self.pending@.len() == self.results@.len()
            &&& self.pending@.len() > 0
            &&& !all_reported(self.results@)
            &&& forall|i: int| 0 <= i < self.results@.len() && (#[trigger] self.results@[i]) is None
                ==> admitted(self.tools@, self.permissions, self.pending@[i])
        }
    }

    /// The fields fixed for the whole run.
    pub open spec fn same_setup(&self, other: &AgentCore) -> bool {
        &&& self.session_id == other.session_id
        &&& self.tools == other.tools
        &&& self.permissions == other.permissions
        &&& self.check_goal == other.check_goal
    }

    pub fn new(
        session_id: String,
        trace: Vec<ChatMessage>,
        tools: Vec<ToolSpec>,
        permissions: ClaimManager,
    ) -> (r: AgentCore)
        ensures
            r.wf(),
            r.state == AgentState::AwaitingStep,
            r.trace == trace,
            r.session_id == session_id,
            r.tools == tools,
            r.permissions == permissions,
            r.check_goal,
    {
        AgentCore {
            session_id,
            state: AgentState::AwaitingStep,
            trace,
            tools,
            permissions,
            check_goal: true,
            pending: Vec::new(),
            results: Vec::new(),
            events: Vec::new(),
        }
    }

    fn move_to(&mut self, to: AgentState)
        ensures
            final(self).state == to,
            final(self).trace == old(self).trace,
            final(self).pending == old(self).pending,
            final(self).results == old(self).results,
            final(self).same_setup(old(self)),
    {
        let from = self.state;
        self.state = to;
        self.events.push(AgentEvent::StateChanged { from, to });
    }

    /// What the caller must do in the current state. While tools run, only
    /// the calls still without a result are handed out.
    pub fn next_action(&self) -> (r: AgentAction)
        requires
            self.wf(),
        ensures
            self.state == AgentState::AwaitingStep ==> r is AskBrain,
            self.state == AgentState::ExecutingTools ==> (r matches AgentAction::RunTools { calls }
                && dispatch_list(calls@, self.pending@, self.results@)),
            self.state == AgentState::CheckingGoal ==> r is CheckGoal,
            self.state == AgentState::Terminated ==> r is Stop,
    {
        match self.state {
            AgentState::AwaitingStep => AgentAction::AskBrain,
            AgentState::ExecutingTools => {
                let mut calls: Vec<(usize, ToolCall)> = Vec::new();
                let mut i: usize = 0;
                while i < self.pending.len()
                    invariant
                        self.wf(),
                        self.state == AgentState::ExecutingTools,
                        i <= self.pending@.len(),
                        forall|k: int| 0 <= k < calls@.len() ==> (#[trigger] calls@[k]).0 < i
                            && self.results@[calls@[k].0 as int] is None && calls@[k].1 == self.pending@[calls@[k].0 as int],
                        forall|m: int| 0 <= m < i && (#[trigger] self.results@[m]) is None
                            ==> exists|k: int| 0 <= k < calls@.len() && (#[trigger] calls@[k]).0 == m,
                        forall|a: int, b: int| 0 <= a < b < calls@.len() ==> (#[trigger] calls@[a]).0 < (#[trigger] calls@[b]).0,
                    decreases self.pending@.len() - i,
                {
                    if self.results[i].is_none() {
                        let ghost before = calls@;
                        calls.push((i, self.pending[i].copy()));
                        proof {
                            assert forall|m: int| 0 <= m < i + 1 && (#[trigger] self.results@[m]) is None
                                implies exists|k: int| 0 <= k < calls@.len() && (#[trigger] calls@[k]).0 == m by {
                                if m == i {
                                    assert(calls@[before.len() as int].0 == m);
                                } else {
                                    let k = choose|k: int| 0 <= k < before.len() && (#[trigger] before[k]).0 == m;
                                    assert(calls@[k] == before[k]);
                                }
                            }
                        }
                    }
                    i += 1;
                }
                AgentAction::RunTools { calls }
            }
            AgentState::CheckingGoal => AgentAction::CheckGoal,
            AgentState::Terminated => AgentAction::Stop,
        }
    }

    /// Takes the brain's step. Text alone leads to the goal check (or the end,
    /// without one) and dispatches nothing. Each proposed call first goes
    /// through the framework's check: a refused call gets its error result at
    /// once and is never handed out; when every call is refused, the results
    /// go to the trace and the loop asks the brain again.
    pub fn on_brain_step(&mut self, step: BrainStep)
        requires
            old(self).wf(),
            old(self).state == AgentState::AwaitingStep,
        ensures
            final(self).wf(),
            final(self).same_setup(old(self)),
            final(self).trace@.len() > old(self).trace@.len(),
            final(self).trace@.subrange(0, old(self).trace@.len() as int) == old(self).trace@,
            final(self).trace@[old(self).trace@.len() as int] is Assistant,
            match step {
                BrainStep::Text { .. } => final(self).state == (if old(self).check_goal {
                    AgentState::CheckingGoal
                } else {
                    AgentState::Terminated
                }) && final(self).pending@.len() == 0 && final(self).trace@.len() == old(self).trace@.len() + 1,
                BrainStep::ToolCalls { calls, .. } => if calls@.len() == 0 {
                    final(self).state == (if old(self).check_goal {
                        AgentState::CheckingGoal
                    } else {
                        AgentState::Terminated
                    }) && final(self).pending@.len() == 0 && final(self).trace@.len() == old(self).trace@.len() + 1
                } else if exists|i: int| 0 <= i < calls@.len() && admitted(old(self).tools@, old(self).permissions, #[trigger] calls@[i]) {
                    &&& final(self).state == AgentState::ExecutingTools
                    &&& final(self).pending@ == calls@
                    &&& final(self).trace@.len() == old(self).trace@.len() + 1
                    &&& forall|i: int| 0 <= i < calls@.len() ==>
                        ((#[trigger] final(self).results@[i]) is None <==> admitted(old(self).tools@, old(self).permissions, calls@[i]))
                        && (final(self).results@[i] matches Some(e) ==> e is Error)
                } else {
                    &&& final(self).state == AgentState::AwaitingStep
                    &&& final(self).pending@.len() == 0
                    &&& entries_for_calls(
                        final(self).trace@.subrange(old(self).trace@.len() + 1 as int, final(self).trace@.len() as int),
                        calls@,
                    )
                },
            },
    {
        let after_text = if self.check_goal { AgentState::CheckingGoal } else { AgentState::Terminated };
        let ghost t0 = self.trace@;
        match step {
            BrainStep::Text { content } => {
                self.trace.push(ChatMessage::Assistant { content: Some(content), tool_calls: Vec::new() });
                self.pending = Vec::new();
                self.results = Vec::new();
                self.move_to(after_text);
            }
            BrainStep::ToolCalls { content, calls } => {
                if calls.len() == 0 {
                    self.trace.push(ChatMessage::Assistant { content, tool_calls: Vec::new() });
                    self.pending = Vec::new();
                    self.results = Vec::new();
                    self.move_to(after_text);
                } else {
                    let mut results: Vec<Option<ToolResult>> = Vec::new();
                    let mut dispatched: Vec<AgentEvent> = Vec::new();
                    let mut any = false;
                    let mut i: usize = 0;
                    while i < calls.len()
                        invariant
                            i <= calls@.len(),
                            results@.len() == i,
                            forall|j: int| 0 <= j < i ==>
                                ((#[trigger] results@[j]) is None <==> admitted(self.tools@, self.permissions, calls@[j]))
                                && (results@[j] matches Some(e) ==> e is Error),
                            any <==> exists|j: int| 0 <= j < i && (#[trigger] results@[j]) is None,
                        decreases calls@.len() - i,
                    {
                        let ghost before = results@;
                        match prepare_call(&self.tools, &self.permissions, &calls[i]) {
                            Ok(_) => {
                                dispatched.push(AgentEvent::ToolDispatched {
                                    tool_call_id: calls[i].tool_call_id.clone(),
                                    tool_name: calls[i].tool_name.clone(),
                                });
                                results.push(None);
                                any = true;
                                assert(results@[i as int] is None);
                            }
                            Err(e) => {
                                results.push(Some(e));
                            }
                        }
                        proof {
                            assert forall|j: int| 0 <= j < i ==> results@[j] == before[j] by {}
                            if !any {
                                assert forall|j: int| 0 <= j < i + 1 implies !((#[trigger] results@[j]) is None) by {
                                    if j < i { assert(results@[j] == before[j]); }
                                }
                            }
                        }
                        i += 1;
                    }
                    self.events.append(&mut dispatched);
                    let copy = Self::copy_calls(&calls);
                    self.trace.push(ChatMessage::Assistant { content, tool_calls: copy });
                    self.pending = calls;
                    self.results = results;
                    if any {
                        self.move_to(AgentState::ExecutingTools);
                    } else {
                        proof {
                            assert forall|j: int| 0 <= j < self.results@.len() implies (#[trigger] self.results@[j]) is Some by {
                                if self.results@[j] is None {
                                    assert(exists|j: int| 0 <= j < self.results@.len() && (#[trigger] self.results@[j]) is None);
                                }
                            }
                            assert forall|j: int| 0 <= j < self.pending@.len() implies
                                !admitted(old(self).tools@, old(self).permissions, #[trigger] self.pending@[j]) by {
                                assert(self.results@[j] is Some);
                            }
                        }
                        let ghost t1 = self.trace@;
                        let ghost p = self.pending@;
                        let ghost rs = self.results@;
                        self.finish_step();
                        proof {
                            let added = self.trace@.subrange(t1.len() as int, self.trace@.len() as int);
                            let added2 = self.trace@.subrange(t0.len() + 1 as int, self.trace@.len() as int);
                            assert(added2 =~= added);
                            assert forall|i: int| 0 <= i < p.len() implies ((#[trigger] added2[i]) matches ChatMessage::Tool { tool_call_id, .. }
                                && tool_call_id@ == p[i].tool_call_id@) by {
                                assert(is_tool_entry(added[i], p[i], rs[i]->Some_0));
                            }
                            assert(self.trace@.subrange(0, t1.len() as int) == t1);
                            assert(self.trace@[t0.len() as int] == t1[t0.len() as int]);
                            assert forall|j: int| 0 <= j < t0.len() implies self.trace@[j] == t0[j] by {
                                assert(self.trace@.subrange(0, t1.len() as int)[j] == t1[j]);
                            }
                        }
                    }
                }
            }
        }
        proof {
            assert(self.trace@.subrange(0, t0.len() as int) =~= t0) by {
                assert forall|j: int| 0 <= j < t0.len() implies self.trace@[j] == t0[j] by {}
            }
        }
    }

    fn copy_calls(calls: &Vec<ToolCall>) -> (r: Vec<ToolCall>)
        ensures
            r@ == calls@,
    {
        let mut r: Vec<ToolCall> = Vec::new();
        let mut i: usize = 0;
        while i < calls.len()
            invariant
                i <= calls@.len(),
                r@ == calls@.subrange(0, i as int),
            decreases calls@.len() - i,
        {
            r.push(calls[i].copy());
            proof {
                assert(r@ =~= calls@.subrange(0, i + 1));
            }
            i += 1;
        }
        proof {
            assert(calls@.subrange(0, calls@.len() as int) =~= calls@);
        }
        r
    }

    /// A brain error ends the run; it is the caller's to surface.
    pub fn on_brain_error(&mut self, message: String)
        ensures
            final(self).state == AgentState::Terminated,
            final(self).trace == old(self).trace,
            final(self).same_setup(old(self)),
            final(self).wf(),
    {
        self.events.push(AgentEvent::BrainFailed { message });
        self.move_to(AgentState::Terminated);
    }

    /// Appends every result of the step to the trace in proposal order and
    /// goes back to asking the brain.
    fn finish_step(&mut self)
        requires
            old(self).pending@.len() == old(self).results@.len(),
            all_reported(old(self).results@),
        ensures
            final(self).wf(),
            final(self).same_setup(old(self)),
            final(self).state == AgentState::AwaitingStep,
            final(self).pending@.len() == 0,
            final(self).trace@.len() == old(self).trace@.len() + old(self).pending@.len(),
            final(self).trace@.subrange(0, old(self).trace@.len() as int) == old(self).trace@,
            entries_in_proposal_order(
                final(self).trace@.subrange(old(self).trace@.len() as int, final(self).trace@.len() as int),
                old(self).pending@,
                old(self).results@,
            ),
    {
        let n = self.results.len();
        let ghost start = self.trace@.len();
        let ghost before = self.trace@;
        let mut k: usize = 0;
        while k < n
            invariant
                self.results@ == old(self).results@,
                self.pending@ == old(self).pending@,
                before == old(self).trace@,
                self.same_setup(old(self)),
                n == self.results@.len(),
                n == self.pending@.len(),
                k <= n,
                all_reported(self.results@),
                self.trace@.len() == start + k,
                self.trace@.subrange(0, start as int) == before,
                forall|j: int| 0 <= j < k ==> is_tool_entry(#[trigger] self.trace@[start + j], self.pending@[j], self.results@[j]->Some_0),
            decreases n - k,
        {
            let content = match &self.results[k] {
                Some(r) => String::from_str(r.message()),
                None => String::new(),
            };
            let id = self.pending[k].tool_call_id.clone();
            let ghost t0 = self.trace@;
            self.trace.push(ChatMessage::Tool { tool_call_id: id, content });
            proof {
                assert(self.trace@.subrange(0, start as int) =~= t0.subrange(0, start as int));
                assert forall|j: int| 0 <= j < k + 1 implies is_tool_entry(#[trigger] self.trace@[start + j], self.pending@[j], self.results@[j]->Some_0) by {
                    if j < k {
                        assert(self.trace@[start + j] == t0[start + j]);
                    }
                }
            }
            k += 1;
        }
        proof {
            let added = self.trace@.subrange(start as int, self.trace@.len() as int);
            assert forall|i: int| 0 <= i < self.pending@.len() implies self.results@[i] is Some
                && is_tool_entry(#[trigger] added[i], self.pending@[i], self.results@[i]->Some_0) by {
                assert(added[i] == self.trace@[start + i]);
            }
        }
        self.pending = Vec::new();
        self.results = Vec::new();
        self.move_to(AgentState::AwaitingStep);
    }

    /// Records the result of the call at `index` (in proposal order), in
    /// whatever order results arrive. Once every call has its result, the
    /// results are appended to the trace in proposal order and the loop asks
    /// the brain again. An error result is appended like a success.
    pub fn on_tool_result(&mut self, index: usize, result: ToolResult)
        requires
            old(self).wf(),
            old(self).state == AgentState::ExecutingTools,
            index < old(self).pending@.len(),
            old(self).results@[index as int] is None,
        ensures
            final(self).wf(),
            final(self).same_setup(old(self)),
            ({
                let recorded = old(self).results@.update(index as int, Some(result));
                if all_reported(recorded) {
                    &&& final(self).state == AgentState::AwaitingStep
                    &&& final(self).pending@.len() == 0
                    &&& final(self).trace@.subrange(0, old(self).trace@.len() as int) == old(self).trace@
                    &&& entries_in_proposal_order(
                        final(self).trace@.subrange(old(self).trace@.len() as int, final(self).trace@.len() as int),
                        old(self).pending@,
                        recorded,
                    )
                } else {
                    &&& final(self).state == AgentState::ExecutingTools
                    &&& final(self).trace == old(self).trace
                    &&& final(self).pending == old(self).pending
                    &&& final(self).results@ == recorded
                }
            }),
    {
        let success = result.is_success();
        self.events.push(AgentEvent::ToolCompleted { tool_call_id: self.pending[index].tool_call_id.clone(), success });
        self.results.set(index, Some(result));
        let n = self.results.len();
        let mut i: usize = 0;
        while i < n
            invariant
                index < old(self).results@.len(),
                old(self).results@.len() == old(self).pending@.len(),
                old(self).wf(),
                old(self).state == AgentState::ExecutingTools,
                self.results@ == old(self).results@.update(index as int, Some(result)),
                self.trace == old(self).trace,
                self.pending == old(self).pending,
                self.state == old(self).state,
                self.same_setup(old(self)),
                n == self.results@.len(),
                i <= n,
                forall|j: int| 0 <= j < i ==> (#[trigger] self.results@[j]) is Some,
            decreases n - i,
        {
            if self.results[i].is_none() {
                proof {
                    assert(!all_reported(self.results@));
                    assert forall|j: int| 0 <= j < self.results@.len() && (#[trigger] self.results@[j]) is None
                        implies admitted(self.tools@, self.permissions, self.pending@[j]) by {
                        assert(j != index);
                        assert(old(self).results@[j] is None);
                    }
                }
                return;
            }
            i += 1;
        }
        self.finish_step();
    }

    /// The answer of the goal check: done ends the run, else the loop asks
    /// the brain again.
    pub fn on_goal_decision(&mut self, done: bool)
        requires
            old(self).state == AgentState::CheckingGoal,
        ensures
            final(self).state == (if done { AgentState::Terminated } else { AgentState::AwaitingStep }),
            final(self).trace == old(self).trace,
            final(self).same_setup(old(self)),
            final(self).wf(),
    {
        if done {
            self.move_to(AgentState::Terminated);
        } else {
            self.move_to(AgentState::AwaitingStep);
        }
    }

    /// Cancellation from the caller ends the run at once, in any state; the
    /// caller propagates it to the calls in flight.
    pub fn cancel(&mut self)
        ensures
            final(self).state == AgentState::Terminated,
            final(self).trace == old(self).trace,
            final(self).same_setup(old(self)),
            final(self).wf(),
    {
        if self.state != AgentState::Terminated {
            self.move_to(AgentState::Terminated);
        }
    }

    /// Hands the pending events over to the caller's listeners.
    pub fn drain_events(&mut self) -> (r: Vec<AgentEvent>)
        ensures
            r@ == old(self).events@,
            final(self).events@.len() == 0,
            final(self).state == old(self).state,
            final(self).trace == old(self).trace,
            final(self).pending == old(self).pending,
            final(self).results == old(self).results,
            final(self).same_setup(old(self)),
    {
        let mut out = Vec::new();
        core::mem::swap(&mut out, &mut self.events);
        out
    }
}

/// While a step's tools run, a call of a tool that declares a capability the
/// claims leave out, outside sudo mode, already holds its error result; so
/// `next_action`, which hands out only calls without a result, never gives
/// it to the caller to run.
pub proof fn lemma_denied_call_never_dispatched(agent: AgentCore, i: int, k: int, c: ToolCapability)
    requires
        agent.wf(),
        agent.state == AgentState::ExecutingTools,
        0 <= i < agent.pending@.len(),
        first_named(agent.tools@, agent.pending@[i].tool_name@, k),
        agent.tools@[k].capabilities@.contains(c),
        !agent.permissions.in_sudo(),
        !agent.permissions.granted(c),
    ensures
        agent.results@[i] is Some,
        forall|calls: Seq<(usize, ToolCall)>| #[trigger] dispatch_list(calls, agent.pending@, agent.results@)
            ==> forall|m: int| 0 <= m < calls.len() ==> (#[trigger] calls[m]).0 != i,
{
    lemma_denied_call_not_admitted(agent.tools@, agent.permissions, agent.pending@[i], k, c);
}

/// Two trace entries for `call`'s result with the same texts.
pub open spec fn same_tool_entry(a: ChatMessage, b: ChatMessage, call: ToolCall) -> bool {
    match (a, b) {
        (ChatMessage::Tool { tool_call_id: x, content: c }, ChatMessage::Tool { tool_call_id: y, content: d }) =>
            x@ == y@ && c@ == d@ && x@ == call.tool_call_id@,
        _ => false,
    }
}

/// Results appended after a step follow the order in which the calls were
/// proposed, whatever the order of completion: two runs of one step whose
/// results arrived in different orders append the same entries, and the
/// entry at each position belongs to the call proposed at that position.
pub proof fn lemma_trace_follows_proposal_order(
    calls: Seq<ToolCall>,
    results: Seq<Option<ToolResult>>,
    added_one_order: Seq<ChatMessage>,
    added_other_order: Seq<ChatMessage>,
)
    requires
        entries_in_proposal_order(added_one_order, calls, results),
        entries_in_proposal_order(added_other_order, calls, results),
    ensures
        added_one_order.len() == added_other_order.len(),
        forall|i: int| 0 <= i < calls.len()
            ==> same_tool_entry(added_one_order[i], added_other_order[i], #[trigger] calls[i]),
{
    assert forall|i: int| 0 <= i < calls.len()
        implies same_tool_entry(added_one_order[i], added_other_order[i], #[trigger] calls[i]) by {
        assert(is_tool_entry(added_one_order[i], calls[i], results[i]->Some_0));
        assert(is_tool_entry(added_other_order[i], calls[i], results[i]->Some_0));
    }
}

/// Assembles an agent.
pub struct AgentBuilder {
    pub session_id: String,
    pub goal: Option<String>,
    pub trace: Vec<ChatMessage>,
    pub available_tools: Vec<ToolSpec>,
    pub permissions: ClaimManager,
}

impl AgentBuilder {
    /// A builder with a fresh random session id, no goal, trace or tools,
    /// and checked permissions.
    pub fn new() -> (r: AgentBuilder)
        ensures
            r.session_id@.len() == 36,
            r.goal is None,
            r.trace@.len() == 0,
            r.available_tools@.len() == 0,
            !r.permissions.in_sudo(),
    {
        AgentBuilder {
            session_id: random_uuid(),
            goal: None,
            trace: Vec::new(),
            available_tools: Vec::new(),
            permissions: ClaimManager::new(),
        }
    }

    pub fn id(self, session_id: &str) -> (r: AgentBuilder)
        ensures
            r.session_id@ == session_id@,
            r.goal == self.goal,
            r.trace == self.trace,
            r.available_tools == self.available_tools,
            r.permissions == self.permissions,
    {
        AgentBuilder { session_id: String::from_str(session_id), ..self }
    }

    pub fn goal(self, goal: &str) -> (r: AgentBuilder)
        ensures
            r.goal matches Some(g) && g@ == goal@,
            r.trace == self.trace,
            r.session_id == self.session_id,
            r.available_tools == self.available_tools,
            r.permissions == self.permissions,
    {
        AgentBuilder { goal: Some(String::from_str(goal)), ..self }
    }

    pub fn with_traces(self, trace: Vec<ChatMessage>) -> (r: AgentBuilder)
        ensures
            r.trace == trace,
            r.goal == self.goal,
            r.session_id == self.session_id,
            r.available_tools == self.available_tools,
            r.permissions == self.permissions,
    {
        AgentBuilder { trace, ..self }
    }

    pub fn tools(self, available_tools: Vec<ToolSpec>) -> (r: AgentBuilder)
        ensures
            r.available_tools == available_tools,
            r.trace == self.trace,
            r.goal == self.goal,
            r.session_id == self.session_id,
            r.permissions == self.permissions,
    {
        AgentBuilder { available_tools, ..self }
    }

    pub fn permissions(self, permissions: ClaimManager) -> (r: AgentBuilder)
        ensures
            r.permissions == permissions,
            r.trace == self.trace,
            r.goal == self.goal,
            r.session_id == self.session_id,
            r.available_tools == self.available_tools,
    {
        AgentBuilder { permissions, ..self }
    }

    /// Bypasses every permission check of the agent.
    pub fn sudo(self) -> (r: AgentBuilder)
        ensures
            r.permissions.in_sudo(),
            forall|c: ToolCapability| r.permissions.granted(c) == self.permissions.granted(c),
            r.trace == self.trace,
            r.goal == self.goal,
            r.session_id == self.session_id,
            r.available_tools == self.available_tools,
    {
        let mut b = self;
        b.permissions.sudo();
        b
    }

    /// The agent, with the goal, if any, appended to the trace as a user
    /// message.
    pub fn build(self) -> (r: AgentCore)
        ensures
            r.wf(),
            r.state == AgentState::AwaitingStep,
            r.permissions == self.permissions,
            r.session_id == self.session_id,
            r.tools == self.available_tools,
            r.check_goal,
            match self.goal {
                Some(g) => r.trace@.len() == self.trace@.len() + 1
                    && r.trace@.subrange(0, self.trace@.len() as int) == self.trace@
                    && (r.trace@.last() matches ChatMessage::User { content } && content@ == g@),
                None => r.trace == self.trace,
            },
    {
        let mut trace = self.trace;
        let ghost before = trace@;
        if let Some(goal) = self.goal {
            trace.push(ChatMessage::User { content: goal });
            proof {
                assert(trace@.subrange(0, before.len() as int) =~= before);
            }
        }
        AgentCore::new(self.session_id, trace, self.available_tools, self.permissions)
    }
}

} // verus!
