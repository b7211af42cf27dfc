//! The agent-loop orchestrator.
//!
//! A turn starts with external input and runs one or more generation
//! rounds.  Each round either ends in a complete textual answer, which
//! finishes the turn, or in a batch of assembled tool calls; then the
//! batch is dispatched, its results are re-correlated into request
//! order and appended to the history, and the loop-control state —
//! which the model steers through a dedicated control capability —
//! decides whether another generation round follows without new
//! external input.  The orchestrator is the single writer of the
//! conversation history.

use vstd::prelude::*;

use crate::accumulator::ToolCallRecord;
use crate::conversation::{ConversationState, Message};
use crate::dispatcher::{correlate_results, correlated, correlation_ok, distinct_ids, id_views, CorrelationError};
use crate::json::{json_parse_ok, json_parses, loop_signal_fields, loop_signal_of};
use crate::messages::{
    HandlerToLooperToolCallRequest, LooperToHandlerToolCallResult, LooperToInterfaceMessage,
    ToolOutcome,
};
use crate::tools::{is_registered, registered_tool};

verus! {

/// Whether the agent should issue another generation round without new
/// external input (`Continue`, with the model's stated reason) or yield
/// control back to the caller (`Done`).
#[derive(Debug, PartialEq, Eq)]
pub enum LooperState {
    Continue(String),
    Done,
}

/// Mathematical model of a `LooperState`: the reason string is taken
/// to its character sequence.
pub enum LooperStateModel {
    ContinueWith(Seq<char>),
    Finished,
}

impl View for LooperState {
    type V = LooperStateModel;

    open spec fn view(&self) -> LooperStateModel {
        match self {
            LooperState::Continue(reason) => LooperStateModel::ContinueWith(reason@),
            LooperState::Done => LooperStateModel::Finished,
        }
    }
}

/// The character sequences behind an optional string.
pub open spec fn opt_view(o: Option<String>) -> Option<Seq<char>> {
    match o {
        Option::Some(s) => Option::Some(s@),
        Option::None => Option::None,
    }
}

/// The reason recorded when the model asks to continue without giving one.
pub open spec fn default_reason() -> Seq<char> {
    "No continue reason provided"@
}

/// What a control signal with the given `state` and `continue_reason`
/// fields makes of the loop state.  `None` stands for a missing field.
/// Only `"continue"` keeps the loop alive; `"done"` and every
/// unrecognized or missing state force `Done`, so a malformed signal
/// can never leave the loop spinning forever.
pub open spec fn signal_outcome(
    state_field: Option<Seq<char>>,
    reason_field: Option<Seq<char>>,
) -> LooperStateModel {
    match state_field {
        Option::Some(s) => if s == "continue"@ {
            match reason_field {
                Option::Some(r) => LooperStateModel::ContinueWith(r),
                Option::None => LooperStateModel::ContinueWith(default_reason()),
            }
        } else {
            LooperStateModel::Finished
        },
        Option::None => LooperStateModel::Finished,
    }
}

/// Applies a loop-control signal: `"done"` and every unrecognized or
/// missing state force `Done`; `"continue"` records the model's reason.
pub fn apply_signal(state_field: Option<String>, reason_field: Option<String>) -> (r:
    LooperState)
    ensures
        r@ == signal_outcome(opt_view(state_field), opt_view(reason_field)),
{
    match state_field {
        Option::Some(s) => {
            if s == String::from_str("continue") {
                match reason_field {
                    Option::Some(r) => LooperState::Continue(r),
                    Option::None => LooperState::Continue(
                        String::from_str("No continue reason provided"),
                    ),
                }
            } else {
                LooperState::Done
            }
        },
        Option::None => LooperState::Done,
    }
}

/// The name of the control capability the model steers the loop with.
pub open spec fn control_tool_name() -> Seq<char> {
    "set_agent_loop_state"@
}

/// The name of the capability that reports the current loop state.
pub open spec fn report_tool_name() -> Seq<char> {
    "get_agent_loop_state"@
}

/// What one announced tool call does to the loop state: a loop-control
/// invocation applies its signal, every other call leaves the state
/// alone.
pub open spec fn signal_for(
    s: LooperStateModel,
    name: Seq<char>,
    args: Seq<char>,
) -> LooperStateModel {
    if name == control_tool_name() {
        signal_outcome(loop_signal_of(args).0, loop_signal_of(args).1)
    } else {
        s
    }
}

/// `signal_for`, applied to an assembled record.
pub open spec fn record_signal(s: LooperStateModel, r: ToolCallRecord) -> LooperStateModel {
    signal_for(s, r.name@, r.arguments@)
}

/// The loop state after a whole batch of records, in slot-index order.
pub open spec fn apply_signals(s: LooperStateModel, records: Seq<ToolCallRecord>) -> LooperStateModel
    decreases records.len(),
{
    if records.len() == 0 {
        s
    } else {
        record_signal(apply_signals(s, records.drop_last()), records.last())
    }
}

/// Where the orchestrator stands inside a turn.
#[derive(Debug, Clone, Copy, PartialEq, Eq, Structural)]
pub enum TurnPhase {
    /// Between turns: waiting for external input.
    Idle,
    /// A generation request is being drained.
    Generating,
    /// A batch of tool calls is out for execution.
    Dispatching,
}

/// What the external driver must do next.
#[derive(Debug, Clone, Copy, PartialEq, Eq, Structural)]
pub enum TurnStep {
    /// Issue another generation round, with no new external input.
    RequestGeneration,
    /// The turn is over; control returns to the external caller.
    TurnComplete,
}

/// A broken turn protocol.  Both variants are the programming-error
/// class of failure: they are reported loudly and nothing is mutated.
#[derive(Debug, Clone, Copy, PartialEq, Eq, Structural)]
pub enum TurnError {
    /// The call does not fit the current turn phase.
    OutOfTurn,
    /// The batch of results does not match the dispatched requests.
    Correlation(CorrelationError),
}

/// One unit of a dispatch round.  `Execute` must be run by the caller
/// against the real tool; `Resolved` was decided here — loop control,
/// an unknown name, or malformed arguments — and its result only needs
/// to be gathered with the others.
#[derive(Debug, PartialEq, Eq)]
pub enum ToolTask {
    Execute(HandlerToLooperToolCallRequest),
    Resolved(LooperToHandlerToolCallResult),
}

/// One planned dispatch round: the tasks, in slot-index order, and the
/// tool-invocation-started events to forward to the presentation
/// boundary, in the same order.
#[derive(Debug, PartialEq, Eq)]
pub struct DispatchRound {
    pub tasks: Vec<ToolTask>,
    pub started: Vec<LooperToInterfaceMessage>,
}

/// The correlation ids of a batch of records, in slot-index order.
pub open spec fn record_ids(records: Seq<ToolCallRecord>) -> Seq<Seq<char>> {
    records.map(|i: int, r: ToolCallRecord| r.id@)
}

/// How the task planned for one record must look, given the loop state
/// `before` the record's own signal is applied.  Loop control and the
/// state report resolve immediately against the state machine; an
/// unknown name and arguments that are not well-formed JSON resolve to
/// error-shaped results; a registered tool with well-formed arguments
/// is handed out for execution unchanged.
pub open spec fn task_matches(t: ToolTask, r: ToolCallRecord, before: LooperStateModel) -> bool {
    if r.name@ == control_tool_name() {
        &&& t matches ToolTask::Resolved(res)
        &&& res.id@ == r.id@
        &&& res.value matches ToolOutcome::StateSet(st) && st@ == signal_for(
            before,
            r.name@,
            r.arguments@,
        )
    } else if r.name@ == report_tool_name() {
        &&& t matches ToolTask::Resolved(res)
        &&& res.id@ == r.id@
        &&& res.value matches ToolOutcome::StateReport(st) && st@ == before
    } else if !registered_tool(r.name@) {
        &&& t matches ToolTask::Resolved(res)
        &&& res.id@ == r.id@
        &&& res.value matches ToolOutcome::UnknownTool(n) && n@ == r.name@
    } else if !json_parse_ok(r.arguments@) {
        &&& t matches ToolTask::Resolved(res)
        &&& res.id@ == r.id@
        &&& res.value is InvalidArguments
    } else {
        &&& t matches ToolTask::Execute(req)
        &&& req.id@ == r.id@
        &&& req.name@ == r.name@
        &&& req.args@ == r.arguments@
    }
}

/// The agent-loop orchestrator: owns the conversation history, the
/// loop-control state and the in-flight dispatch round.
#[derive(Debug)]
pub struct Looper {
    conversation: ConversationState,
    loop_state: LooperState,
    phase: TurnPhase,
    pending_ids: Vec<String>,
}

impl Looper {
    /// The history so far, oldest first.
    pub closed spec fn history(&self) -> Seq<Message> {
        self.conversation.history()
    }

    /// The dispatch discipline: while a batch of tool calls is out for
    /// execution, the newest history entry is the assistant message
    /// announcing exactly that batch, and the pending correlation ids
    /// are its record ids in slot-index order.  The announcing entry
    /// is answered — by one result message per id, in the same order —
    /// before anything else may join the history.
    pub open spec fn wf(&self) -> bool {
        self.turn_phase() == TurnPhase::Dispatching ==> {
            &&& self.history().len() > 0
            &&& (self.history().last() matches Message::AssistantWithToolCalls(records)
                && record_ids(records@) == self.pending())
        }
    }

    /// The loop-control state, as its model.
    pub closed spec fn state_model(&self) -> LooperStateModel {
        self.loop_state@
    }

    /// Where the orchestrator stands inside a turn.
    pub closed spec fn turn_phase(&self) -> TurnPhase {
        self.phase
    }

    /// The correlation ids of the dispatch round that is out, in
    /// request order; empty outside a dispatch round.
    pub closed spec fn pending(&self) -> Seq<Seq<char>> {
        id_views(self.pending_ids@)
    }

    /// A fresh orchestrator: empty history, loop ready to continue,
    /// no turn in flight.
    pub fn new() -> (r: Looper)
        ensures
            r.history() == Seq::<Message>::empty(),
            r.state_model() == LooperStateModel::ContinueWith(Seq::<char>::empty()),
            r.turn_phase() == TurnPhase::Idle,
            r.pending().len() == 0,
            r.wf(),
    {
        Looper {
            conversation: ConversationState::new(),
            loop_state: LooperState::Continue(String::new()),
            phase: TurnPhase::Idle,
            pending_ids: Vec::new(),
        }
    }

    /// Read access to the history, for building generation requests.
    pub fn messages(&self) -> (r: &Vec<Message>)
        ensures
            r@ == self.history(),
    {
        self.conversation.messages()
    }

    /// The current loop-control state, as a value of its own.
    pub fn current_state(&self) -> (r: LooperState)
        ensures
            r@ == self.state_model(),
    {
        self.loop_state.duplicate()
    }

    /// The current turn phase.
    pub fn current_phase(&self) -> (r: TurnPhase)
        ensures
            r == self.turn_phase(),
    {
        self.phase
    }

    /// Forces the loop state back to `Continue` with an empty reason.
    pub fn set_continue(&mut self)
        ensures
            final(self).state_model() == LooperStateModel::ContinueWith(Seq::<char>::empty()),
            final(self).history() == old(self).history(),
            final(self).turn_phase() == old(self).turn_phase(),
            final(self).pending() == old(self).pending(),
            old(self).wf() ==> final(self).wf(),
    {
        self.loop_state = LooperState::Continue(String::new());
    }

    /// Starts a turn on external input.  The loop state is reset to
    /// `Continue` with an empty reason no matter what the prior turn
    /// left behind, the input is appended to the history, and the
    /// caller must issue the first generation round.  Starting over
    /// also recovers from a turn that aborted mid-flight: whatever was
    /// pending is discarded, the history is kept as it was reached.
    pub fn begin_turn(&mut self, user_text: String)
        ensures
            final(self).state_model() == LooperStateModel::ContinueWith(Seq::<char>::empty()),
            final(self).history() == old(self).history().push(Message::User(user_text)),
            final(self).turn_phase() == TurnPhase::Generating,
            final(self).pending().len() == 0,
            final(self).wf(),
    {
        self.loop_state = LooperState::Continue(String::new());
        self.pending_ids = Vec::new();
        self.phase = TurnPhase::Generating;
        self.conversation.push_user(user_text);
    }

    /// Applies the loop-control signal carried by one announced tool
    /// call; a call to any other capability leaves the state alone.
    pub fn handle_agent_loop_state(&mut self, name: &String, args: &String)
        ensures
            final(self).state_model() == signal_for(old(self).state_model(), name@, args@),
            final(self).history() == old(self).history(),
            final(self).turn_phase() == old(self).turn_phase(),
            final(self).pending() == old(self).pending(),
            old(self).wf() ==> final(self).wf(),
    {
        let next = signal_step(&self.loop_state, name, args);
        self.loop_state = next;
    }

    /// Ends a generation round that produced only text: the complete
    /// answer joins the history and the turn is over — a model that
    /// yields a final answer without announcing tool calls hands
    /// control back to the caller.
    pub fn finish_generation_text(&mut self, text: String) -> (r: Result<
        LooperToInterfaceMessage,
        TurnError,
    >)
        ensures
            old(self).turn_phase() != TurnPhase::Generating ==> r == Result::<
                LooperToInterfaceMessage,
                TurnError,
            >::Err(TurnError::OutOfTurn) && *final(self) == *old(self),
            old(self).wf() ==> final(self).wf(),
            old(self).turn_phase() == TurnPhase::Generating ==> {
                &&& r == Result::<LooperToInterfaceMessage, TurnError>::Ok(
                    LooperToInterfaceMessage::TurnComplete,
                )
                &&& final(self).history() == old(self).history().push(Message::Assistant(text))
                &&& final(self).turn_phase() == TurnPhase::Idle
                &&& final(self).state_model() == old(self).state_model()
                &&& final(self).wf()
            },
    {
        if self.phase != TurnPhase::Generating {
            return Result::Err(TurnError::OutOfTurn);
        }
        self.conversation.push_assistant_text(text);
        self.phase = TurnPhase::Idle;
        Result::Ok(LooperToInterfaceMessage::TurnComplete)
    }

    /// Ends a generation round that announced tool calls.  The batch
    /// joins the history, every loop-control signal in it is applied
    /// in slot-index order, and a dispatch round is planned: one task
    /// per record, in the same order, each either resolved here or
    /// handed out for execution, together with the
    /// tool-invocation-started events for the presentation boundary.
    pub fn finish_generation_tool_calls(&mut self, records: Vec<ToolCallRecord>) -> (r: Result<
        DispatchRound,
        TurnError,
    >)
        ensures
            old(self).turn_phase() != TurnPhase::Generating ==> r == Result::<
                DispatchRound,
                TurnError,
            >::Err(TurnError::OutOfTurn) && *final(self) == *old(self),
            old(self).turn_phase() == TurnPhase::Generating ==> (r matches Result::Ok(round) && {
                &&& final(self).turn_phase() == TurnPhase::Dispatching
                &&& final(self).history() == old(self).history().push(
                    Message::AssistantWithToolCalls(records),
                )
                &&& final(self).state_model() == apply_signals(old(self).state_model(), records@)
                &&& final(self).pending() == record_ids(records@)
                &&& round.tasks@.len() == records@.len()
                &&& forall|i: int| 0 <= i < records@.len() ==> task_matches(
                    #[trigger] round.tasks@[i],
                    records@[i],
                    apply_signals(old(self).state_model(), records@.take(i)),
                )
                &&& round.started@.len() == records@.len()
                &&& forall|i: int| 0 <= i < records@.len() ==> ((#[trigger] round.started@[i])
                    matches LooperToInterfaceMessage::ToolCall(n) && n@ == records@[i].name@)
                &&& final(self).wf()
            }),
    {
        if self.phase != TurnPhase::Generating {
            return Result::Err(TurnError::OutOfTurn);
        }
        let ghost s0 = self.state_model();
        let mut state = self.loop_state.duplicate();
        let mut tasks: Vec<ToolTask> = Vec::new();
        let mut started: Vec<LooperToInterfaceMessage> = Vec::new();
        let mut pending: Vec<String> = Vec::new();
        let mut i: usize = 0;
        while i < records.len()
            invariant
                i <= records@.len(),
                state@ == apply_signals(s0, records@.take(i as int)),
                tasks@.len() == i,
                started@.len() == i,
                pending@.len() == i,
                forall|k: int| 0 <= k < i ==> task_matches(
                    #[trigger] tasks@[k],
                    records@[k],
                    apply_signals(s0, records@.take(k)),
                ),
                forall|k: int| 0 <= k < i ==> ((#[trigger] started@[k])
                    matches LooperToInterfaceMessage::ToolCall(n) && n@ == records@[k].name@),
                forall|k: int| 0 <= k < i ==> (#[trigger] pending@[k])@ == records@[k].id@,
            decreases records@.len() - i,
        {
            let r = &records[i];
            let is_control = r.name == String::from_str("set_agent_loop_state");
            let is_report = r.name == String::from_str("get_agent_loop_state");
            let next = signal_step(&state, &r.name, &r.arguments);
            state = next;
            let task: ToolTask = if is_control {
                ToolTask::Resolved(
                    LooperToHandlerToolCallResult {
                        id: r.id.clone(),
                        value: ToolOutcome::StateSet(state.duplicate()),
                    },
                )
            } else if is_report {
                ToolTask::Resolved(
                    LooperToHandlerToolCallResult {
                        id: r.id.clone(),
                        value: ToolOutcome::StateReport(state.duplicate()),
                    },
                )
            } else if !is_registered(&r.name) {
                ToolTask::Resolved(
                    LooperToHandlerToolCallResult {
                        id: r.id.clone(),
                        value: ToolOutcome::UnknownTool(r.name.clone()),
                    },
                )
            } else if !json_parses(r.arguments.as_str()) {
                ToolTask::Resolved(
                    LooperToHandlerToolCallResult {
                        id: r.id.clone(),
                        value: ToolOutcome::InvalidArguments,
                    },
                )
            } else {
                ToolTask::Execute(
                    HandlerToLooperToolCallRequest {
                        id: r.id.clone(),
                        name: r.name.clone(),
                        args: r.arguments.clone(),
                    },
                )
            };
            tasks.push(task);
            started.push(LooperToInterfaceMessage::ToolCall(r.name.clone()));
            pending.push(r.id.clone());
            i += 1;
            proof {
                assert(records@.take(i as int).drop_last() =~= records@.take(i - 1));
                assert(records@.take(i as int).last() == records@[i - 1]);
                assert(state@ == apply_signals(s0, records@.take(i as int)));
            }
        }
        proof {
            assert(records@.take(records@.len() as int) =~= records@);
            assert(id_views(pending@) =~= record_ids(records@));
        }
        self.loop_state = state;
        self.pending_ids = pending;
        self.phase = TurnPhase::Dispatching;
        self.conversation.push_assistant_tool_calls(records);
        Result::Ok(DispatchRound { tasks, started })
    }

    /// Ends a dispatch round: the barrier has joined, every dispatched
    /// call resolved, and the batch of results — in whatever
    /// completion order — is re-correlated into request order and
    /// appended to the history, one result message per call.  Then the
    /// loop state decides: `Continue` asks the caller for another
    /// generation round with no new external input, `Done` ends the
    /// turn.  A batch that does not match the dispatched requests is a
    /// broken correlation contract: reported loudly, nothing mutated.
    pub fn tools_finished(&mut self, completions: Vec<LooperToHandlerToolCallResult>) -> (r:
        Result<TurnStep, TurnError>)
        ensures
            old(self).turn_phase() != TurnPhase::Dispatching ==> r == Result::<
                TurnStep,
                TurnError,
            >::Err(TurnError::OutOfTurn) && *final(self) == *old(self),
            old(self).turn_phase() == TurnPhase::Dispatching ==> match r {
                Result::Ok(step) => {
                    &&& distinct_ids(old(self).pending())
                    &&& correlation_ok(old(self).pending(), completions@)
                    &&& final(self).history() == old(self).history()
                        + crate::conversation::tool_result_messages(
                        correlated(old(self).pending(), completions@),
                    )
                    &&& final(self).state_model() == old(self).state_model()
                    &&& final(self).pending().len() == 0
                    &&& (old(self).state_model() is Finished ==> step == TurnStep::TurnComplete
                        && final(self).turn_phase() == TurnPhase::Idle)
                    &&& (old(self).state_model() is ContinueWith ==> step
                        == TurnStep::RequestGeneration && final(self).turn_phase()
                        == TurnPhase::Generating)
                    &&& final(self).wf()
                },
                Result::Err(e) => *final(self) == *old(self) && match e {
                    TurnError::OutOfTurn => false,
                    TurnError::Correlation(ce) => match ce {
                        CorrelationError::DuplicateRequestId => !distinct_ids(old(self).pending()),
                        CorrelationError::UnmatchedResults => distinct_ids(old(self).pending())
                            && !correlation_ok(old(self).pending(), completions@),
                    },
                },
            },
    {
        if self.phase != TurnPhase::Dispatching {
            return Result::Err(TurnError::OutOfTurn);
        }
        match correlate_results(&self.pending_ids, &completions) {
            Result::Err(e) => Result::Err(TurnError::Correlation(e)),
            Result::Ok(ordered) => {
                self.conversation.push_tool_results(ordered);
                self.pending_ids = Vec::new();
                match &self.loop_state {
                    LooperState::Done => {
                        self.phase = TurnPhase::Idle;
                        Result::Ok(TurnStep::TurnComplete)
                    },
                    LooperState::Continue(_) => {
                        self.phase = TurnPhase::Generating;
                        Result::Ok(TurnStep::RequestGeneration)
                    },
                }
            },
        }
    }
}

/// One announced call's effect on the loop state, as a value step: a
/// loop-control invocation applies its signal, anything else hands the
/// state back unchanged.
fn signal_step(state: &LooperState, name: &String, args: &String) -> (r: LooperState)
    ensures
        r@ == signal_for(state@, name@, args@),
{
    if *name == String::from_str("set_agent_loop_state") {
        let fields = loop_signal_fields(args.as_str());
        apply_signal(fields.0, fields.1)
    } else {
        state.duplicate()
    }
}

/// The standing instructions handed to the model with every
/// generation request.
pub const SYSTEM_MESSAGE: &'static str = "
        # Agent Loop System Prompt
        You are an AI assistant with access to tools. Use them proactively to complete tasks.

        ## Core Loop Behavior
        You are in a loop that by default *continues*. This means after you respond, you will be re-invoked automatically. Use this to work incrementally - interleaving is your default mode of operation. Do not batch all your work silently and respond once at the end. Work incrementally: act, report, act, report.

        <example>
        Good: Read file A -> tell user what you found -> read file B -> tell user what you found -> done
        Bad: Read file A, read file B, read file C -> dump everything on the user at once -> done
        </example>

        You have one loop control tool:
        - `set_agent_loop_state` - call with `'done'` when you're finished, or `'continue'` with a reason when you have more work. **You must call this every turn.** If you don't set done, you'll be re-invoked.

        That's it. Don't overthink the loop. Focus on the task. Use your tools, tell the user what you found, and keep going until the work is done.

        Loop Rules:
            1. After each tool call or a *related batch of tool calls* you MUST send an assistant message summarizing what you just learned/did and what you'll do next if you plan to continue.
            2. Once you are finished, set the loop state to 'done' and give a final message to the user before handing back control.
            3. For simple greetings or inquiries that do not require tool use, just respond and set done immediately.

        General Rules:
        - When given a task, **break it into steps** before starting. Track your progress explicitly.
        - **Use tools liberally.** Search, read, execute, and verify rather than guessing or assuming.
        - You can use more than one tool call at once! don't hesistate to chain multiple together.
        - After every tool call, **assess what you learned** and decide your next action. Do not stop after a single tool call unless the task is fully complete.
        - When you are done, **always respond to the user** with a concise summary of what you did and the outcome. Never end on a tool call with no follow-up message.

        ## Task Execution
        1. **Plan** - Identify what needs to happen. List concrete steps.
        2. **Act** - Execute steps one at a time using available tools. Batch independent tool calls in parallel when possible.
        3. **Verify** - After implementing, confirm correctness (run tests, check output, re-read files). Do not assume success.
        4. **Report** - Summarize the result to the user. Be concise and direct.

        ## Tool Usage Policy
        - Prefer tools over assumptions. If you can look something up, look it up.
        - When multiple independent pieces of information are needed, make tool calls in parallel.
        - If a tool call fails, adjust your approach and retry rather than giving up.
        - Do not invent information that a tool could provide.

        ## Style
        - Be concise. Do the work, report the result.
        - Do not narrate your thought process unless asked. Skip preamble and postamble.
        - If you cannot complete a task, say so clearly and explain what's blocking you.
    ";

/// The standing instructions, as an owned string.
pub fn get_system_message() -> (r: String)
    ensures
        r@ == SYSTEM_MESSAGE@,
{
    String::from_str(SYSTEM_MESSAGE)
}

} // verus!
