//! Cross-component message types.
//!
//! The handler announces assistant text and tool-call requests; the
//! looper answers each request with exactly one correlated result; the
//! interface receives an ordered stream of presentation events.

use vstd::prelude::*;

use crate::looper::LooperState;

verus! {

/// Presentation events, in the order the interface must render them.
#[derive(Debug, PartialEq, Eq)]
pub enum LooperToInterfaceMessage {
    Assistant(String),
    ToolCall(String),
    TurnComplete,
}

/// A fully-assembled tool call handed over for execution.  `args` is
/// the raw argument text exactly as the model produced it.
#[derive(Debug, PartialEq, Eq)]
pub struct HandlerToLooperToolCallRequest {
    pub id: String,
    pub name: String,
    pub args: String,
}

/// What the handler can announce while a generation is drained.
#[derive(Debug, PartialEq, Eq)]
pub enum HandlerToLooperMessage {
    Assistant(String),
    ToolCallRequest(HandlerToLooperToolCallRequest),
    TurnComplete,
}

/// The value one tool call resolved to.  A tool failure is data
/// returned to the model, never a fatal error: unknown names and
/// malformed arguments get an error-shaped value, and the loop-control
/// capability acknowledges with the state it produced or reported.
#[derive(Debug, PartialEq, Eq)]
pub enum ToolOutcome {
    Output(String),
    UnknownTool(String),
    InvalidArguments,
    StateSet(LooperState),
    StateReport(LooperState),
}

/// The correlated answer to exactly one tool-call request.
#[derive(Debug, PartialEq, Eq)]
pub struct LooperToHandlerToolCallResult {
    pub id: String,
    pub value: ToolOutcome,
}

impl LooperState {
    /// An exact copy; `Clone` derived on a type with a `String` field
    /// promises nothing to the verifier, so the copy is spelled out.
    pub fn duplicate(&self) -> (r: LooperState)
        ensures
            r == *self,
    {
        match self {
            LooperState::Continue(reason) => LooperState::Continue(reason.clone()),
            LooperState::Done => LooperState::Done,
        }
    }
}

impl ToolOutcome {
    /// An exact copy, spelled out for the same reason as
    /// `LooperState::duplicate`.
    pub fn duplicate(&self) -> (r: ToolOutcome)
        ensures
            r == *self,
    {
        match self {
            ToolOutcome::Output(s) => ToolOutcome::Output(s.clone()),
            ToolOutcome::UnknownTool(s) => ToolOutcome::UnknownTool(s.clone()),
            ToolOutcome::InvalidArguments => ToolOutcome::InvalidArguments,
            ToolOutcome::StateSet(s) => ToolOutcome::StateSet(s.duplicate()),
            ToolOutcome::StateReport(s) => ToolOutcome::StateReport(s.duplicate()),
        }
    }
}

impl LooperToHandlerToolCallResult {
    /// An exact copy, spelled out for the same reason as
    /// `LooperState::duplicate`.
    pub fn duplicate(&self) -> (r: LooperToHandlerToolCallResult)
        ensures
            r == *self,
    {
        LooperToHandlerToolCallResult { id: self.id.clone(), value: self.value.duplicate() }
    }
}

} // verus!
