//! Conversation state: the ordered message history.
//!
//! The history is the single source of truth shared across turns.  It
//! is append-only and exclusively owned by the orchestrator, which is
//! its single writer; every operation below only extends it.

use vstd::prelude::*;

use crate::accumulator::ToolCallRecord;
use crate::messages::{LooperToHandlerToolCallResult, ToolOutcome};

verus! {

/// One entry of the conversation history.
#[derive(Debug, PartialEq, Eq)]
pub enum Message {
    User(String),
    Assistant(String),
    AssistantWithToolCalls(Vec<ToolCallRecord>),
    ToolResult(String, ToolOutcome),
    System(String),
}

/// The strictly ordered, append-only message history.
#[derive(Debug)]
pub struct ConversationState {
    messages: Vec<Message>,
}

/// The tool-result messages a batch of correlated results appends, in
/// the order of the batch.
pub open spec fn tool_result_messages(results: Seq<LooperToHandlerToolCallResult>) -> Seq<
    Message,
> {
    results.map(|i: int, r: LooperToHandlerToolCallResult| Message::ToolResult(r.id, r.value))
}

impl ConversationState {
    /// The history so far, oldest first.
    pub closed spec fn history(&self) -> Seq<Message> {
        self.messages@
    }

    /// An empty history: conversation memory starts at process start.
    pub fn new() -> (r: ConversationState)
        ensures
            r.history() == Seq::<Message>::empty(),
    {
        ConversationState { messages: Vec::new() }
    }

    /// Read access for building the next generation request.
    pub fn messages(&self) -> (r: &Vec<Message>)
        ensures
            r@ == self.history(),
    {
        &self.messages
    }

    /// Appends a system message.
    pub fn push_system(&mut self, text: String)
        ensures
            final(self).history() == old(self).history().push(Message::System(text)),
    {
        self.messages.push(Message::System(text));
    }

    /// Appends the external caller's message that triggered the turn.
    pub fn push_user(&mut self, text: String)
        ensures
            final(self).history() == old(self).history().push(Message::User(text)),
    {
        self.messages.push(Message::User(text));
    }

    /// Appends the assistant's accumulated textual answer.
    pub fn push_assistant_text(&mut self, text: String)
        ensures
            final(self).history() == old(self).history().push(Message::Assistant(text)),
    {
        self.messages.push(Message::Assistant(text));
    }

    /// Appends the assistant entry announcing one batch of tool calls.
    pub fn push_assistant_tool_calls(&mut self, records: Vec<ToolCallRecord>)
        ensures
            final(self).history() == old(self).history().push(
                Message::AssistantWithToolCalls(records),
            ),
    {
        self.messages.push(Message::AssistantWithToolCalls(records));
    }

    /// Appends one tool-result message per correlated result, in the
    /// order of the batch — the same order as the announced calls.
    pub fn push_tool_results(&mut self, results: Vec<LooperToHandlerToolCallResult>)
        ensures
            final(self).history() == old(self).history() + tool_result_messages(results@),
    {
        let ghost all = results@;
        let mut rest = results;
        let ghost mut taken: int = 0;
        while rest.len() > 0
            invariant
                taken + rest@.len() == all.len(),
                0 <= taken,
                rest@ =~= all.skip(taken),
                self.history() =~= old(self).history() + tool_result_messages(all.take(taken)),
            decreases rest@.len(),
        {
            let r = rest.remove(0);
            self.messages.push(Message::ToolResult(r.id, r.value));
            proof {
                taken = taken + 1;
                assert(rest@ =~= all.skip(taken));
                assert(tool_result_messages(all.take(taken)) =~= tool_result_messages(
                    all.take(taken - 1),
                ).push(Message::ToolResult(all[taken - 1].id, all[taken - 1].value)));
            }
        }
        proof {
            assert(all.take(all.len() as int) =~= all);
        }
    }
}

} // verus!
