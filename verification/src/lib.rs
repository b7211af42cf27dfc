//! Core of a tool-using conversational agent loop.
//!
//! The library owns the logic that is worth getting right: assembling
//! streamed tool-call fragments into complete records, planning a dispatch
//! round and re-correlating its results in request order, the loop-control
//! state machine that decides whether the agent keeps working, and the
//! append-only conversation history.  Transport, tool execution and
//! rendering live outside, behind plain values.

pub mod accumulator;
pub mod conversation;
pub mod dispatcher;
pub mod json;
pub mod looper;
pub mod messages;
pub mod tools;
