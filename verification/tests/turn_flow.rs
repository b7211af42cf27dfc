//! End-to-end turn scenarios driven through the public orchestrator API.

use looper::accumulator::{
    Accumulator, DriverEvent, FinishReason, GenerationOutcome, ToolCallFragmentEvent,
    ToolCallRecord,
};
use looper::conversation::Message;
use looper::looper::{Looper, LooperState, ToolTask, TurnError, TurnStep};
use looper::messages::{LooperToHandlerToolCallResult, LooperToInterfaceMessage, ToolOutcome};

fn text(s: &str) -> DriverEvent {
    DriverEvent::TextDelta(s.to_string())
}

fn fragment(index: usize, id: Option<&str>, name: Option<&str>, delta: Option<&str>) -> DriverEvent {
    DriverEvent::ToolCallFragment(ToolCallFragmentEvent {
        index,
        id: id.map(|s| s.to_string()),
        name: name.map(|s| s.to_string()),
        arguments_delta: delta.map(|s| s.to_string()),
    })
}

fn drain(events: Vec<DriverEvent>) -> Accumulator {
    Accumulator::accumulate_all(events)
}

fn record(id: &str, name: &str, arguments: &str) -> ToolCallRecord {
    ToolCallRecord {
        id: id.to_string(),
        name: name.to_string(),
        arguments: arguments.to_string(),
    }
}

fn completion(id: &str, payload: &str) -> LooperToHandlerToolCallResult {
    LooperToHandlerToolCallResult {
        id: id.to_string(),
        value: ToolOutcome::Output(payload.to_string()),
    }
}

#[test]
fn text_only_round_trip() {
    let mut lp = Looper::new();
    lp.begin_turn("hi".to_string());
    let acc = drain(vec![text("hello"), DriverEvent::TurnFinished(FinishReason::NaturalStop)]);
    let out = acc.finalize().unwrap();
    let answer = match out {
        GenerationOutcome::Text(t) => t,
        other => panic!("expected text, got {:?}", other),
    };
    let done = lp.finish_generation_text(answer).unwrap();
    assert_eq!(done, LooperToInterfaceMessage::TurnComplete);
    assert_eq!(
        lp.messages().as_slice(),
        &[Message::User("hi".to_string()), Message::Assistant("hello".to_string())],
    );
}

#[test]
fn two_tool_calls_resolve_in_slot_order() {
    let mut lp = Looper::new();
    lp.begin_turn("look around".to_string());
    let acc = drain(vec![
        fragment(0, Some("id-a"), Some("read_file"), Some("{\"path\":\"a.txt\"}")),
        fragment(1, Some("id-b"), Some("list_directory"), Some("{\"path\":\".\"}")),
        DriverEvent::TurnFinished(FinishReason::ToolCalls),
    ]);
    let records = match acc.finalize().unwrap() {
        GenerationOutcome::ToolCalls(rv) => rv,
        other => panic!("expected tool calls, got {:?}", other),
    };
    assert_eq!(records.len(), 2);
    let round = lp.finish_generation_tool_calls(records).unwrap();
    assert_eq!(round.tasks.len(), 2);
    for (i, expected_name) in ["read_file", "list_directory"].iter().enumerate() {
        match &round.tasks[i] {
            ToolTask::Execute(req) => assert_eq!(&req.name, expected_name),
            other => panic!("expected execute task, got {:?}", other),
        }
        assert_eq!(
            round.started[i],
            LooperToInterfaceMessage::ToolCall(expected_name.to_string()),
        );
    }
    // results arrive in the opposite completion order
    let completions = vec![completion("id-b", "{\"entries\":[]}"), completion("id-a", "{\"content\":\"\"}")];
    let step = lp.tools_finished(completions).unwrap();
    assert_eq!(step, TurnStep::RequestGeneration);
    let history = lp.messages();
    let n = history.len();
    assert_eq!(
        history[n - 2],
        Message::ToolResult("id-a".to_string(), ToolOutcome::Output("{\"content\":\"\"}".to_string())),
    );
    assert_eq!(
        history[n - 1],
        Message::ToolResult("id-b".to_string(), ToolOutcome::Output("{\"entries\":[]}".to_string())),
    );
}

#[test]
fn malformed_arguments_become_error_result_and_turn_proceeds() {
    let mut lp = Looper::new();
    lp.begin_turn("go".to_string());
    let round = lp
        .finish_generation_tool_calls(vec![record("id-1", "read_file", "this is not json")])
        .unwrap();
    assert_eq!(
        round.tasks[0],
        ToolTask::Resolved(LooperToHandlerToolCallResult {
            id: "id-1".to_string(),
            value: ToolOutcome::InvalidArguments,
        }),
    );
    let step = lp
        .tools_finished(vec![LooperToHandlerToolCallResult {
            id: "id-1".to_string(),
            value: ToolOutcome::InvalidArguments,
        }])
        .unwrap();
    assert_eq!(step, TurnStep::RequestGeneration);
}

#[test]
fn unknown_tool_is_synthesized_error_not_crash() {
    let mut lp = Looper::new();
    lp.begin_turn("go".to_string());
    let round = lp
        .finish_generation_tool_calls(vec![record("id-9", "launch_rockets", "{}")])
        .unwrap();
    assert_eq!(
        round.tasks[0],
        ToolTask::Resolved(LooperToHandlerToolCallResult {
            id: "id-9".to_string(),
            value: ToolOutcome::UnknownTool("launch_rockets".to_string()),
        }),
    );
}

#[test]
fn control_tool_done_completes_turn_after_dispatch() {
    let mut lp = Looper::new();
    lp.begin_turn("finish up".to_string());
    let round = lp
        .finish_generation_tool_calls(vec![record(
            "id-ctl",
            "set_agent_loop_state",
            "{\"state\":\"done\"}",
        )])
        .unwrap();
    let resolved = match &round.tasks[0] {
        ToolTask::Resolved(res) => res,
        other => panic!("expected resolved control task, got {:?}", other),
    };
    assert_eq!(resolved.value, ToolOutcome::StateSet(LooperState::Done));
    let completions = vec![LooperToHandlerToolCallResult {
        id: "id-ctl".to_string(),
        value: ToolOutcome::StateSet(LooperState::Done),
    }];
    let step = lp.tools_finished(completions).unwrap();
    assert_eq!(step, TurnStep::TurnComplete);
    assert_eq!(lp.current_state(), LooperState::Done);
}

#[test]
fn control_tool_continue_keeps_looping_with_reason() {
    let mut lp = Looper::new();
    lp.begin_turn("keep going".to_string());
    let round = lp
        .finish_generation_tool_calls(vec![record(
            "c1",
            "set_agent_loop_state",
            "{\"state\":\"continue\",\"continue_reason\":\"scan the other files\"}",
        )])
        .unwrap();
    assert_eq!(
        lp.current_state(),
        LooperState::Continue("scan the other files".to_string()),
    );
    let ack = match round.tasks.into_iter().next().unwrap() {
        ToolTask::Resolved(res) => res,
        other => panic!("expected resolved control task, got {:?}", other),
    };
    let step = lp.tools_finished(vec![ack]).unwrap();
    assert_eq!(step, TurnStep::RequestGeneration);
}

#[test]
fn unrecognized_control_state_forces_done() {
    let mut lp = Looper::new();
    lp.begin_turn("x".to_string());
    lp.finish_generation_tool_calls(vec![record(
        "c2",
        "set_agent_loop_state",
        "{\"state\":\"maybe\"}",
    )])
    .unwrap();
    assert_eq!(lp.current_state(), LooperState::Done);
}

#[test]
fn missing_control_state_forces_done() {
    let mut lp = Looper::new();
    lp.begin_turn("x".to_string());
    lp.finish_generation_tool_calls(vec![record("c3", "set_agent_loop_state", "{}")])
        .unwrap();
    assert_eq!(lp.current_state(), LooperState::Done);
}

#[test]
fn continue_without_reason_gets_default_reason() {
    let mut lp = Looper::new();
    lp.begin_turn("x".to_string());
    lp.finish_generation_tool_calls(vec![record(
        "c4",
        "set_agent_loop_state",
        "{\"state\":\"continue\"}",
    )])
    .unwrap();
    assert_eq!(
        lp.current_state(),
        LooperState::Continue("No continue reason provided".to_string()),
    );
}

#[test]
fn loop_state_resets_on_every_begin_turn() {
    let mut lp = Looper::new();
    lp.begin_turn("first".to_string());
    lp.finish_generation_tool_calls(vec![record(
        "c5",
        "set_agent_loop_state",
        "{\"state\":\"done\"}",
    )])
    .unwrap();
    assert_eq!(lp.current_state(), LooperState::Done);
    lp.begin_turn("second".to_string());
    assert_eq!(lp.current_state(), LooperState::Continue(String::new()));
}

#[test]
fn state_report_reflects_current_state() {
    let mut lp = Looper::new();
    lp.begin_turn("x".to_string());
    let round = lp
        .finish_generation_tool_calls(vec![
            record(
                "c6",
                "set_agent_loop_state",
                "{\"state\":\"continue\",\"continue_reason\":\"next step\"}",
            ),
            record("c7", "get_agent_loop_state", "{}"),
        ])
        .unwrap();
    assert_eq!(
        round.tasks[1],
        ToolTask::Resolved(LooperToHandlerToolCallResult {
            id: "c7".to_string(),
            value: ToolOutcome::StateReport(LooperState::Continue("next step".to_string())),
        }),
    );
}

#[test]
fn out_of_turn_calls_are_rejected() {
    let mut lp = Looper::new();
    assert_eq!(
        lp.finish_generation_text("stray".to_string()),
        Err(TurnError::OutOfTurn),
    );
    assert_eq!(lp.tools_finished(vec![]), Err(TurnError::OutOfTurn));
    lp.begin_turn("x".to_string());
    assert_eq!(lp.tools_finished(vec![]), Err(TurnError::OutOfTurn));
}

#[test]
fn empty_tool_call_batch_still_loops() {
    let mut lp = Looper::new();
    lp.begin_turn("x".to_string());
    let round = lp.finish_generation_tool_calls(Vec::new()).unwrap();
    assert!(round.tasks.is_empty());
    assert!(round.started.is_empty());
    let step = lp.tools_finished(Vec::new()).unwrap();
    assert_eq!(step, TurnStep::RequestGeneration);
}

#[test]
fn tool_call_finish_with_no_fragments_yields_empty_batch() {
    let acc = drain(vec![DriverEvent::TurnFinished(FinishReason::ToolCalls)]);
    match acc.finalize().unwrap() {
        GenerationOutcome::ToolCalls(rv) => assert!(rv.is_empty()),
        other => panic!("expected tool calls, got {:?}", other),
    }
}

#[test]
fn history_persists_across_turns() {
    let mut lp = Looper::new();
    lp.begin_turn("one".to_string());
    lp.finish_generation_text("first answer".to_string()).unwrap();
    lp.begin_turn("two".to_string());
    lp.finish_generation_text("second answer".to_string()).unwrap();
    assert_eq!(
        lp.messages().as_slice(),
        &[
            Message::User("one".to_string()),
            Message::Assistant("first answer".to_string()),
            Message::User("two".to_string()),
            Message::Assistant("second answer".to_string()),
        ],
    );
}
