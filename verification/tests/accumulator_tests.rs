//! Fragment assembly: interleaving, first-wins fields, gaps, replay.

use looper::accumulator::{
    Accumulator, AccumulatorError, DriverEvent, FinishReason, GenerationOutcome,
    ToolCallFragmentEvent,
};

fn fragment(index: usize, id: Option<&str>, name: Option<&str>, delta: Option<&str>) -> DriverEvent {
    DriverEvent::ToolCallFragment(ToolCallFragmentEvent {
        index,
        id: id.map(|s| s.to_string()),
        name: name.map(|s| s.to_string()),
        arguments_delta: delta.map(|s| s.to_string()),
    })
}

fn drain(events: Vec<DriverEvent>) -> Accumulator {
    Accumulator::accumulate_all(events)
}

fn interleaved_events() -> Vec<DriverEvent> {
    vec![
        fragment(0, Some("a"), Some("read_file"), Some("{\"pa")),
        fragment(1, Some("b"), Some("grep"), Some("{\"patt")),
        fragment(0, None, None, Some("th\":\"x\"")),
        fragment(1, None, None, Some("ern\":\"y\"}")),
        fragment(0, None, None, Some("}")),
        DriverEvent::TurnFinished(FinishReason::ToolCalls),
    ]
}

#[test]
fn interleaved_deltas_concatenate_per_slot_in_arrival_order() {
    let records = match drain(interleaved_events()).finalize().unwrap() {
        GenerationOutcome::ToolCalls(rv) => rv,
        other => panic!("expected tool calls, got {:?}", other),
    };
    assert_eq!(records.len(), 2);
    assert_eq!(records[0].arguments, "{\"path\":\"x\"}");
    assert_eq!(records[1].arguments, "{\"pattern\":\"y\"}");
    assert_eq!(records[0].name, "read_file");
    assert_eq!(records[1].name, "grep");
}

#[test]
fn replaying_the_same_events_yields_identical_records() {
    let first = drain(interleaved_events()).finalize().unwrap();
    let second = drain(interleaved_events()).finalize().unwrap();
    assert_eq!(first, second);
}

#[test]
fn id_and_name_are_set_once_first_non_empty_wins() {
    let records = match drain(vec![
        fragment(0, Some(""), Some(""), None),
        fragment(0, Some("real-id"), Some("read_file"), None),
        fragment(0, Some("late-id"), Some("write_file"), Some("{}")),
        DriverEvent::TurnFinished(FinishReason::ToolCalls),
    ])
    .finalize()
    .unwrap()
    {
        GenerationOutcome::ToolCalls(rv) => rv,
        other => panic!("expected tool calls, got {:?}", other),
    };
    assert_eq!(records[0].id, "real-id");
    assert_eq!(records[0].name, "read_file");
    assert_eq!(records[0].arguments, "{}");
}

#[test]
fn slot_gap_is_an_invalid_assembly() {
    let out = drain(vec![
        fragment(1, Some("b"), Some("grep"), Some("{}")),
        DriverEvent::TurnFinished(FinishReason::ToolCalls),
    ])
    .finalize();
    assert_eq!(out, Err(AccumulatorError::IncompleteAssembly(0)));
}

#[test]
fn stream_error_is_skipped_and_accumulation_continues() {
    let out = drain(vec![
        DriverEvent::TextDelta("par".to_string()),
        DriverEvent::StreamError,
        DriverEvent::TextDelta("tial".to_string()),
        DriverEvent::TurnFinished(FinishReason::NaturalStop),
    ])
    .finalize()
    .unwrap();
    assert_eq!(out, GenerationOutcome::Text("partial".to_string()));
}

#[test]
fn stream_end_without_terminal_event_preserves_partial_text() {
    let out = drain(vec![DriverEvent::TextDelta("cut off".to_string())]).finalize().unwrap();
    assert_eq!(out, GenerationOutcome::Text("cut off".to_string()));
}

#[test]
fn text_fragments_are_forwarded_verbatim() {
    let mut acc = Accumulator::new();
    let fwd = acc.process_event(DriverEvent::TextDelta("chunk".to_string()));
    assert_eq!(fwd, Some("chunk".to_string()));
    let none = acc.process_event(DriverEvent::TurnFinished(FinishReason::NaturalStop));
    assert_eq!(none, None);
}

#[test]
fn missing_id_and_name_finalize_to_empty_strings() {
    let records = match drain(vec![
        fragment(0, None, None, Some("{}")),
        DriverEvent::TurnFinished(FinishReason::ToolCalls),
    ])
    .finalize()
    .unwrap()
    {
        GenerationOutcome::ToolCalls(rv) => rv,
        other => panic!("expected tool calls, got {:?}", other),
    };
    assert_eq!(records[0].id, "");
    assert_eq!(records[0].name, "");
}
