//! The tool catalog and the trusted JSON boundary.

use looper::json::json_parses;
use looper::looper::{apply_signal, get_system_message, LooperState};
use looper::tools::{
    is_registered, FindFilesTool, GrepTool, ListDirectoryTool, LooperToolDefinition, LooperTools,
    ReadFileTool, SetAgentLoopStateTool, WriteFileTool,
};

#[test]
fn catalog_lists_the_five_registered_tools() {
    let registry = LooperTools::new();
    let tools = registry.get_tools();
    let names: Vec<&str> = tools.iter().map(|t| t.name.as_str()).collect();
    assert_eq!(names, vec!["read_file", "write_file", "list_directory", "grep", "find_files"]);
    for t in &tools {
        assert!(registry.knows(&t.name));
        assert!(!t.description.is_empty());
        assert!(json_parses(&t.parameters));
    }
}

#[test]
fn read_file_definition_is_exact() {
    let def = ReadFileTool.tool();
    assert_eq!(def.name, "read_file");
    assert_eq!(
        def.description,
        "Read the contents of a file at a given path. Returns the file contents as a string.",
    );
    assert_eq!(
        def.parameters,
        "{\"type\":\"object\",\"properties\":{\"path\":{\"type\":\"string\",\"description\":\"The file path to read (absolute or relative to cwd)\"}},\"required\":[\"path\"]}",
    );
}

#[test]
fn every_tool_describes_itself_under_its_own_name() {
    assert_eq!(WriteFileTool.tool().name, "write_file");
    assert_eq!(ListDirectoryTool.tool().name, "list_directory");
    assert_eq!(GrepTool.tool().name, "grep");
    assert_eq!(FindFilesTool.tool().name, "find_files");
    assert_eq!(SetAgentLoopStateTool.tool().name, "set_agent_loop_state");
}

#[test]
fn builder_sets_each_field() {
    let def = LooperToolDefinition::default()
        .name("example")
        .description("does a thing")
        .paramters("{\"type\":\"object\"}");
    assert_eq!(def.name, "example");
    assert_eq!(def.description, "does a thing");
    assert_eq!(def.parameters, "{\"type\":\"object\"}");
}

#[test]
fn unregistered_names_are_refused() {
    assert!(is_registered(&"grep".to_string()));
    assert!(!is_registered(&"set_agent_loop_state".to_string()));
    assert!(!is_registered(&"".to_string()));
    assert!(!is_registered(&"Read_File".to_string()));
}

#[test]
fn json_parse_check_distinguishes_well_formed_text() {
    assert!(json_parses("{\"path\":\"a.txt\"}"));
    assert!(json_parses("[]"));
    assert!(!json_parses("{\"path\":"));
    assert!(!json_parses("plain words"));
}

#[test]
fn signal_transitions_are_exact() {
    assert_eq!(apply_signal(Some("done".to_string()), None), LooperState::Done);
    assert_eq!(
        apply_signal(Some("continue".to_string()), Some("why".to_string())),
        LooperState::Continue("why".to_string()),
    );
    assert_eq!(
        apply_signal(Some("continue".to_string()), None),
        LooperState::Continue("No continue reason provided".to_string()),
    );
    assert_eq!(apply_signal(Some("bogus".to_string()), None), LooperState::Done);
    assert_eq!(apply_signal(None, Some("why".to_string())), LooperState::Done);
}

#[test]
fn system_message_sets_out_the_loop_protocol() {
    let msg = get_system_message();
    assert!(msg.contains("set_agent_loop_state"));
    assert!(msg.contains("# Agent Loop System Prompt"));
}
