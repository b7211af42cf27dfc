//! Tool registry.
//!
//! Each tool is described by a name, a human-readable description and
//! a JSON-schema-like parameter specification, kept here as plain
//! text.  Execution performs filesystem I/O and lives outside the
//! library; the registry owns the catalog and decides which names are
//! registered, so that an unknown name becomes an error-shaped result
//! instead of a crash.

use vstd::prelude::*;

verus! {

/// The describable shape of one tool: what the model is told about it.
#[derive(Debug, PartialEq, Eq)]
pub struct LooperToolDefinition {
    pub name: String,
    pub description: String,
    pub parameters: String,
}

impl Default for LooperToolDefinition {
    /// An empty definition, to be filled by the builder methods.
    fn default() -> (r: LooperToolDefinition)
        ensures
            r.name@ == Seq::<char>::empty(),
            r.description@ == Seq::<char>::empty(),
            r.parameters@ == Seq::<char>::empty(),
    {
        LooperToolDefinition {
            name: String::new(),
            description: String::new(),
            parameters: String::new(),
        }
    }
}

impl LooperToolDefinition {
    /// Sets the tool's name.
    pub fn name(self, name: &str) -> (r: LooperToolDefinition)
        ensures
            r.name@ == name@,
            r.description == self.description,
            r.parameters == self.parameters,
    {
        LooperToolDefinition {
            name: name.to_owned(),
            description: self.description,
            parameters: self.parameters,
        }
    }

    /// Sets the tool's description.
    pub fn description(self, description: &str) -> (r: LooperToolDefinition)
        ensures
            r.name == self.name,
            r.description@ == description@,
            r.parameters == self.parameters,
    {
        LooperToolDefinition {
            name: self.name,
            description: description.to_owned(),
            parameters: self.parameters,
        }
    }

    /// Sets the tool's parameter specification.
    pub fn paramters(self, parameters: &str) -> (r: LooperToolDefinition)
        ensures
            r.name == self.name,
            r.description == self.description,
            r.parameters@ == parameters@,
    {
        LooperToolDefinition {
            name: self.name,
            description: self.description,
            parameters: parameters.to_owned(),
        }
    }
}

/// Reads the contents of a file.
#[derive(Debug)]
pub struct ReadFileTool;

/// Writes content to a file.
#[derive(Debug)]
pub struct WriteFileTool;

/// Lists the entries of a directory.
#[derive(Debug)]
pub struct ListDirectoryTool;

/// Searches file contents for a pattern.
#[derive(Debug)]
pub struct GrepTool;

/// Finds files matching a glob pattern.
#[derive(Debug)]
pub struct FindFilesTool;

/// Lets the model signal whether the agent loop should continue.
#[derive(Debug)]
pub struct SetAgentLoopStateTool;

/// The definition the read-file tool describes itself with.
pub open spec fn read_file_definition(d: LooperToolDefinition) -> bool {
    &&& d.name@ == "read_file"@
    &&& d.description@
        == "Read the contents of a file at a given path. Returns the file contents as a string."@
    &&& d.parameters@
        == "{\"type\":\"object\",\"properties\":{\"path\":{\"type\":\"string\",\"description\":\"The file path to read (absolute or relative to cwd)\"}},\"required\":[\"path\"]}"@
}

/// The definition the write-file tool describes itself with.
pub open spec fn write_file_definition(d: LooperToolDefinition) -> bool {
    &&& d.name@ == "write_file"@
    &&& d.description@
        == "Write content to a file. Creates the file if it doesn't exist, overwrites if it does."@
    &&& d.parameters@
        == "{\"type\":\"object\",\"properties\":{\"path\":{\"type\":\"string\",\"description\":\"The file path to write to\"},\"content\":{\"type\":\"string\",\"description\":\"The content to write to the file\"}},\"required\":[\"path\",\"content\"]}"@
}

/// The definition the list-directory tool describes itself with.
pub open spec fn list_directory_definition(d: LooperToolDefinition) -> bool {
    &&& d.name@ == "list_directory"@
    &&& d.description@
        == "List files and directories at the given path. Returns names with '/' suffix for directories."@
    &&& d.parameters@
        == "{\"type\":\"object\",\"properties\":{\"path\":{\"type\":\"string\",\"description\":\"The directory path to list (default: current directory)\"}},\"required\":[]}"@
}

/// The definition the grep tool describes itself with.
pub open spec fn grep_definition(d: LooperToolDefinition) -> bool {
    &&& d.name@ == "grep"@
    &&& d.description@
        == "Search for a regex pattern in files. Recursively searches the given path and returns matching lines with file paths and line numbers."@
    &&& d.parameters@
        == "{\"type\":\"object\",\"properties\":{\"pattern\":{\"type\":\"string\",\"description\":\"The regex pattern to search for\"},\"path\":{\"type\":\"string\",\"description\":\"The file or directory to search in (default: current directory)\"}},\"required\":[\"pattern\"]}"@
}

/// The definition the find-files tool describes itself with.
pub open spec fn find_files_definition(d: LooperToolDefinition) -> bool {
    &&& d.name@ == "find_files"@
    &&& d.description@
        == "Find files matching a glob pattern recursively. Returns a list of matching file paths."@
    &&& d.parameters@
        == "{\"type\":\"object\",\"properties\":{\"pattern\":{\"type\":\"string\",\"description\":\"Glob pattern to match, e.g. '**/*.rs', 'src/**/*.toml'\"},\"path\":{\"type\":\"string\",\"description\":\"The root directory to search from (default: current directory)\"}},\"required\":[\"pattern\"]}"@
}

/// The definition the loop-control tool describes itself with.
pub open spec fn set_agent_loop_state_definition(d: LooperToolDefinition) -> bool {
    &&& d.name@ == "set_agent_loop_state"@
    &&& d.description@
        == "You will use this to signal to the agent loop when you want to continue or when to finish your turn. This means that you can choose to continue so that you have the opportunity to use more tools calls even after responding to a user."@
    &&& d.parameters@
        == "{\"type\":\"object\",\"properties\":{\"state\":{\"type\":\"string\",\"enum\":[\"done\",\"continue\"]},\"continue_reason\":{\"type\":\"string\",\"description\":\"If state == 'continue', then provide the continue reason which should be the work you want to accomplish in the next loop iteration.\"}},\"required\":[\"state\"]}"@
}

impl ReadFileTool {
    /// How the tool describes itself to the model.
    pub fn tool(&self) -> (r: LooperToolDefinition)
        ensures
            read_file_definition(r),
    {
        LooperToolDefinition::default().name("read_file").description(
            "Read the contents of a file at a given path. Returns the file contents as a string.",
        ).paramters(
            "{\"type\":\"object\",\"properties\":{\"path\":{\"type\":\"string\",\"description\":\"The file path to read (absolute or relative to cwd)\"}},\"required\":[\"path\"]}",
        )
    }
}

impl WriteFileTool {
    /// How the tool describes itself to the model.
    pub fn tool(&self) -> (r: LooperToolDefinition)
        ensures
            write_file_definition(r),
    {
        LooperToolDefinition::default().name("write_file").description(
            "Write content to a file. Creates the file if it doesn't exist, overwrites if it does.",
        ).paramters(
            "{\"type\":\"object\",\"properties\":{\"path\":{\"type\":\"string\",\"description\":\"The file path to write to\"},\"content\":{\"type\":\"string\",\"description\":\"The content to write to the file\"}},\"required\":[\"path\",\"content\"]}",
        )
    }
}

impl ListDirectoryTool {
    /// How the tool describes itself to the model.
    pub fn tool(&self) -> (r: LooperToolDefinition)
        ensures
            list_directory_definition(r),
    {
        LooperToolDefinition::default().name("list_directory").description(
            "List files and directories at the given path. Returns names with '/' suffix for directories.",
        ).paramters(
            "{\"type\":\"object\",\"properties\":{\"path\":{\"type\":\"string\",\"description\":\"The directory path to list (default: current directory)\"}},\"required\":[]}",
        )
    }
}

impl GrepTool {
    /// How the tool describes itself to the model.
    pub fn tool(&self) -> (r: LooperToolDefinition)
        ensures
            grep_definition(r),
    {
        LooperToolDefinition::default().name("grep").description(
            "Search for a regex pattern in files. Recursively searches the given path and returns matching lines with file paths and line numbers.",
        ).paramters(
            "{\"type\":\"object\",\"properties\":{\"pattern\":{\"type\":\"string\",\"description\":\"The regex pattern to search for\"},\"path\":{\"type\":\"string\",\"description\":\"The file or directory to search in (default: current directory)\"}},\"required\":[\"pattern\"]}",
        )
    }
}

impl FindFilesTool {
    /// How the tool describes itself to the model.
    pub fn tool(&self) -> (r: LooperToolDefinition)
        ensures
            find_files_definition(r),
    {
        LooperToolDefinition::default().name("find_files").description(
            "Find files matching a glob pattern recursively. Returns a list of matching file paths.",
        ).paramters(
            "{\"type\":\"object\",\"properties\":{\"pattern\":{\"type\":\"string\",\"description\":\"Glob pattern to match, e.g. '**/*.rs', 'src/**/*.toml'\"},\"path\":{\"type\":\"string\",\"description\":\"The root directory to search from (default: current directory)\"}},\"required\":[\"pattern\"]}",
        )
    }
}

impl SetAgentLoopStateTool {
    /// How the tool describes itself to the model.
    pub fn tool(&self) -> (r: LooperToolDefinition)
        ensures
            set_agent_loop_state_definition(r),
    {
        LooperToolDefinition::default().name("set_agent_loop_state").description(
            "You will use this to signal to the agent loop when you want to continue or when to finish your turn. This means that you can choose to continue so that you have the opportunity to use more tools calls even after responding to a user.",
        ).paramters(
            "{\"type\":\"object\",\"properties\":{\"state\":{\"type\":\"string\",\"enum\":[\"done\",\"continue\"]},\"continue_reason\":{\"type\":\"string\",\"description\":\"If state == 'continue', then provide the continue reason which should be the work you want to accomplish in the next loop iteration.\"}},\"required\":[\"state\"]}",
        )
    }
}

/// Whether a registry of the standard tools can execute the name.
pub open spec fn registered_tool(n: Seq<char>) -> bool {
    ||| n == "read_file"@
    ||| n == "write_file"@
    ||| n == "list_directory"@
    ||| n == "grep"@
    ||| n == "find_files"@
}

/// Whether the name is one the registry executes.  Every other name,
/// apart from the loop-control capability handled by the orchestrator
/// itself, resolves to an error-shaped result.
pub fn is_registered(name: &String) -> (r: bool)
    ensures
        r == registered_tool(name@),
{
    if *name == String::from_str("read_file") {
        true
    } else if *name == String::from_str("write_file") {
        true
    } else if *name == String::from_str("list_directory") {
        true
    } else if *name == String::from_str("grep") {
        true
    } else if *name == String::from_str("find_files") {
        true
    } else {
        false
    }
}

/// The registry: the set of available tools, read-only after
/// construction.  Dispatch is per name — each name resolves to its own
/// tool.
#[derive(Debug)]
pub struct LooperTools {
    read_file: ReadFileTool,
    write_file: WriteFileTool,
    list_directory: ListDirectoryTool,
    grep_tool: GrepTool,
    find_files: FindFilesTool,
}

impl LooperTools {
    /// Builds the registry of the five standard tools.
    pub fn new() -> (r: LooperTools)
    {
        LooperTools {
            read_file: ReadFileTool,
            write_file: WriteFileTool,
            list_directory: ListDirectoryTool,
            grep_tool: GrepTool,
            find_files: FindFilesTool,
        }
    }

    /// The catalog handed to the model: one definition per registered
    /// tool, names matching exactly what `is_registered` accepts.
    pub fn get_tools(&self) -> (r: Vec<LooperToolDefinition>)
        ensures
            r@.len() == 5,
            read_file_definition(r@[0]),
            write_file_definition(r@[1]),
            list_directory_definition(r@[2]),
            grep_definition(r@[3]),
            find_files_definition(r@[4]),
            forall|i: int| 0 <= i < 5 ==> registered_tool(r@[i].name@),
    {
        let mut v: Vec<LooperToolDefinition> = Vec::new();
        v.push(self.read_file.tool());
        v.push(self.write_file.tool());
        v.push(self.list_directory.tool());
        v.push(self.grep_tool.tool());
        v.push(self.find_files.tool());
        v
    }

    /// Whether the registry can execute the name; per-name dispatch is
    /// decided here and nowhere else.
    pub fn knows(&self, name: &String) -> (r: bool)
        ensures
            r == registered_tool(name@),
    {
        is_registered(name)
    }
}

} // verus!
