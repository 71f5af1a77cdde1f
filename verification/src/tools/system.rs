//! The system tool: a persistent terminal session and file writing, offered
//! to the model as three functions.
//!
//! Running commands and writing files is outside work; this type holds the
//! decisions around it: which function a call names, what the arguments ask
//! for, how output is paged, and what is answered in every case.

use vstd::prelude::*;
use vstd::string::*;
use std::collections::VecDeque;
use crate::models::FunctionDefinition;
use crate::models::tool::definition::{json_parsed, parsed_json};
use std::path::PathBuf;
use crate::cli::{path_from, path_of};
use crate::text::{json_quoted, json_string, str_eq, text_of};
use super::output::{chunk_output, is_chunking, next_chunk_text, take_next_chunk};

verus! {

broadcast use vstd::string::group_string_axioms;

/// Why a system tool call failed. Paths are held as the text that is shown,
/// I/O errors as their message.
#[derive(Debug)]
pub enum SystemToolError {
    InvalidArguments(String),
    CommandExecution(String),
    FileWriteFailed { path: String, source: String },
    FileAppendFailed { path: String, source: String },
}

/// `{"error":<message>}` with the message written as a JSON string.
pub open spec fn error_json(message: Seq<char>) -> Seq<char> {
    "{\"error\":"@ + json_quoted(message) + "}"@
}

impl SystemToolError {
    /// The message this error displays.
    pub open spec fn spec_message(self) -> Seq<char> {
        match self {
            SystemToolError::InvalidArguments(m) => "Invalid tool arguments: "@ + m@,
            SystemToolError::CommandExecution(m) => "Command execution failed: "@ + m@,
            SystemToolError::FileWriteFailed { path, source } => "Failed to write '"@ + path@
                + "': "@ + source@,
            SystemToolError::FileAppendFailed { path, source } => "Failed to append to '"@
                + path@ + "': "@ + source@,
        }
    }

    /// The message this error displays.
    pub fn message(&self) -> (res: String)
        ensures
            res@ == self.spec_message(),
    {
        match self {
            SystemToolError::InvalidArguments(m) => {
                let mut r = String::from_str("Invalid tool arguments: ");
                r.append(m.as_str());
                r
            },
            SystemToolError::CommandExecution(m) => {
                let mut r = String::from_str("Command execution failed: ");
                r.append(m.as_str());
                r
            },
            SystemToolError::FileWriteFailed { path, source } => {
                let mut r = String::from_str("Failed to write '");
                r.append(path.as_str());
                r.append("': ");
                r.append(source.as_str());
                r
            },
            SystemToolError::FileAppendFailed { path, source } => {
                let mut r = String::from_str("Failed to append to '");
                r.append(path.as_str());
                r.append("': ");
                r.append(source.as_str());
                r
            },
        }
    }

    /// The error as the JSON object `{"error": <message>}`.
    pub fn to_json(&self) -> (res: String)
        ensures
            res@ == error_json(self.spec_message()),
    {
        let m = self.message();
        error_object(m.as_str())
    }
}

/// `{"error":<message>}`.
pub fn error_object(message: &str) -> (res: String)
    ensures
        res@ == error_json(message@),
{
    let q = json_string(message);
    let mut r = String::from_str("{\"error\":");
    r.append(q.as_str());
    r.append("}");
    r
}

/// Arguments of `write_file_content`; absent fields are empty or `false`.
#[derive(Debug)]
pub struct WriteFileContentArgs {
    pub path: String,
    pub file_path: String,
    pub content: String,
    pub append: bool,
}

impl WriteFileContentArgs {
    /// The target path: `path` when given, else `file_path` when given.
    pub open spec fn spec_extract_path(self) -> Option<Seq<char>> {
        if self.path@.len() > 0 {
            Some(self.path@)
        } else if self.file_path@.len() > 0 {
            Some(self.file_path@)
        } else {
            None
        }
    }

    pub fn extract_path(&self) -> (res: Option<&str>)
        ensures
            match res {
                Some(p) => self.spec_extract_path() == Some(p@),
                None => self.spec_extract_path() is None,
            },
    {
        if !self.path.as_str().is_empty() {
            return Some(self.path.as_str());
        }
        if !self.file_path.as_str().is_empty() {
            return Some(self.file_path.as_str());
        }
        None
    }
}

/// The path a write goes to: the arguments' `path` whenever it is given,
/// else `file_path` when that is given, else none; it is never empty.
pub proof fn law_write_path_given(a: WriteFileContentArgs)
    ensures
        a.path@.len() > 0 ==> a.spec_extract_path() == Some(a.path@),
        a.path@.len() == 0 && a.file_path@.len() > 0 ==> a.spec_extract_path() == Some(
            a.file_path@,
        ),
        a.path@.len() == 0 && a.file_path@.len() == 0 ==> a.spec_extract_path() is None,
        a.spec_extract_path() matches Some(p) ==> p.len() > 0,
{
}

/// Arguments of `execute_terminal_command`: one command or several.
#[derive(Debug)]
pub struct ExecuteTerminalCommandArgs {
    pub command: Option<String>,
    pub commands: Option<Vec<String>>,
    pub silent: bool,
}

impl ExecuteTerminalCommandArgs {
    /// The commands to run: `command` alone when given, else `commands`.
    pub fn into_commands(self) -> (res: Option<Vec<String>>)
        ensures
            match self.command {
                Some(c) => res matches Some(v) && v@ == seq![c],
                None => res == self.commands,
            },
    {
        match self.command {
            Some(c) => {
                let mut v: Vec<String> = Vec::new();
                v.push(c);
                Some(v)
            },
            None => self.commands,
        }
    }
}

/// The functions of the system tool.
#[derive(Debug, Clone, Copy, PartialEq, Eq, Structural)]
pub enum SystemFunction {
    ExecuteTerminalCommand,
    ContinueTerminalOutput,
    WriteFileContent,
}

impl SystemFunction {
    pub open spec fn name(self) -> Seq<char> {
        match self {
            SystemFunction::ExecuteTerminalCommand => "execute_terminal_command"@,
            SystemFunction::ContinueTerminalOutput => "continue_terminal_output"@,
            SystemFunction::WriteFileContent => "write_file_content"@,
        }
    }
}

/// What a successful `write_file_content` call asks to be written.
#[derive(Debug)]
pub struct WriteRequest {
    pub path: String,
    pub content: String,
    pub append: bool,
}

/// Paging state of the system tool.
#[derive(Debug)]
pub struct SystemTool {
    max_output_chunk_size: usize,
    pending_output_chunks: VecDeque<String>,
}

impl SystemTool {
    pub closed spec fn chunk_size(&self) -> usize {
        self.max_output_chunk_size
    }

    /// The output chunks not read yet, in order.
    pub closed spec fn pending(&self) -> Seq<Seq<char>> {
        self.pending_output_chunks.deep_view()
    }

    pub fn new(max_output_chunk_size: usize) -> (res: SystemTool)
        ensures
            res.chunk_size() == max_output_chunk_size,
            res.pending().len() == 0,
    {
        SystemTool { max_output_chunk_size, pending_output_chunks: VecDeque::new() }
    }

    pub fn name(&self) -> (res: &str)
        ensures
            res@ == "System"@,
    {
        "System"
    }

    /// The function a call names, if it is one of this tool's.
    pub fn function_kind(name: &str) -> (res: Option<SystemFunction>)
        ensures
            match res {
                Some(f) => f.name() == name@,
                None => forall|f: SystemFunction| f.name() != name@,
            },
    {
        proof {
            reveal_strlit("execute_terminal_command");
            reveal_strlit("continue_terminal_output");
            reveal_strlit("write_file_content");
        }
        if str_eq(name, "execute_terminal_command") {
            Some(SystemFunction::ExecuteTerminalCommand)
        } else if str_eq(name, "continue_terminal_output") {
            Some(SystemFunction::ContinueTerminalOutput)
        } else if str_eq(name, "write_file_content") {
            Some(SystemFunction::WriteFileContent)
        } else {
            assert forall|f: SystemFunction| f.name() != name@ by {
                match f {
                    SystemFunction::ExecuteTerminalCommand => {},
                    SystemFunction::ContinueTerminalOutput => {},
                    SystemFunction::WriteFileContent => {},
                }
            }
            None
        }
    }

    /// The three function definitions this tool offers, in this order:
    /// `execute_terminal_command`, `continue_terminal_output`,
    /// `write_file_content`; each strict and described, its parameters the
    /// JSON Schema object its schema text spells.
    pub fn functions(&self) -> (res: Vec<FunctionDefinition>)
        ensures
            res@.len() == 3,
            res@[0].name@ == SystemFunction::ExecuteTerminalCommand.name(),
            res@[1].name@ == SystemFunction::ContinueTerminalOutput.name(),
            res@[2].name@ == SystemFunction::WriteFileContent.name(),
            text_of(res@[0].description) == Some(EXECUTE_TERMINAL_COMMAND_DESCRIPTION@),
            text_of(res@[1].description) == Some(CONTINUE_TERMINAL_OUTPUT_DESCRIPTION@),
            text_of(res@[2].description) == Some(WRITE_FILE_CONTENT_DESCRIPTION@),
            res@[0].parameters == json_parsed(EXECUTE_TERMINAL_COMMAND_PARAMETERS@),
            res@[1].parameters == json_parsed(CONTINUE_TERMINAL_OUTPUT_PARAMETERS@),
            res@[2].parameters == json_parsed(WRITE_FILE_CONTENT_PARAMETERS@),
            forall|i: int| 0 <= i < 3 ==> (#[trigger] res@[i]).strict == Some(true),
    {
        let mut v: Vec<FunctionDefinition> = Vec::new();
        v.push(tool_execute_terminal_command());
        v.push(tool_continue_terminal_output());
        v.push(tool_write_file_content());
        v
    }

    /// Checks the arguments of `execute_terminal_command` (parsed, or the
    /// parser's message): the commands to run and whether the output is
    /// wanted, or the JSON error to answer.
    pub fn plan_execute(args: Result<ExecuteTerminalCommandArgs, String>) -> (res: Result<
        (Vec<String>, bool),
        String,
    >)
        ensures
            match args {
                Err(m) => res matches Err(e) && e@ == error_json(
                    SystemToolError::InvalidArguments(m).spec_message(),
                ),
                Ok(a) => match a.command {
                    Some(c) => res matches Ok((cmds, silent)) && cmds@ == seq![c] && silent
                        == a.silent,
                    None => match a.commands {
                        Some(cs) => res == Ok::<(Vec<String>, bool), String>((cs, a.silent)),
                        None => res matches Err(e) && e@ == error_json(
                            "Invalid tool arguments: "@ + "missing required field `command`"@,
                        ),
                    },
                },
            },
    {
        let a = match args {
            Ok(a) => a,
            Err(m) => return Err(SystemToolError::InvalidArguments(m).to_json()),
        };
        let silent = a.silent;
        match a.into_commands() {
            Some(c) => Ok((c, silent)),
            None => {
                let e = SystemToolError::InvalidArguments(
                    String::from_str("missing required field `command`"),
                );
                Err(e.to_json())
            },
        }
    }

    /// Answers `execute_terminal_command` once the commands have run: given
    /// the plain output of each command, in order, their concatenation is
    /// paged and (unless `silent`) the first chunk is answered; given the
    /// message of the command that failed, the JSON error is answered and
    /// the pages are left as they were.
    pub fn finish_execute(&mut self, silent: bool, outputs: Result<Vec<String>, String>) -> (res:
        String)
        requires
            old(self).chunk_size() > 0,
        ensures
            final(self).chunk_size() == old(self).chunk_size(),
            match outputs {
                Err(m) => res@ == error_json(SystemToolError::CommandExecution(m).spec_message())
                    && final(self).pending() == old(self).pending(),
                Ok(outs) => {
                    &&& exists|cs: Seq<Seq<char>>|
                        is_chunking(cs, outs.deep_view().flatten(), old(self).chunk_size() as nat)
                            && if silent {
                            final(self).pending() == cs && res@ == Seq::<char>::empty()
                        } else {
                            res@ == next_chunk_text(cs) && final(self).pending() == if cs.len()
                                == 0 {
                                cs
                            } else {
                                cs.drop_first()
                            }
                        }
                },
            },
    {
        let outs = match outputs {
            Ok(o) => o,
            Err(m) => return SystemToolError::CommandExecution(m).to_json(),
        };
        let mut output = String::new();
        let mut i: usize = 0;
        while i < outs.len()
            invariant
                i <= outs@.len(),
                output@ == outs.deep_view().take(i as int).flatten_alt(),
            decreases outs@.len() - i,
        {
            output.append(outs[i].as_str());
            assert(outs.deep_view().take(i + 1).drop_last() =~= outs.deep_view().take(i as int));
            i = i + 1;
        }
        assert(outs.deep_view().take(outs@.len() as int) =~= outs.deep_view());
        proof {
            outs.deep_view().lemma_flatten_and_flatten_alt_are_equivalent();
        }
        self.pending_output_chunks = chunk_output(output.as_str(), self.max_output_chunk_size);
        if silent {
            String::new()
        } else {
            take_next_chunk(&mut self.pending_output_chunks)
        }
    }

    /// Answers `continue_terminal_output`: the next page.
    pub fn next_output_chunk(&mut self) -> (res: String)
        ensures
            res@ == next_chunk_text(old(self).pending()),
            final(self).pending() == if old(self).pending().len() == 0 {
                old(self).pending()
            } else {
                old(self).pending().drop_first()
            },
            final(self).chunk_size() == old(self).chunk_size(),
    {
        take_next_chunk(&mut self.pending_output_chunks)
    }

    /// Checks the arguments of `write_file_content`: what to write where, or
    /// the JSON error to answer.
    pub fn plan_write(args: Result<WriteFileContentArgs, String>) -> (res: Result<WriteRequest, String>)
        ensures
            match args {
                Err(m) => res matches Err(e) && e@ == error_json(
                    SystemToolError::InvalidArguments(m).spec_message(),
                ),
                Ok(a) => match a.spec_extract_path() {
                    Some(p) => res matches Ok(w) && w.path@ == p && w.content == a.content
                        && w.append == a.append,
                    None => res matches Err(e) && e@ == error_json(
                        "Invalid tool arguments: "@ + "missing required field `path`"@,
                    ),
                },
            },
            match args {
                Ok(a) => (a.path@.len() > 0 ==> (res matches Ok(w) && w.path@ == a.path@)) && (
                a.path@.len() == 0 && a.file_path@.len() > 0 ==> (res matches Ok(w) && w.path@
                    == a.file_path@)),
                Err(_) => true,
            },
            res matches Ok(w) ==> w.path@.len() > 0,
    {
        let a = match args {
            Ok(a) => a,
            Err(m) => return Err(SystemToolError::InvalidArguments(m).to_json()),
        };
        proof {
            law_write_path_given(a);
        }
        let path = match a.extract_path() {
            Some(p) => String::from_str(p),
            None => {
                let e = SystemToolError::InvalidArguments(
                    String::from_str("missing required field `path`"),
                );
                return Err(e.to_json());
            },
        };
        Ok(WriteRequest { path, content: a.content, append: a.append })
    }

    /// Answers `write_file_content` once the write was tried: nothing on
    /// success, the JSON error otherwise.
    pub fn finish_write(result: Result<(), SystemToolError>) -> (res: String)
        ensures
            match result {
                Ok(()) => res@ == Seq::<char>::empty(),
                Err(e) => res@ == error_json(e.spec_message()),
            },
    {
        match result {
            Ok(()) => String::new(),
            Err(e) => e.to_json(),
        }
    }

    /// Where a path under the home directory is written: `home` joined with
    /// what follows a leading `~/` in `raw`; `None` when `raw` does not
    /// start so or no home directory is known.
    pub fn resolve_home(raw: &str, home: Option<PathBuf>) -> (res: Option<PathBuf>)
        ensures
            res == match (home_relative_part(path_from(raw@)), home) {
                (Some(rel), Some(h)) => Some(joined_path(h, rel)),
                _ => None::<PathBuf>,
            },
    {
        let path = path_of(raw.to_string());
        match (home_relative(&path), home) {
            (Some(rel), Some(h)) => Some(join_paths(&h, &rel)),
            _ => None,
        }
    }

    /// Where `write_file_content` writes the path `raw`: under the home
    /// directory for `~/...` when it is known, else relative to the
    /// terminal's directory `cwd`, or to the home directory when that is
    /// unknown, or as it stands when neither is known.
    pub fn resolve_path(raw: &str, home: Option<PathBuf>, cwd: Option<PathBuf>) -> (res: PathBuf)
        ensures
            res == resolved_path(raw@, home, cwd),
    {
        match Self::resolve_home(raw, home.clone()) {
            Some(p) => p,
            None => {
                let base = match cwd {
                    Some(c) => c,
                    None => match home {
                        Some(h) => h,
                        None => path_of(String::new()),
                    },
                };
                join_paths(&base, &path_of(raw.to_string()))
            },
        }
    }
}

/// What `Path::strip_prefix("~/")` leaves of a path, when it starts so.
pub uninterp spec fn home_relative_part(path: PathBuf) -> Option<PathBuf>;

/// What `Path::join` makes of a base path and a path.
pub uninterp spec fn joined_path(base: PathBuf, path: PathBuf) -> PathBuf;

/// Where the path `raw` is written, given the home directory and the
/// terminal's directory when they are known.
pub open spec fn resolved_path(raw: Seq<char>, home: Option<PathBuf>, cwd: Option<PathBuf>) -> PathBuf {
    let path = path_from(raw);
    match (home_relative_part(path), home) {
        (Some(rel), Some(h)) => joined_path(h, rel),
        _ => {
            let base = match cwd {
                Some(c) => c,
                None => match home {
                    Some(h) => h,
                    None => path_from(Seq::empty()),
                },
            };
            joined_path(base, path)
        },
    }
}

/// `Path::strip_prefix("~/")`: the rest of the path after a leading `~`
/// component, `None` when the path does not start with it; the same path
/// gives the same rest.
#[verifier::external_body]
fn home_relative(path: &PathBuf) -> (res: Option<PathBuf>)
    ensures
        res == home_relative_part(*path),
{
    path.strip_prefix("~/").ok().map(std::path::Path::to_path_buf)
}

/// `Path::join`: `path` taken relative to `base` (or `path` itself when it
/// is absolute); the same paths give the same result.
#[verifier::external_body]
fn join_paths(base: &PathBuf, path: &PathBuf) -> (res: PathBuf)
    ensures
        res == joined_path(*base, *path),
{
    base.join(path)
}

/// Facts about the machine shown in the tool's context; an absent fact is
/// shown as `-`.
#[derive(Debug)]
pub struct SystemFacts {
    pub host: Option<String>,
    pub os: Option<String>,
    pub kernel: Option<String>,
    pub arch: String,
}

/// The machine's host name (`sysinfo::System::host_name`); depends on the
/// machine, so nothing is stated of it.
#[verifier::external_body]
fn host_name() -> Option<String> {
    sysinfo::System::host_name().ok()
}

/// The long operating system version (`sysinfo::System::long_os_version`);
/// depends on the machine, so nothing is stated of it.
#[verifier::external_body]
fn long_os_version() -> Option<String> {
    sysinfo::System::long_os_version().ok()
}

/// The long kernel version (`sysinfo::System::kernel_long_version`);
/// depends on the machine, so nothing is stated of it.
#[verifier::external_body]
fn kernel_long_version() -> Option<String> {
    sysinfo::System::kernel_long_version().ok()
}

/// The CPU architecture (`sysinfo::System::cpu_arch`); depends on the
/// machine, so nothing is stated of it.
#[verifier::external_body]
fn cpu_arch() -> String {
    sysinfo::System::cpu_arch()
}

impl SystemFacts {
    /// Reads the facts of this machine.
    pub fn collect() -> SystemFacts {
        SystemFacts {
            host: host_name(),
            os: long_os_version(),
            kernel: kernel_long_version(),
            arch: cpu_arch(),
        }
    }
}

/// A fact as shown: its text, or `-` when absent.
pub open spec fn shown(o: Option<String>) -> Seq<char> {
    match o {
        Some(s) => s@,
        None => "-"@,
    }
}

/// The context section of the system tool.
pub open spec fn system_context(cwd: Seq<char>, shell: Seq<char>, f: SystemFacts) -> Seq<char> {
    "## Terminal\n- CWD: "@ + cwd + "\n- Shell: "@ + shell + "\n## System\n- Host: "@ + shown(f.host)
        + "\n- OS: "@ + shown(f.os) + "\n- Kernel: "@ + shown(f.kernel) + "\n- Arch: "@ + f.arch@
        + "\n"@
}

fn append_shown(w: &mut String, o: &Option<String>)
    ensures
        final(w)@ == old(w)@ + shown(*o),
{
    match o {
        Some(s) => w.append(s.as_str()),
        None => w.append("-"),
    }
}

impl SystemTool {
    /// Writes the context section: the terminal's working directory and
    /// shell, then the machine's facts.
    pub fn write_context(&self, w: &mut String, cwd: &str, shell: &str, facts: &SystemFacts)
        ensures
            final(w)@ == old(w)@ + system_context(cwd@, shell@, *facts),
    {
        let ghost start = w@;
        w.append("## Terminal\n- CWD: ");
        w.append(cwd);
        w.append("\n- Shell: ");
        w.append(shell);
        w.append("\n## System\n- Host: ");
        append_shown(w, &facts.host);
        w.append("\n- OS: ");
        append_shown(w, &facts.os);
        w.append("\n- Kernel: ");
        append_shown(w, &facts.kernel);
        w.append("\n- Arch: ");
        w.append(facts.arch.as_str());
        w.append("\n");
        assert(w@ =~= start + system_context(cwd@, shell@, *facts));
    }
}

/// What the model is told `execute_terminal_command` does.
pub const EXECUTE_TERMINAL_COMMAND_DESCRIPTION: &'static str = "Execute a shell command in a persistent, stateful session. All state persists across calls: working directory, env vars, background processes, filesystem. Full shell syntax supported (pipes, redirects, subshells, &&, etc.). Prefer non-interactive flags to avoid blocking on prompts. If more_output_available=true, call continue_terminal_output to read the next chunk. Prefer write_file_content over heredocs for writing files.";

/// The JSON Schema of the arguments of `execute_terminal_command`.
pub const EXECUTE_TERMINAL_COMMAND_PARAMETERS: &'static str = "{\n  \"type\": \"object\",\n  \"properties\": {\n    \"command\": {\n      \"type\": \"string\",\n      \"description\": \"Shell command to execute. Use && or ; for multi-step sequences.\"\n    }\n  },\n  \"required\": [\"command\"],\n  \"additionalProperties\": false\n}";

fn tool_execute_terminal_command() -> (res: FunctionDefinition)
    ensures
        res.name@ == SystemFunction::ExecuteTerminalCommand.name(),
        text_of(res.description) == Some(EXECUTE_TERMINAL_COMMAND_DESCRIPTION@),
        res.parameters == json_parsed(EXECUTE_TERMINAL_COMMAND_PARAMETERS@),
        res.strict == Some(true),
{
    proof {
        reveal_strlit("execute_terminal_command");
    }
    FunctionDefinition {
        name: String::from_str("execute_terminal_command"),
        description: Some(String::from_str(EXECUTE_TERMINAL_COMMAND_DESCRIPTION)),
        parameters: parsed_json(EXECUTE_TERMINAL_COMMAND_PARAMETERS),
        strict: Some(true),
    }
}

/// What the model is told `continue_terminal_output` does.
pub const CONTINUE_TERMINAL_OUTPUT_DESCRIPTION: &'static str = "Fetch the next output chunk from the last terminal command. Only call when more_output_available=true AND the remaining output is needed \u{2014} skip if sufficient context was already captured or the full output is not required.";

/// The JSON Schema of the arguments of `continue_terminal_output`.
pub const CONTINUE_TERMINAL_OUTPUT_PARAMETERS: &'static str = "{\"type\":\"object\",\"properties\":{},\"additionalProperties\":false}";

fn tool_continue_terminal_output() -> (res: FunctionDefinition)
    ensures
        res.name@ == SystemFunction::ContinueTerminalOutput.name(),
        text_of(res.description) == Some(CONTINUE_TERMINAL_OUTPUT_DESCRIPTION@),
        res.parameters == json_parsed(CONTINUE_TERMINAL_OUTPUT_PARAMETERS@),
        res.strict == Some(true),
{
    proof {
        reveal_strlit("continue_terminal_output");
    }
    FunctionDefinition {
        name: String::from_str("continue_terminal_output"),
        description: Some(String::from_str(CONTINUE_TERMINAL_OUTPUT_DESCRIPTION)),
        parameters: parsed_json(CONTINUE_TERMINAL_OUTPUT_PARAMETERS),
        strict: Some(true),
    }
}

/// What the model is told `write_file_content` does.
pub const WRITE_FILE_CONTENT_DESCRIPTION: &'static str = "Write content to a file. Fully replaces existing contents by default; set append=true to add to the end instead. Creates the file if it does not exist. Always provide the complete intended file content.";

/// The JSON Schema of the arguments of `write_file_content`.
pub const WRITE_FILE_CONTENT_PARAMETERS: &'static str = "{\n  \"type\": \"object\",\n  \"properties\": {\n    \"path\": {\n      \"type\": \"string\",\n      \"description\": \"REQUIRED. Absolute or relative path to the target file. Parent directories must exist.\"\n    },\n    \"content\": {\n      \"type\": \"string\",\n      \"description\": \"REQUIRED. Complete file content to write.\"\n    },\n    \"append\": {\n      \"type\": \"bool\",\n      \"description\": \"If true, content is appended to the end of the file. Default: false.\"\n    }\n  },\n  \"required\": [\"path\", \"content\"],\n  \"additionalProperties\": false\n}";

fn tool_write_file_content() -> (res: FunctionDefinition)
    ensures
        res.name@ == SystemFunction::WriteFileContent.name(),
        text_of(res.description) == Some(WRITE_FILE_CONTENT_DESCRIPTION@),
        res.parameters == json_parsed(WRITE_FILE_CONTENT_PARAMETERS@),
        res.strict == Some(true),
{
    proof {
        reveal_strlit("write_file_content");
    }
    FunctionDefinition {
        name: String::from_str("write_file_content"),
        description: Some(String::from_str(WRITE_FILE_CONTENT_DESCRIPTION)),
        parameters: parsed_json(WRITE_FILE_CONTENT_PARAMETERS),
        strict: Some(true),
    }
}

} // verus!
