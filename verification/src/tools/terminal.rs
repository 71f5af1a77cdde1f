//! A terminal-only tool: shell commands in a persistent session,
//! with paged output.
//!
//! Running commands is outside work; here are its answers and paging.

use vstd::prelude::*;
use vstd::string::*;
use std::collections::VecDeque;
use crate::models::{ChatCompletion, ChatCompletionBuilder, ChatCompletionTool, FunctionDefinition};
use crate::models::tool::definition::{json_parsed, parsed_json};
use crate::text::{str_eq, text_of};
use super::output::{chunk_output, is_chunking, next_chunk_text, take_next_chunk};
use super::system::{error_json, error_object};

verus! {

broadcast use vstd::string::group_string_axioms;

/// Why a terminal tool call failed.
#[derive(Debug, Clone)]
pub enum TerminalToolError<'a> {
    InvalidArguments(&'a str),
    CommandExecution(&'a str),
}

impl<'a> TerminalToolError<'a> {
    /// The message carried in the JSON error.
    pub open spec fn spec_message(self) -> Seq<char> {
        match self {
            TerminalToolError::InvalidArguments(s) => "InvalidArguments: "@ + s@,
            TerminalToolError::CommandExecution(s) => "CommandExecution: "@ + s@,
        }
    }

    /// The error as the JSON object `{"error": <message>}`.
    pub fn as_json_string(&self) -> (res: String)
        ensures
            res@ == error_json(self.spec_message()),
    {
        let mut m = match self {
            TerminalToolError::InvalidArguments(_) => String::from_str("InvalidArguments: "),
            TerminalToolError::CommandExecution(_) => String::from_str("CommandExecution: "),
        };
        match self {
            TerminalToolError::InvalidArguments(s) => m.append(s),
            TerminalToolError::CommandExecution(s) => m.append(s),
        }
        error_object(m.as_str())
    }
}

/// Arguments of `execute_terminal_command`.
#[derive(Debug)]
pub struct ExecuteTerminalCommandsArgs {
    pub commands: Option<Vec<String>>,
    pub command: Option<String>,
    pub silent: bool,
}

impl ExecuteTerminalCommandsArgs {
    /// Takes out the commands to run: `command` alone when given, else
    /// `commands`; both are left empty.
    pub fn take_commands(&mut self) -> (res: Option<Vec<String>>)
        ensures
            match old(self).command {
                Some(c) => res matches Some(v) && v@ == seq![c],
                None => res == old(self).commands,
            },
            final(self).command is None,
            old(self).command is None ==> final(self).commands is None,
            old(self).command is Some ==> final(self).commands == old(self).commands,
            final(self).silent == old(self).silent,
    {
        match self.command.take() {
            Some(c) => {
                let mut v: Vec<String> = Vec::new();
                v.push(c);
                Some(v)
            },
            None => self.commands.take(),
        }
    }
}

/// What the model is told `execute_terminal_command` does.
pub const EXECUTE_TERMINAL_COMMAND_DESCRIPTION: &'static str = "Execute a shell command in a persistent terminal session. POSIX-compatible. The terminal state persists between calls. Only run commands that terminate on their own. Never start interactive programs or commands that wait for input. Set silent=true when output is not needed.";

/// The JSON Schema of the arguments of `execute_terminal_command`.
pub const EXECUTE_TERMINAL_COMMAND_PARAMETERS: &'static str = "{\n  \"type\": \"object\",\n  \"properties\": {\n    \"command\": {\n      \"type\": \"string\",\n      \"description\": \"REQUIRED. Shell command to execute.\"\n    },\n    \"silent\": {\n      \"type\": \"boolean\",\n      \"description\": \"Suppress command output when the result is not needed.\"\n    }\n  },\n  \"required\": [\"command\"],\n  \"additionalProperties\": false\n}";

/// What the model is told `continue_terminal_output` does.
pub const CONTINUE_TERMINAL_OUTPUT_DESCRIPTION: &'static str = "Read additional output from the previous terminal command when more_output_available=true.";

/// The JSON Schema of the arguments of `continue_terminal_output`.
pub const CONTINUE_TERMINAL_OUTPUT_PARAMETERS: &'static str = "{\"type\":\"object\",\"properties\":{},\"additionalProperties\":false}";

/// The functions the terminal tool answers to.
#[derive(Debug, Clone, Copy, PartialEq, Eq, Structural)]
pub enum TerminalFunction {
    ExecuteTerminalCommand,
    ContinueOutput,
}

/// Paging state of the terminal tool.
#[derive(Debug)]
pub struct TerminalTool {
    max_output_chunk_size: usize,
    pending_output_chunks: VecDeque<String>,
}

impl TerminalTool {
    pub closed spec fn chunk_size(&self) -> usize {
        self.max_output_chunk_size
    }

    /// The output chunks not read yet, in order.
    pub closed spec fn pending(&self) -> Seq<Seq<char>> {
        self.pending_output_chunks.deep_view()
    }

    pub fn new(max_output_chunk_size: usize) -> (res: TerminalTool)
        ensures
            res.chunk_size() == max_output_chunk_size,
            res.pending().len() == 0,
    {
        TerminalTool { max_output_chunk_size, pending_output_chunks: VecDeque::new() }
    }

    pub fn name(&self) -> (res: &str)
        ensures
            res@ == "Terminal"@,
    {
        "Terminal"
    }

    /// The names the tool declares.
    pub fn function_names(&self) -> (res: Vec<&str>)
        ensures
            res@.len() == 2,
            res@[0]@ == "execute_terminal_command"@,
            res@[1]@ == "continue_terminal_output"@,
    {
        let mut v: Vec<&str> = Vec::new();
        v.push("execute_terminal_command");
        v.push("continue_terminal_output");
        v
    }

    /// The function a call names: exactly the two names the tool declares
    /// in [`TerminalTool::function_names`] and offers in
    /// [`TerminalTool::register`].
    pub fn function_kind(name: &str) -> (res: Option<TerminalFunction>)
        ensures
            match res {
                Some(TerminalFunction::ExecuteTerminalCommand) => name@
                    == "execute_terminal_command"@,
                Some(TerminalFunction::ContinueOutput) => name@ == "continue_terminal_output"@,
                None => name@ != "execute_terminal_command"@ && name@ != "continue_terminal_output"@,
            },
    {
        if str_eq(name, "execute_terminal_command") {
            Some(TerminalFunction::ExecuteTerminalCommand)
        } else if str_eq(name, "continue_terminal_output") {
            Some(TerminalFunction::ContinueOutput)
        } else {
            None
        }
    }

    /// Offers the tool's two functions to the model; the rest of the
    /// request is left as it is.
    pub fn register(&self, builder: ChatCompletionBuilder) -> (res: ChatCompletionBuilder)
        ensures
            res.spec_build().tools@.len() == builder.spec_build().tools@.len() + 2,
            res.spec_build().tools@.subrange(0, builder.spec_build().tools@.len() as int)
                == builder.spec_build().tools@,
            res.spec_build().tools@[builder.spec_build().tools@.len() as int] matches ChatCompletionTool::Function { function }
                && function.name@ == "execute_terminal_command"@ && function.strict == Some(true)
                && text_of(function.description) == Some(EXECUTE_TERMINAL_COMMAND_DESCRIPTION@)
                && function.parameters == json_parsed(EXECUTE_TERMINAL_COMMAND_PARAMETERS@),
            res.spec_build().tools@[builder.spec_build().tools@.len() as int + 1] matches ChatCompletionTool::Function { function }
                && function.name@ == "continue_terminal_output"@ && function.strict == Some(true)
                && text_of(function.description) == Some(CONTINUE_TERMINAL_OUTPUT_DESCRIPTION@)
                && function.parameters == json_parsed(CONTINUE_TERMINAL_OUTPUT_PARAMETERS@),
            res.spec_build() == (ChatCompletion {
                tools: res.spec_build().tools,
                ..builder.spec_build()
            }),
    {
        let execute_terminal_command = FunctionDefinition {
            name: String::from_str("execute_terminal_command"),
            description: Some(String::from_str(EXECUTE_TERMINAL_COMMAND_DESCRIPTION)),
            parameters: parsed_json(EXECUTE_TERMINAL_COMMAND_PARAMETERS),
            strict: Some(true),
        };
        let continue_output = FunctionDefinition {
            name: String::from_str("continue_terminal_output"),
            description: Some(String::from_str(CONTINUE_TERMINAL_OUTPUT_DESCRIPTION)),
            parameters: parsed_json(CONTINUE_TERMINAL_OUTPUT_PARAMETERS),
            strict: Some(true),
        };
        let b = builder.tool(ChatCompletionTool::function(execute_terminal_command));
        let b = b.tool(ChatCompletionTool::function(continue_output));
        assert(b.spec_build().tools@.subrange(0, builder.spec_build().tools@.len() as int)
            =~= builder.spec_build().tools@);
        b
    }

    /// Answers `continue_terminal_output`: the next page.
    pub fn next_output_chunk(&mut self) -> (res: String)
        ensures
            res@ == next_chunk_text(old(self).pending()),
            final(self).pending() == if old(self).pending().len() == 0 {
                old(self).pending()
            } else {
                old(self).pending().drop_first()
            },
            final(self).chunk_size() == old(self).chunk_size(),
    {
        take_next_chunk(&mut self.pending_output_chunks)
    }

    /// Checks the arguments of `execute_terminal_command`: the commands to
    /// run and whether the output is wanted, or the JSON error to answer.
    pub fn plan_execute(args: Result<ExecuteTerminalCommandsArgs, String>) -> (res: Result<
        (Vec<String>, bool),
        String,
    >)
        ensures
            match args {
                Err(m) => res matches Err(e) && e@ == error_json("InvalidArguments: "@ + m@),
                Ok(a) => match a.command {
                    Some(c) => res matches Ok((cmds, silent)) && cmds@ == seq![c] && silent
                        == a.silent,
                    None => match a.commands {
                        Some(cs) => res == Ok::<(Vec<String>, bool), String>((cs, a.silent)),
                        None => res matches Err(e) && e@ == error_json(
                            "InvalidArguments: "@
                                + "missing field\n                                    `commands`"@,
                        ),
                    },
                },
            },
    {
        let mut a = match args {
            Ok(a) => a,
            Err(m) => return Err(TerminalToolError::InvalidArguments(m.as_str()).as_json_string()),
        };
        match a.take_commands() {
            Some(c) => Ok((c, a.silent)),
            None => Err(
                TerminalToolError::InvalidArguments(
                    "missing field\n                                    `commands`",
                ).as_json_string(),
            ),
        }
    }

    /// Answers `execute_terminal_command` once the commands have run: the
    /// concatenated outputs are paged and the first page is answered
    /// (nothing when `silent`); a failed command is answered with its JSON
    /// error.
    pub fn finish_execute(&mut self, silent: bool, outputs: Result<Vec<String>, String>) -> (res:
        String)
        requires
            old(self).chunk_size() > 0,
        ensures
            final(self).chunk_size() == old(self).chunk_size(),
            match outputs {
                Err(m) => res@ == error_json("CommandExecution: "@ + m@) && final(self).pending()
                    == old(self).pending(),
                Ok(outs) => exists|cs: Seq<Seq<char>>|
                    is_chunking(cs, outs.deep_view().flatten(), old(self).chunk_size() as nat)
                        && if silent {
                        final(self).pending() == cs && res@ == Seq::<char>::empty()
                    } else {
                        res@ == next_chunk_text(cs) && final(self).pending() == if cs.len() == 0 {
                            cs
                        } else {
                            cs.drop_first()
                        }
                    },
            },
    {
        let outs = match outputs {
            Ok(o) => o,
            Err(m) => return TerminalToolError::CommandExecution(m.as_str()).as_json_string(),
        };
        let mut output = String::new();
        let mut i: usize = 0;
        while i < outs.len()
            invariant
                i <= outs@.len(),
                output@ == outs.deep_view().take(i as int).flatten_alt(),
            decreases outs@.len() - i,
        {
            output.append(outs[i].as_str());
            assert(outs.deep_view().take(i + 1).drop_last() =~= outs.deep_view().take(i as int));
            i = i + 1;
        }
        assert(outs.deep_view().take(outs@.len() as int) =~= outs.deep_view());
        proof {
            outs.deep_view().lemma_flatten_and_flatten_alt_are_equivalent();
        }
        self.pending_output_chunks = chunk_output(output.as_str(), self.max_output_chunk_size);
        if silent {
            String::new()
        } else {
            take_next_chunk(&mut self.pending_output_chunks)
        }
    }
}

} // verus!
