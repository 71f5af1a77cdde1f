//! The registry of tools and the routing of the model's tool calls.
//!
//! Running a tool is outside work. The registry knows each tool by its
//! name and the names of the functions it declares, and decides which tool
//! a call goes to; a function call that no tool declares is answered with
//! an error message.

use vstd::prelude::*;
use vstd::string::*;
use crate::models::{ChatCompletionBuilder, FunctionDefinition, MessageParam, ToolCall};
use crate::models::consts::role;
use crate::text::str_eq;
use super::system::{error_json, error_object};

verus! {

broadcast use vstd::string::group_string_axioms;

/// The error answered for a tool call that cannot be served.
#[derive(Debug)]
pub struct ToolCallError {
    pub error: String,
}

impl ToolCallError {
    /// The error as the JSON object `{"error": <error>}`.
    pub fn as_content(&self) -> (res: String)
        ensures
            res@ == error_json(self.error@),
    {
        error_object(self.error.as_str())
    }

    /// The error for a call of a tool nobody offers.
    pub fn tool_does_not_exist(name: &str) -> (res: ToolCallError)
        ensures
            res.error@ == "Tool '"@ + name@ + "' does not exist."@,
    {
        let mut e = String::from_str("Tool '");
        e.append(name);
        e.append("' does not exist.");
        ToolCallError { error: e }
    }
}

/// A registered tool: its name and the names of the functions it declares.
#[derive(Debug)]
pub struct RegisteredTool {
    pub name: String,
    pub functions: Vec<String>,
}

/// Where a tool call goes.
#[derive(Debug)]
pub enum ToolDispatch {
    /// To the registered tool at this position; if it declines, the call
    /// goes on to [`ToolManager::call_from`] the next position.
    Tool(usize),
    /// A custom-tool call: each tool is asked in turn, and the first answer
    /// is taken; if none answers, [`ToolManager::missing_tool_message`] is.
    AskEach,
    /// No tool declares the function; this is the answer.
    Missing(MessageParam),
}

/// The names of the functions of `defs`.
pub open spec fn function_names(defs: Seq<FunctionDefinition>) -> Seq<Seq<char>> {
    defs.map_values(|d: FunctionDefinition| d.name@)
}

/// The tool message that answers `tc` when no tool serves it.
pub open spec fn is_missing_tool_message(p: MessageParam, tc: ToolCall) -> bool {
    &&& p.role@ == role::TOOL@
    &&& p.content matches crate::models::MessageContent::Text(t) && t@ == error_json(
        "Tool '"@ + tc.spec_name() + "' does not exist."@,
    )
    &&& p.tool_call_id matches Some(i) && i@ == tc.spec_id()
    &&& p.refusal is None
    &&& p.name is None
    &&& p.audio is None
    &&& p.tool_calls is None
}

/// The registered tools, in the order they were added.
#[derive(Debug)]
pub struct ToolManager {
    tools: Vec<RegisteredTool>,
}

impl ToolManager {
    /// Each registered tool as its name and its function names.
    pub closed spec fn entries(&self) -> Seq<(Seq<char>, Seq<Seq<char>>)> {
        self.tools@.map_values(|t: RegisteredTool| (t.name@, t.functions.deep_view()))
    }

    pub fn new() -> (res: ToolManager)
        ensures
            res.entries().len() == 0,
    {
        let res = ToolManager { tools: Vec::new() };
        assert(res.entries() =~= Seq::<(Seq<char>, Seq<Seq<char>>)>::empty());
        res
    }

    /// Registers a tool by its name and the functions it declares; it is
    /// asked after every tool registered before it.
    pub fn add(&mut self, name: String, functions: &Vec<FunctionDefinition>)
        ensures
            final(self).entries() == old(self).entries().push((name@, function_names(functions@))),
    {
        let mut names: Vec<String> = Vec::new();
        let mut i: usize = 0;
        while i < functions.len()
            invariant
                i <= functions@.len(),
                names.deep_view() == function_names(functions@.take(i as int)),
            decreases functions@.len() - i,
        {
            names.push(functions[i].name.clone());
            assert(function_names(functions@.take(i + 1)) =~= function_names(
                functions@.take(i as int),
            ).push(functions@[i as int].name@));
            i = i + 1;
        }
        assert(functions@.take(functions@.len() as int) =~= functions@);
        let ghost before = self.tools@;
        let ghost entry = RegisteredTool { name, functions: names };
        self.tools.push(RegisteredTool { name, functions: names });
        assert(self.entries() =~= before.map_values(
            |t: RegisteredTool| (t.name@, t.functions.deep_view()),
        ).push((name@, function_names(functions@))));
    }

    /// Where `tc` goes first: [`ToolManager::call_from`] from the first
    /// registered tool.
    pub fn call(&self, tc: &ToolCall) -> (res: ToolDispatch)
        ensures
            match *tc {
                ToolCall::Custom { .. } => res is AskEach,
                ToolCall::Function { function, .. } => match res {
                    ToolDispatch::Tool(i) => i < self.entries().len() && self.entries()[i as int].1.contains(
                        function.name@,
                    ) && forall|j: int|
                        0 <= j < i ==> !(#[trigger] self.entries()[j]).1.contains(function.name@),
                    ToolDispatch::Missing(p) => is_missing_tool_message(p, *tc) && forall|j: int|
                        0 <= j < self.entries().len() ==> !(#[trigger] self.entries()[j]).1.contains(
                            function.name@,
                        ),
                    ToolDispatch::AskEach => false,
                },
            },
    {
        self.call_from(tc, 0)
    }

    /// Where `tc` goes once the tools before `start` have declined it: a
    /// function call goes to the first tool from `start` on that declares
    /// the function, and is answered with the does-not-exist error when
    /// none does; a custom-tool call is offered to each tool in turn. The
    /// tools are thus asked in the order they were added, and the first
    /// one that answers gives the answer.
    pub fn call_from(&self, tc: &ToolCall, start: usize) -> (res: ToolDispatch)
        ensures
            match *tc {
                ToolCall::Custom { .. } => res is AskEach,
                ToolCall::Function { function, .. } => match res {
                    ToolDispatch::Tool(i) => start <= i < self.entries().len()
                        && self.entries()[i as int].1.contains(function.name@) && forall|j: int|
                        start <= j < i ==> !(#[trigger] self.entries()[j]).1.contains(function.name@),
                    ToolDispatch::Missing(p) => is_missing_tool_message(p, *tc) && forall|j: int|
                        start <= j < self.entries().len() ==> !(#[trigger] self.entries()[j]).1.contains(
                            function.name@,
                        ),
                    ToolDispatch::AskEach => false,
                },
            },
    {
        let name = match tc {
            ToolCall::Custom { .. } => return ToolDispatch::AskEach,
            ToolCall::Function { function, .. } => function.name.as_str(),
        };
        let mut i: usize = start;
        while i < self.tools.len()
            invariant
                start <= i,
                name@ == tc.spec_name(),
                tc is Function,
                forall|j: int| start <= j < i ==> !(#[trigger] self.entries()[j]).1.contains(name@),
            decreases self.tools@.len() - i,
        {
            let fns = &self.tools[i].functions;
            let mut k: usize = 0;
            while k < fns.len()
                invariant
                    k <= fns@.len(),
                    start <= i < self.tools@.len(),
                    tc is Function,
                    name@ == tc.spec_name(),
                    forall|j: int| start <= j < i ==> !(#[trigger] self.entries()[j]).1.contains(name@),
                    *fns == self.tools@[i as int].functions,
                    forall|m: int| 0 <= m < k ==> fns.deep_view()[m] != name@,
                decreases fns@.len() - k,
            {
                if str_eq(fns[k].as_str(), name) {
                    assert(self.entries()[i as int].1[k as int] == name@);
                    return ToolDispatch::Tool(i);
                }
                k = k + 1;
            }
            assert(!self.entries()[i as int].1.contains(name@));
            i = i + 1;
        }
        ToolDispatch::Missing(ToolManager::missing_tool_message(tc))
    }

    /// The answer to a call that no tool serves.
    pub fn missing_tool_message(tc: &ToolCall) -> (res: MessageParam)
        ensures
            is_missing_tool_message(res, *tc),
    {
        let err = ToolCallError::tool_does_not_exist(tc.name());
        MessageParam::tool(err.as_content(), String::from_str(tc.id()))
    }

    /// Writes the context section: a `# Context` heading line, then the
    /// context text of each tool, in order.
    pub fn write_context(&self, w: &mut String, contexts: &Vec<String>)
        ensures
            final(w)@ == old(w)@ + "# Context\n"@ + contexts.deep_view().flatten(),
    {
        w.append("# Context\n");
        let ghost start = w@;
        let mut i: usize = 0;
        while i < contexts.len()
            invariant
                i <= contexts@.len(),
                w@ == start + contexts.deep_view().take(i as int).flatten_alt(),
            decreases contexts@.len() - i,
        {
            w.append(contexts[i].as_str());
            assert(contexts.deep_view().take(i + 1).drop_last() =~= contexts.deep_view().take(
                i as int,
            ));
            i = i + 1;
        }
        assert(contexts.deep_view().take(contexts@.len() as int) =~= contexts.deep_view());
        proof {
            contexts.deep_view().lemma_flatten_and_flatten_alt_are_equivalent();
        }
    }

    /// Tools are offered to the model by the request builder; the registry
    /// adds nothing to it.
    pub fn register_all(&self, builder: ChatCompletionBuilder) -> (res: ChatCompletionBuilder)
        ensures
            res == builder,
    {
        builder
    }
}

impl Default for ToolManager {
    fn default() -> (res: ToolManager)
        ensures
            res.entries().len() == 0,
    {
        ToolManager::new()
    }
}

} // verus!
