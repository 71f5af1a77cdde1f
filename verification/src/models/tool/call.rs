//! Tool calls requested by the model.

use vstd::prelude::*;

verus! {

/// A call of a function tool: its name and the JSON arguments the model wrote.
#[derive(Debug)]
pub struct FunctionToolCall {
    pub name: String,

    /// JSON string generated by the model.
    pub arguments: String,
}

/// A call of a custom tool: its name and the raw input the model wrote.
#[derive(Debug)]
pub struct CustomToolCall {
    pub name: String,

    /// Raw tool input generated by the model.
    pub input: String,
}

/// A tool call requested by the model, tagged by the kind of tool.
#[derive(Debug)]
pub enum ToolCall {
    Function { id: String, function: FunctionToolCall },
    Custom { id: String, custom: CustomToolCall },
}

/// A tool call as text: the call id, the tool's name and what the model wrote
/// for it.
pub enum ToolCallView {
    Function { id: Seq<char>, name: Seq<char>, arguments: Seq<char> },
    Custom { id: Seq<char>, name: Seq<char>, input: Seq<char> },
}

impl DeepView for ToolCall {
    type V = ToolCallView;

    open spec fn deep_view(&self) -> ToolCallView {
        match *self {
            ToolCall::Function { id, function } => ToolCallView::Function {
                id: id@,
                name: function.name@,
                arguments: function.arguments@,
            },
            ToolCall::Custom { id, custom } => ToolCallView::Custom {
                id: id@,
                name: custom.name@,
                input: custom.input@,
            },
        }
    }
}

/// Another name for [`ToolCall`].
pub type ChatCompletionMessageToolCall = ToolCall;

impl Default for FunctionToolCall {
    fn default() -> (res: FunctionToolCall)
        ensures
            res.name@ == Seq::<char>::empty(),
            res.arguments@ == Seq::<char>::empty(),
    {
        FunctionToolCall { name: String::new(), arguments: String::new() }
    }
}

impl Clone for FunctionToolCall {
    fn clone(&self) -> (res: FunctionToolCall)
        ensures
            res == *self,
    {
        FunctionToolCall { name: self.name.clone(), arguments: self.arguments.clone() }
    }
}

impl Clone for CustomToolCall {
    fn clone(&self) -> (res: CustomToolCall)
        ensures
            res == *self,
    {
        CustomToolCall { name: self.name.clone(), input: self.input.clone() }
    }
}

impl Clone for ToolCall {
    fn clone(&self) -> (res: ToolCall)
        ensures
            res == *self,
    {
        match self {
            ToolCall::Function { id, function } => ToolCall::Function {
                id: id.clone(),
                function: function.clone(),
            },
            ToolCall::Custom { id, custom } => ToolCall::Custom {
                id: id.clone(),
                custom: custom.clone(),
            },
        }
    }
}

impl ToolCall {
    /// The call identifier.
    pub open spec fn spec_id(self) -> Seq<char> {
        match self {
            ToolCall::Function { id, .. } => id@,
            ToolCall::Custom { id, .. } => id@,
        }
    }

    /// The name of the called tool.
    pub open spec fn spec_name(self) -> Seq<char> {
        match self {
            ToolCall::Function { function, .. } => function.name@,
            ToolCall::Custom { custom, .. } => custom.name@,
        }
    }

    pub fn id(&self) -> (res: &str)
        ensures
            res@ == self.spec_id(),
    {
        match self {
            ToolCall::Function { id, .. } => id.as_str(),
            ToolCall::Custom { id, .. } => id.as_str(),
        }
    }

    pub fn name(&self) -> (res: &str)
        ensures
            res@ == self.spec_name(),
    {
        match self {
            ToolCall::Function { function, .. } => function.name.as_str(),
            ToolCall::Custom { custom, .. } => custom.name.as_str(),
        }
    }
}

} // verus!
