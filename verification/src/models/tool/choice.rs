//! Which tools the model may or must call.

use vstd::prelude::*;
use super::definition::Tool;

verus! {

/// A wrapper carrying only a tool name, used by the named-tool choices.
#[derive(Debug)]
pub struct ToolName {
    pub name: String,
}

impl ToolName {
    pub fn new(name: String) -> (res: ToolName)
        ensures
            res.name == name,
    {
        ToolName { name }
    }
}

/// How the model may call tools when no specific tool is forced.
/// `NoTools` is written `"none"` on the wire.
#[derive(Debug, Clone, Copy, PartialEq, Eq, Structural)]
pub enum ToolChoiceMode {
    /// The model will not call any tools.
    NoTools,
    /// The model decides whether to call a tool.
    Auto,
    /// The model must call at least one tool.
    Required,
}

/// Restricts tool calls to the provided subset while applying a mode.
#[derive(Debug)]
pub struct AllowedToolChoice {
    pub type_: AllowedToolsType,
    pub mode: AllowedToolsMode,
    pub tools: Vec<Tool>,
}

/// Discriminator of [`AllowedToolChoice`] (`"allowed_tools"`).
#[derive(Debug, Clone, Copy, PartialEq, Eq, Structural)]
pub enum AllowedToolsType {
    AllowedTools,
}

/// How the model picks from the allowed set.
#[derive(Debug, Clone, Copy, PartialEq, Eq, Structural)]
pub enum AllowedToolsMode {
    Auto,
    Required,
}

/// Forces the model to call a specific function by name.
#[derive(Debug)]
pub struct NamedFunctionToolChoice {
    pub type_: FunctionToolType,
    pub function: ToolName,
}

/// Discriminator of [`NamedFunctionToolChoice`] (`"function"`).
#[derive(Debug, Clone, Copy, PartialEq, Eq, Structural)]
pub enum FunctionToolType {
    Function,
}

/// Forces the model to invoke a specific custom tool by name.
#[derive(Debug)]
pub struct NamedCustomToolChoice {
    pub type_: CustomToolType,
    pub custom: ToolName,
}

/// Discriminator of [`NamedCustomToolChoice`] (`"custom"`).
#[derive(Debug, Clone, Copy, PartialEq, Eq, Structural)]
pub enum CustomToolType {
    Custom,
}

/// Specifies which tool(s) the model is allowed or required to call.
#[derive(Debug)]
pub enum ToolChoice {
    /// Global mode without restricting which tool is called.
    Mode(ToolChoiceMode),

    /// Restricts the callable tools to an explicit subset.
    AllowedTools(AllowedToolChoice),

    /// Forces a specific function call.
    Function(NamedFunctionToolChoice),

    /// Forces a specific custom tool call.
    Custom(NamedCustomToolChoice),
}

impl ToolChoice {
    /// The model will not call any tools.
    pub fn none() -> (res: ToolChoice)
        ensures
            res == ToolChoice::Mode(ToolChoiceMode::NoTools),
    {
        ToolChoice::Mode(ToolChoiceMode::NoTools)
    }

    /// The model freely decides whether to call a tool.
    pub fn auto() -> (res: ToolChoice)
        ensures
            res == ToolChoice::Mode(ToolChoiceMode::Auto),
    {
        ToolChoice::Mode(ToolChoiceMode::Auto)
    }

    /// The model must call at least one tool.
    pub fn required() -> (res: ToolChoice)
        ensures
            res == ToolChoice::Mode(ToolChoiceMode::Required),
    {
        ToolChoice::Mode(ToolChoiceMode::Required)
    }

    /// Restricts tool calls to `tools`, applying the given `mode`.
    pub fn allowed_tools(mode: AllowedToolsMode, tools: Vec<Tool>) -> (res: ToolChoice)
        ensures
            res == ToolChoice::AllowedTools(
                AllowedToolChoice { type_: AllowedToolsType::AllowedTools, mode, tools },
            ),
    {
        ToolChoice::AllowedTools(
            AllowedToolChoice { type_: AllowedToolsType::AllowedTools, mode, tools },
        )
    }

    /// Forces the model to call the function named `name`.
    pub fn function(name: String) -> (res: ToolChoice)
        ensures
            res == ToolChoice::Function(
                NamedFunctionToolChoice {
                    type_: FunctionToolType::Function,
                    function: ToolName { name },
                },
            ),
    {
        ToolChoice::Function(
            NamedFunctionToolChoice { type_: FunctionToolType::Function, function: ToolName::new(name) },
        )
    }

    /// Forces the model to invoke the custom tool named `name`.
    pub fn custom(name: String) -> (res: ToolChoice)
        ensures
            res == ToolChoice::Custom(
                NamedCustomToolChoice { type_: CustomToolType::Custom, custom: ToolName { name } },
            ),
    {
        ToolChoice::Custom(
            NamedCustomToolChoice { type_: CustomToolType::Custom, custom: ToolName::new(name) },
        )
    }
}

pub type ChatCompletionToolChoice = ToolChoice;
pub type ChatCompletionAllowedToolChoice = AllowedToolChoice;
pub type ChatCompletionNamedFunctionToolChoice = NamedFunctionToolChoice;
pub type ChatCompletionNamedCustomToolChoice = NamedCustomToolChoice;

} // verus!
