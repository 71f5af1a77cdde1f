//! Tool definitions, tool-choice configuration and tool calls.

pub mod call;
pub mod choice;
pub mod definition;

pub use call::{
    ChatCompletionMessageToolCall, CustomToolCall, FunctionToolCall, ToolCall, ToolCallView,
};
pub use choice::{
    AllowedToolChoice, AllowedToolsMode, AllowedToolsType, ChatCompletionAllowedToolChoice,
    ChatCompletionNamedCustomToolChoice, ChatCompletionNamedFunctionToolChoice,
    ChatCompletionToolChoice, CustomToolType, FunctionToolType, NamedCustomToolChoice,
    NamedFunctionToolChoice, ToolChoice, ToolChoiceMode, ToolName,
};
pub use definition::{
    ChatCompletionTool, CustomToolDefinition, CustomToolFormat, FunctionDefinition,
    GrammarDefinition, Tool,
};
