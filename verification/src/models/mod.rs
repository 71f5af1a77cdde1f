//! Data model of the OpenAI-compatible chat completion API.

pub mod completion;
pub mod consts;
pub mod enums;
pub mod llamacpp;
pub mod logprob;
pub mod message;
pub mod model;
pub mod streaming;
pub mod tool;

pub use consts::{
    CONTENT_PART_AUDIO_TYPE, CONTENT_PART_FILE_TYPE, CONTENT_PART_IMAGE_TYPE, CONTENT_PART_REFUSAL_TYPE, CONTENT_PART_TEXT_TYPE, INPUT_AUDIO_DATA_FORMAT_MP3, INPUT_AUDIO_DATA_FORMAT_WAV, IMAGE_URL_DETAIL_AUTO, IMAGE_URL_DETAIL_HIGH, IMAGE_URL_DETAIL_LOW, ASSISTANT_ROLE, DEVELOPER_ROLE, FUNCTION_ROLE, SYSTEM_ROLE, TOOL_ROLE, USER_ROLE, REASONING_EFFORT_HIGH, REASONING_EFFORT_LOW, REASONING_EFFORT_MEDIUM, REASONING_EFFORT_MINIMAL, REASONING_EFFORT_NONE, REASONING_EFFORT_XHIGH, FINISH_REASON_CONTENT_FILTER, FINISH_REASON_FUNCTION_CALL, FINISH_REASON_LENGTH, FINISH_REASON_STOP, FINISH_REASON_TOOL_CALLS, TOOL_CALL_TYPE_CUSTOM, TOOL_CALL_TYPE_FUNCTION,
};

pub use message::{
    AudioResponseData, ChatCompletionContentPart, ChatCompletionMessageContent,
    ChatCompletionMessageParam, ContentPart, FileData, ImageUrl, InputAudioData, MessageContent,
    MessageParam,
};

pub use tool::{
    AllowedToolChoice, AllowedToolsMode, AllowedToolsType, ChatCompletionAllowedToolChoice,
    ChatCompletionMessageToolCall, ChatCompletionNamedCustomToolChoice,
    ChatCompletionNamedFunctionToolChoice, ChatCompletionTool, ChatCompletionToolChoice,
    CustomToolCall, CustomToolDefinition, CustomToolFormat, CustomToolType, FunctionDefinition,
    FunctionToolCall, FunctionToolType, GrammarDefinition, NamedCustomToolChoice,
    NamedFunctionToolChoice, Tool, ToolCall, ToolChoice, ToolChoiceMode, ToolName,
};

pub use completion::{
    ChatCompletion, ChatCompletionAnnotation, ChatCompletionAudio, ChatCompletionBuilder,
    ChatCompletionChoice, ChatCompletionMessage, ChatCompletionResponse, CompletionTokensDetails,
    CompletionUsage, PromptTokensDetails, UrlCitation,
};

pub use streaming::{
    ChatCompletionChunk, ChatCompletionChunkChoice, ChatCompletionChunkChoiceDelta,
    DeltaFunctionToolCall, DeltaToolCall,
};

pub use logprob::{ChatCompletionLogprobs, ChatCompletionTokenLogprob, TokenLogprob, TopLogprob};

pub use model::{ListModelsResponse, Model};
