//! OpenAI chat completion wire types whose message content is text or a
//! list of typed parts.
//!
//! Floating-point settings (`temperature`, `frequency_penalty`, `logprob`)
//! are held as the bit patterns of their `f32` values.

use std::collections::HashMap;
use vstd::prelude::*;
use vstd::string::*;
use crate::text::{str_eq, text_of};

verus! {

broadcast use vstd::string::group_string_axioms;

pub const CONTENT_PART_TEXT_TYPE: &'static str = "text";
pub const CONTENT_PART_IMAGE_TYPE: &'static str = "image_url";
pub const CONTENT_PART_AUDIO_TYPE: &'static str = "input_audio";
pub const CONTENT_PART_FILE_TYPE: &'static str = "file";
pub const CONTENT_PART_REFUSAL_TYPE: &'static str = "refusal";

pub const INPUT_AUDIO_DATA_FORMAT_MP3: &'static str = "mp3";
pub const INPUT_AUDIO_DATA_FORMAT_WAV: &'static str = "wav";

pub const IMAGE_URL_DETAIL_AUTO: &'static str = "auto";
pub const IMAGE_URL_DETAIL_LOW: &'static str = "low";
pub const IMAGE_URL_DETAIL_HIGH: &'static str = "high";

pub const DEVELOPER_ROLE: &'static str = "developer";
pub const SYSTEM_ROLE: &'static str = "system";
pub const USER_ROLE: &'static str = "user";
pub const ASSISTANT_ROLE: &'static str = "assistant";
pub const TOOL_ROLE: &'static str = "tool";
pub const FUNCTION_ROLE: &'static str = "function";

pub const REASONING_EFFORT_NONE: &'static str = "none";
pub const REASONING_EFFORT_MINIMAL: &'static str = "minimal";
pub const REASONING_EFFORT_LOW: &'static str = "low";
pub const REASONING_EFFORT_MEDIUM: &'static str = "medium";
pub const REASONING_EFFORT_HIGH: &'static str = "high";
pub const REASONING_EFFORT_XHIGH: &'static str = "xhigh";

pub const FINISH_REASON_STOP: &'static str = "stop";
pub const FINISH_REASON_LENGTH: &'static str = "length";
pub const FINISH_REASON_TOOL_CALLS: &'static str = "tool_calls";
pub const FINISH_REASON_CONTENT_FILTER: &'static str = "content_filter";
pub const FINISH_REASON_FUNCTION_CALL: &'static str = "function_call";

/// Image URL or base64-encoded data.
#[derive(Debug, Clone)]
pub struct ImageUrl {
    /// URL or base64 data of the image.
    pub url: String,
    /// Detail level for vision models.
    pub detail: Option<String>,
}

/// Base64-encoded audio data.
#[derive(Debug, Clone)]
pub struct InputAudioData {
    /// Base64-encoded audio data.
    pub data: String,
    /// Audio format (wav/mp3).
    pub format: String,
}

/// File data for input.
#[derive(Debug, Clone)]
pub struct FileData {
    /// Base64-encoded file data (optional, used when passing file as string).
    pub file_data: Option<String>,
    /// File ID (optional, used when passing file as ID).
    pub file_id: Option<String>,
    /// Filename (optional, used when passing file as string).
    pub filename: Option<String>,
}

impl Default for FileData {
    fn default() -> (res: FileData)
        ensures
            res.file_data is None,
            res.file_id is None,
            res.filename is None,
    {
        FileData { file_data: None, file_id: None, filename: None }
    }
}

/// Content part for a message: text, image, audio, or file input.
#[derive(Debug, Clone)]
pub struct ChatCompletionContentPart {
    pub type_: String,
    pub text: Option<String>,
    pub image_url: Option<ImageUrl>,
    pub input_audio: Option<InputAudioData>,
    pub file: Option<FileData>,
}

impl Default for ChatCompletionContentPart {
    fn default() -> (res: ChatCompletionContentPart)
        ensures
            res.type_@.len() == 0,
            res.text is None,
            res.image_url is None,
            res.input_audio is None,
            res.file is None,
    {
        ChatCompletionContentPart {
            type_: String::new(),
            text: None,
            image_url: None,
            input_audio: None,
            file: None,
        }
    }
}

impl ChatCompletionContentPart {
    /// A text part.
    pub fn text(content: String) -> (res: ChatCompletionContentPart)
        ensures
            res.type_@ == CONTENT_PART_TEXT_TYPE@,
            res.text == Some(content),
            res.image_url is None,
            res.input_audio is None,
            res.file is None,
    {
        ChatCompletionContentPart {
            type_: String::from_str(CONTENT_PART_TEXT_TYPE),
            text: Some(content),
            image_url: None,
            input_audio: None,
            file: None,
        }
    }

    /// An image part: a URL or base64 data of the image.
    pub fn image_url(url: String, detail: Option<String>) -> (res: ChatCompletionContentPart)
        ensures
            res.type_@ == CONTENT_PART_IMAGE_TYPE@,
            res.image_url matches Some(i) && i.url == url && i.detail == detail,
            res.text is None,
            res.input_audio is None,
            res.file is None,
    {
        ChatCompletionContentPart {
            type_: String::from_str(CONTENT_PART_IMAGE_TYPE),
            text: None,
            image_url: Some(ImageUrl { url, detail }),
            input_audio: None,
            file: None,
        }
    }

    /// An audio part: base64-encoded audio data and its format (wav/mp3).
    pub fn input_audio(data: String, format: String) -> (res: ChatCompletionContentPart)
        ensures
            res.type_@ == CONTENT_PART_AUDIO_TYPE@,
            res.input_audio matches Some(a) && a.data == data && a.format == format,
            res.text is None,
            res.image_url is None,
            res.file is None,
    {
        ChatCompletionContentPart {
            type_: String::from_str(CONTENT_PART_AUDIO_TYPE),
            text: None,
            image_url: None,
            input_audio: Some(InputAudioData { data, format }),
            file: None,
        }
    }

    /// A file part, with whichever of its data, ID and name are given.
    pub fn file(data: Option<String>, id: Option<String>, name: Option<String>) -> (res:
        ChatCompletionContentPart)
        ensures
            res.type_@ == CONTENT_PART_FILE_TYPE@,
            res.file matches Some(f) && f.file_data == data && f.file_id == id && f.filename
                == name,
            res.text is None,
            res.image_url is None,
            res.input_audio is None,
    {
        let mut fd = FileData::default();
        if let Some(data) = data {
            fd.file_data = Some(data);
        }
        if let Some(id) = id {
            fd.file_id = Some(id);
        }
        if let Some(name) = name {
            fd.filename = Some(name);
        }
        ChatCompletionContentPart {
            type_: String::from_str(CONTENT_PART_FILE_TYPE),
            text: None,
            image_url: None,
            input_audio: None,
            file: Some(fd),
        }
    }
}

/// A message's content: text, a list of parts, or nothing.
#[derive(Debug, Clone)]
pub enum ChatCompletionMessageContent {
    Text(String),
    Parts(Vec<ChatCompletionContentPart>),
    Empty,
}

impl Default for ChatCompletionMessageContent {
    fn default() -> (res: ChatCompletionMessageContent)
        ensures
            res is Empty,
    {
        ChatCompletionMessageContent::Empty
    }
}

/// Data about a previous audio response from the model.
#[derive(Debug, Clone)]
pub struct AudioResponseData {
    /// Unique identifier for a previous audio response.
    pub id: String,
}

/// A message of the conversation sent with a request.
#[derive(Debug, Clone)]
pub struct ChatCompletionMessageParam {
    pub role: String,
    pub content: ChatCompletionMessageContent,
    pub name: Option<String>,
    pub audio: Option<AudioResponseData>,
    pub tool_calls: Option<Vec<ChatCompletionMessageToolCall>>,
    pub tool_call_id: Option<String>,
}

impl Default for ChatCompletionMessageParam {
    fn default() -> (res: ChatCompletionMessageParam)
        ensures
            res.role@.len() == 0,
            res.content is Empty,
            res.name is None,
            res.audio is None,
            res.tool_calls is None,
            res.tool_call_id is None,
    {
        ChatCompletionMessageParam {
            role: String::new(),
            content: ChatCompletionMessageContent::Empty,
            name: None,
            audio: None,
            tool_calls: None,
            tool_call_id: None,
        }
    }
}

impl ChatCompletionMessageParam {
    /// A message of `role` with text content and nothing else set.
    pub open spec fn is_text(self, role: Seq<char>, content: Seq<char>) -> bool {
        &&& self.role@ == role
        &&& self.content matches ChatCompletionMessageContent::Text(t) && t@ == content
        &&& self.name is None
        &&& self.audio is None
        &&& self.tool_calls is None
        &&& self.tool_call_id is None
    }

    pub fn new(role: String, content: String) -> (res: ChatCompletionMessageParam)
        ensures
            res.is_text(role@, content@),
    {
        ChatCompletionMessageParam {
            role,
            content: ChatCompletionMessageContent::Text(content),
            name: None,
            audio: None,
            tool_calls: None,
            tool_call_id: None,
        }
    }

    /// A message of `role` whose content is an empty list of parts.
    pub fn new_with_parts(role: String) -> (res: ChatCompletionMessageParam)
        ensures
            res.role == role,
            res.content matches ChatCompletionMessageContent::Parts(p) && p@.len() == 0,
            res.name is None,
            res.audio is None,
            res.tool_calls is None,
            res.tool_call_id is None,
    {
        ChatCompletionMessageParam {
            role,
            content: ChatCompletionMessageContent::Parts(Vec::new()),
            name: None,
            audio: None,
            tool_calls: None,
            tool_call_id: None,
        }
    }

    /// Appends a part when the content is a list of parts; other content
    /// is left as it is.
    pub fn push_part(self, p: ChatCompletionContentPart) -> (res: ChatCompletionMessageParam)
        ensures
            match self.content {
                ChatCompletionMessageContent::Parts(ps) => res.content matches ChatCompletionMessageContent::Parts(
                    qs,
                ) && qs@ == ps@.push(p),
                _ => res.content == self.content,
            },
            res.role == self.role,
            res.name == self.name,
            res.audio == self.audio,
            res.tool_calls == self.tool_calls,
            res.tool_call_id == self.tool_call_id,
    {
        let mut s = self;
        match s.content {
            ChatCompletionMessageContent::Parts(mut parts) => {
                parts.push(p);
                s.content = ChatCompletionMessageContent::Parts(parts);
            },
            other => {
                s.content = other;
            },
        }
        s
    }

    pub fn set_name(self, v: String) -> (res: ChatCompletionMessageParam)
        ensures
            res == (ChatCompletionMessageParam { name: Some(v), ..self }),
    {
        ChatCompletionMessageParam { name: Some(v), ..self }
    }

    pub fn set_audio(self, v: AudioResponseData) -> (res: ChatCompletionMessageParam)
        ensures
            res == (ChatCompletionMessageParam { audio: Some(v), ..self }),
    {
        ChatCompletionMessageParam { audio: Some(v), ..self }
    }

    pub fn tool_calls(self, tcs: Vec<ChatCompletionMessageToolCall>) -> (res:
        ChatCompletionMessageParam)
        ensures
            res == (ChatCompletionMessageParam { tool_calls: Some(tcs), ..self }),
    {
        ChatCompletionMessageParam { tool_calls: Some(tcs), ..self }
    }

    pub fn developer(content: String) -> (res: ChatCompletionMessageParam)
        ensures
            res.is_text(DEVELOPER_ROLE@, content@),
    {
        ChatCompletionMessageParam::new(String::from_str(DEVELOPER_ROLE), content)
    }

    pub fn system(content: String) -> (res: ChatCompletionMessageParam)
        ensures
            res.is_text(SYSTEM_ROLE@, content@),
    {
        ChatCompletionMessageParam::new(String::from_str(SYSTEM_ROLE), content)
    }

    pub fn user(content: String) -> (res: ChatCompletionMessageParam)
        ensures
            res.is_text(USER_ROLE@, content@),
    {
        ChatCompletionMessageParam::new(String::from_str(USER_ROLE), content)
    }

    pub fn assistant(content: String) -> (res: ChatCompletionMessageParam)
        ensures
            res.is_text(ASSISTANT_ROLE@, content@),
    {
        ChatCompletionMessageParam::new(String::from_str(ASSISTANT_ROLE), content)
    }

    /// A `tool` message answering the call `tool_call_id`.
    pub fn tool(content: String, tool_call_id: String) -> (res: ChatCompletionMessageParam)
        ensures
            res.role@ == TOOL_ROLE@,
            res.content matches ChatCompletionMessageContent::Text(t) && t@ == content@,
            res.tool_call_id == Some(tool_call_id),
            res.name is None,
            res.audio is None,
            res.tool_calls is None,
    {
        let mut p = ChatCompletionMessageParam::new(String::from_str(TOOL_ROLE), content);
        p.tool_call_id = Some(tool_call_id);
        p
    }

    pub fn is_developer(&self) -> (res: bool)
        ensures
            res == (self.role@ == DEVELOPER_ROLE@),
    {
        str_eq(self.role.as_str(), DEVELOPER_ROLE)
    }

    pub fn is_system(&self) -> (res: bool)
        ensures
            res == (self.role@ == SYSTEM_ROLE@),
    {
        str_eq(self.role.as_str(), SYSTEM_ROLE)
    }

    pub fn is_user(&self) -> (res: bool)
        ensures
            res == (self.role@ == USER_ROLE@),
    {
        str_eq(self.role.as_str(), USER_ROLE)
    }

    pub fn is_assistant(&self) -> (res: bool)
        ensures
            res == (self.role@ == ASSISTANT_ROLE@),
    {
        str_eq(self.role.as_str(), ASSISTANT_ROLE)
    }

    pub fn is_tool(&self) -> (res: bool)
        ensures
            res == (self.role@ == TOOL_ROLE@),
    {
        str_eq(self.role.as_str(), TOOL_ROLE)
    }
}

/// A tool the model may call.
#[derive(Debug, Clone)]
pub enum ChatCompletionTool {
    Function { function: FunctionDefinition },
    Custom { custom: CustomToolDefinition },
}

impl ChatCompletionTool {
    pub fn function(fd: FunctionDefinition) -> (res: ChatCompletionTool)
        ensures
            res == (ChatCompletionTool::Function { function: fd }),
    {
        ChatCompletionTool::Function { function: fd }
    }

    pub fn custom(ctd: CustomToolDefinition) -> (res: ChatCompletionTool)
        ensures
            res == (ChatCompletionTool::Custom { custom: ctd }),
    {
        ChatCompletionTool::Custom { custom: ctd }
    }
}

/// A function the model may call, with its JSON Schema parameters.
#[derive(Debug, Clone)]
pub struct FunctionDefinition {
    pub name: String,
    pub description: Option<String>,
    pub parameters: Option<serde_json::Value>,
    pub strict: Option<bool>,
}

/// A custom tool, which takes free-form input.
#[derive(Debug, Clone)]
pub struct CustomToolDefinition {
    pub name: String,
    pub description: Option<String>,
    pub format: Option<CustomToolFormat>,
}

/// The input format of a custom tool.
#[derive(Debug, Clone)]
pub enum CustomToolFormat {
    Text,
    Grammar { grammar: GrammarDefinition },
}

/// A grammar the input of a custom tool follows.
#[derive(Debug, Clone)]
pub struct GrammarDefinition {
    pub definition: String,
    pub syntax: String,
}

/// Whether and how the model calls tools.
#[derive(Debug, Clone)]
pub enum ChatCompletionToolChoice {
    Mode(ToolChoiceMode),
    AllowedTools(ChatCompletionAllowedToolChoice),
    Function(ChatCompletionNamedFunctionToolChoice),
    Custom(ChatCompletionNamedCustomToolChoice),
}

impl ChatCompletionToolChoice {
    /// The model calls no tool.
    pub fn none() -> (res: ChatCompletionToolChoice)
        ensures
            res == ChatCompletionToolChoice::Mode(ToolChoiceMode::NoTools),
    {
        ChatCompletionToolChoice::Mode(ToolChoiceMode::NoTools)
    }

    pub fn auto() -> (res: ChatCompletionToolChoice)
        ensures
            res == ChatCompletionToolChoice::Mode(ToolChoiceMode::Auto),
    {
        ChatCompletionToolChoice::Mode(ToolChoiceMode::Auto)
    }

    pub fn required() -> (res: ChatCompletionToolChoice)
        ensures
            res == ChatCompletionToolChoice::Mode(ToolChoiceMode::Required),
    {
        ChatCompletionToolChoice::Mode(ToolChoiceMode::Required)
    }

    pub fn allowed_tools(mode: AllowedToolsMode, tools: Vec<ChatCompletionTool>) -> (res:
        ChatCompletionToolChoice)
        ensures
            res == ChatCompletionToolChoice::AllowedTools(
                ChatCompletionAllowedToolChoice {
                    type_: AllowedToolsType::AllowedTools,
                    mode,
                    tools,
                },
            ),
    {
        ChatCompletionToolChoice::AllowedTools(
            ChatCompletionAllowedToolChoice { type_: AllowedToolsType::AllowedTools, mode, tools },
        )
    }

    pub fn function(name: String) -> (res: ChatCompletionToolChoice)
        ensures
            res == ChatCompletionToolChoice::Function(
                ChatCompletionNamedFunctionToolChoice {
                    type_: FunctionToolType::Function,
                    function: ToolName { name },
                },
            ),
    {
        ChatCompletionToolChoice::Function(
            ChatCompletionNamedFunctionToolChoice {
                type_: FunctionToolType::Function,
                function: ToolName { name },
            },
        )
    }

    pub fn custom(name: String) -> (res: ChatCompletionToolChoice)
        ensures
            res == ChatCompletionToolChoice::Custom(
                ChatCompletionNamedCustomToolChoice {
                    type_: CustomToolType::Custom,
                    custom: ToolName { name },
                },
            ),
    {
        ChatCompletionToolChoice::Custom(
            ChatCompletionNamedCustomToolChoice {
                type_: CustomToolType::Custom,
                custom: ToolName { name },
            },
        )
    }
}

/// Tool use: none, as the model decides, or at least one call.
#[derive(Debug, Clone, Copy, PartialEq, Eq, Structural)]
pub enum ToolChoiceMode {
    NoTools,
    Auto,
    Required,
}

/// A choice restricted to the listed tools.
#[derive(Debug, Clone)]
pub struct ChatCompletionAllowedToolChoice {
    pub type_: AllowedToolsType,
    pub mode: AllowedToolsMode,
    pub tools: Vec<ChatCompletionTool>,
}

#[derive(Debug, Clone, Copy, PartialEq, Eq, Structural)]
pub enum AllowedToolsType {
    AllowedTools,
}

#[derive(Debug, Clone, Copy, PartialEq, Eq, Structural)]
pub enum AllowedToolsMode {
    Auto,
    Required,
}

/// A tool referred to by name.
#[derive(Debug, Clone)]
pub struct ToolName {
    pub name: String,
}

/// A choice that forces a call of the named function.
#[derive(Debug, Clone)]
pub struct ChatCompletionNamedFunctionToolChoice {
    pub type_: FunctionToolType,
    pub function: ToolName,
}

#[derive(Debug, Clone, Copy, PartialEq, Eq, Structural)]
pub enum FunctionToolType {
    Function,
}

/// A choice that forces a call of the named custom tool.
#[derive(Debug, Clone)]
pub struct ChatCompletionNamedCustomToolChoice {
    pub type_: CustomToolType,
    pub custom: ToolName,
}

#[derive(Debug, Clone, Copy, PartialEq, Eq, Structural)]
pub enum CustomToolType {
    Custom,
}

/// A chat completion request.
#[derive(Debug)]
pub struct ChatCompletion {
    pub model: String,
    pub messages: Vec<ChatCompletionMessageParam>,
    pub stream: Option<bool>,
    pub max_completion_tokens: Option<u32>,
    pub metadata: Option<HashMap<String, String>>,
    /// 1..=128
    pub n: Option<u8>,
    /// Bit pattern of the `f32` penalty, -2..=2.
    pub frequency_penalty: Option<u32>,
    /// Bit pattern of the `f32` temperature, 0..=2.
    pub temperature: Option<u32>,
    pub reasoning_effort: Option<String>,
    pub tool_choice: Option<ChatCompletionToolChoice>,
    pub tools: Vec<ChatCompletionTool>,
}

impl ChatCompletion {
    /// Every optional setting of `self` is absent and no tool is offered.
    pub open spec fn has_only_defaults(self) -> bool {
        &&& self.stream is None
        &&& self.max_completion_tokens is None
        &&& self.metadata is None
        &&& self.n is None
        &&& self.frequency_penalty is None
        &&& self.temperature is None
        &&& self.reasoning_effort is None
        &&& self.tool_choice is None
        &&& self.tools@.len() == 0
    }

    pub fn new(model: String, messages: Vec<ChatCompletionMessageParam>) -> (res: ChatCompletion)
        ensures
            res.model == model,
            res.messages == messages,
            res.has_only_defaults(),
    {
        ChatCompletion {
            model,
            messages,
            stream: None,
            max_completion_tokens: None,
            metadata: None,
            n: None,
            frequency_penalty: None,
            temperature: None,
            reasoning_effort: None,
            tool_choice: None,
            tools: Vec::new(),
        }
    }

    pub fn builder() -> (res: ChatCompletionBuilder)
        ensures
            res.spec_build().model@.len() == 0,
            res.spec_build().messages@.len() == 0,
            res.spec_build().has_only_defaults(),
    {
        ChatCompletionBuilder::default()
    }
}

impl Default for ChatCompletion {
    fn default() -> (res: ChatCompletion)
        ensures
            res.model@.len() == 0,
            res.messages@.len() == 0,
            res.has_only_defaults(),
    {
        ChatCompletion::new(String::new(), Vec::new())
    }
}

/// Fluent builder for [`ChatCompletion`].
#[derive(Debug)]
pub struct ChatCompletionBuilder {
    model: String,
    messages: Vec<ChatCompletionMessageParam>,
    stream: Option<bool>,
    max_completion_tokens: Option<u32>,
    metadata: Option<HashMap<String, String>>,
    n: Option<u8>,
    frequency_penalty: Option<u32>,
    temperature: Option<u32>,
    reasoning_effort: Option<String>,
    tool_choice: Option<ChatCompletionToolChoice>,
    tools: Vec<ChatCompletionTool>,
}

impl Default for ChatCompletionBuilder {
    fn default() -> (res: ChatCompletionBuilder)
        ensures
            res.spec_build().model@.len() == 0,
            res.spec_build().messages@.len() == 0,
            res.spec_build().has_only_defaults(),
    {
        ChatCompletionBuilder {
            model: String::new(),
            messages: Vec::new(),
            stream: None,
            max_completion_tokens: None,
            metadata: None,
            n: None,
            frequency_penalty: None,
            temperature: None,
            reasoning_effort: None,
            tool_choice: None,
            tools: Vec::new(),
        }
    }
}

impl ChatCompletionBuilder {
    /// The request that `build` produces from this builder.
    pub closed spec fn spec_build(self) -> ChatCompletion {
        ChatCompletion {
            model: self.model,
            messages: self.messages,
            stream: self.stream,
            max_completion_tokens: self.max_completion_tokens,
            metadata: self.metadata,
            n: self.n,
            frequency_penalty: self.frequency_penalty,
            temperature: self.temperature,
            reasoning_effort: self.reasoning_effort,
            tool_choice: self.tool_choice,
            tools: self.tools,
        }
    }

    pub fn model(self, v: String) -> (res: ChatCompletionBuilder)
        ensures
            res.spec_build() == (ChatCompletion { model: v, ..self.spec_build() }),
    {
        ChatCompletionBuilder { model: v, ..self }
    }

    pub fn messages(self, v: Vec<ChatCompletionMessageParam>) -> (res: ChatCompletionBuilder)
        ensures
            res.spec_build() == (ChatCompletion { messages: v, ..self.spec_build() }),
    {
        ChatCompletionBuilder { messages: v, ..self }
    }

    pub fn message(self, v: ChatCompletionMessageParam) -> (res: ChatCompletionBuilder)
        ensures
            res.spec_build().messages@ == self.spec_build().messages@.push(v),
            res.spec_build() == (ChatCompletion {
                messages: res.spec_build().messages,
                ..self.spec_build()
            }),
    {
        let mut s = self;
        s.messages.push(v);
        s
    }

    pub fn stream(self) -> (res: ChatCompletionBuilder)
        ensures
            res.spec_build() == (ChatCompletion { stream: Some(true), ..self.spec_build() }),
    {
        ChatCompletionBuilder { stream: Some(true), ..self }
    }

    pub fn max_completion_tokens(self, v: u32) -> (res: ChatCompletionBuilder)
        ensures
            res.spec_build() == (ChatCompletion {
                max_completion_tokens: Some(v),
                ..self.spec_build()
            }),
    {
        ChatCompletionBuilder { max_completion_tokens: Some(v), ..self }
    }

    pub fn metadata(self, v: HashMap<String, String>) -> (res: ChatCompletionBuilder)
        ensures
            res.spec_build() == (ChatCompletion { metadata: Some(v), ..self.spec_build() }),
    {
        ChatCompletionBuilder { metadata: Some(v), ..self }
    }

    pub fn n(self, v: u8) -> (res: ChatCompletionBuilder)
        ensures
            res.spec_build() == (ChatCompletion { n: Some(v), ..self.spec_build() }),
    {
        ChatCompletionBuilder { n: Some(v), ..self }
    }

    /// Sets the repetition penalty, given as the bit pattern of an `f32`.
    pub fn frequency_penalty(self, bits: u32) -> (res: ChatCompletionBuilder)
        ensures
            res.spec_build() == (ChatCompletion {
                frequency_penalty: Some(bits),
                ..self.spec_build()
            }),
    {
        ChatCompletionBuilder { frequency_penalty: Some(bits), ..self }
    }

    /// Sets the temperature, given as the bit pattern of an `f32`.
    pub fn temperature(self, bits: u32) -> (res: ChatCompletionBuilder)
        ensures
            res.spec_build() == (ChatCompletion { temperature: Some(bits), ..self.spec_build() }),
    {
        ChatCompletionBuilder { temperature: Some(bits), ..self }
    }

    pub fn reasoning_effort(self, v: String) -> (res: ChatCompletionBuilder)
        ensures
            res.spec_build() == (ChatCompletion { reasoning_effort: Some(v), ..self.spec_build() }),
    {
        ChatCompletionBuilder { reasoning_effort: Some(v), ..self }
    }

    pub fn tool_choice(self, v: ChatCompletionToolChoice) -> (res: ChatCompletionBuilder)
        ensures
            res.spec_build() == (ChatCompletion { tool_choice: Some(v), ..self.spec_build() }),
    {
        ChatCompletionBuilder { tool_choice: Some(v), ..self }
    }

    pub fn tool(self, v: ChatCompletionTool) -> (res: ChatCompletionBuilder)
        ensures
            res.spec_build().tools@ == self.spec_build().tools@.push(v),
            res.spec_build() == (ChatCompletion {
                tools: res.spec_build().tools,
                ..self.spec_build()
            }),
    {
        let mut s = self;
        s.tools.push(v);
        s
    }

    pub fn tools(self, v: Vec<ChatCompletionTool>) -> (res: ChatCompletionBuilder)
        ensures
            res.spec_build() == (ChatCompletion { tools: v, ..self.spec_build() }),
    {
        ChatCompletionBuilder { tools: v, ..self }
    }

    pub fn build(self) -> (res: ChatCompletion)
        ensures
            res == self.spec_build(),
    {
        ChatCompletion {
            model: self.model,
            messages: self.messages,
            stream: self.stream,
            max_completion_tokens: self.max_completion_tokens,
            metadata: self.metadata,
            n: self.n,
            frequency_penalty: self.frequency_penalty,
            temperature: self.temperature,
            reasoning_effort: self.reasoning_effort,
            tool_choice: self.tool_choice,
            tools: self.tools,
        }
    }
}

/// A complete (non-streamed) answer.
#[derive(Debug, Clone)]
pub struct ChatCompletionResponse {
    pub id: String,
    pub choices: Vec<ChatCompletionChoice>,
    pub created: u64,
    pub model: String,
    pub usage: Option<CompletionUsage>,
}

/// One alternative of an answer.
#[derive(Debug, Clone)]
pub struct ChatCompletionChoice {
    pub finish_reason: String,
    pub index: u32,
    pub logprobs: Option<ChatCompletionLogprobs>,
    pub message: ChatCompletionMessage,
}

/// Log probabilities of the answer's tokens.
#[derive(Debug, Clone)]
pub struct ChatCompletionLogprobs {
    pub content: Option<Vec<ChatCompletionTokenLogprob>>,
    pub refusal: Option<Vec<ChatCompletionTokenLogprob>>,
}

/// The log probability of one token and of its likeliest alternatives.
#[derive(Debug, Clone)]
pub struct ChatCompletionTokenLogprob {
    pub token: String,
    pub bytes: Option<Vec<u8>>,
    /// Bit pattern of the `f32` log probability.
    pub logprob: u32,
    pub top_logprobs: Vec<TopLogprob>,
}

/// An alternative token and its log probability.
#[derive(Debug, Clone)]
pub struct TopLogprob {
    pub token: String,
    pub bytes: Option<Vec<u8>>,
    /// Bit pattern of the `f32` log probability.
    pub logprob: u32,
}

/// The message the model answered with.
#[derive(Debug, Clone)]
pub struct ChatCompletionMessage {
    pub role: String,
    pub content: Option<String>,
    pub refusal: Option<String>,
    pub annotations: Option<Vec<ChatCompletionAnnotation>>,
    pub audio: Option<ChatCompletionAudio>,
    pub tool_calls: Option<Vec<ChatCompletionMessageToolCall>>,
}

impl ChatCompletionMessage {
    /// The text content, or the empty string when there is none.
    pub fn content_or_default(&self) -> (res: &str)
        ensures
            res@ == match text_of(self.content) {
                Some(c) => c,
                None => Seq::<char>::empty(),
            },
    {
        proof {
            reveal_strlit("");
        }
        match &self.content {
            Some(c) => c.as_str(),
            None => "",
        }
    }

    /// The message asks for at least one tool call.
    pub fn has_tool_calls(&self) -> (res: bool)
        ensures
            res == (self.tool_calls matches Some(calls) && calls@.len() > 0),
    {
        match &self.tool_calls {
            Some(calls) => calls.len() > 0,
            None => false,
        }
    }
}

/// Audio response object when the audio output modality is requested.
#[derive(Debug, Clone)]
pub struct ChatCompletionAudio {
    /// Unique identifier for this audio response.
    pub id: String,
    /// Base64 encoded audio bytes generated by the model.
    pub data: String,
    /// The Unix timestamp (in seconds) when this audio response expires.
    pub expires_at: i64,
    /// Transcript of the audio generated by the model.
    pub transcript: String,
}

/// An annotation of the answer's text.
#[derive(Debug, Clone)]
pub enum ChatCompletionAnnotation {
    UrlCitation { url_citation: UrlCitation },
}

/// A cited web page and where the text cites it.
#[derive(Debug, Clone)]
pub struct UrlCitation {
    pub start_index: u32,
    pub end_index: u32,
    pub title: String,
    pub url: String,
}

/// A tool call the model asks for.
#[derive(Debug, Clone)]
pub enum ChatCompletionMessageToolCall {
    Function { id: String, function: FunctionToolCall },
    Custom { id: String, custom: CustomToolCall },
}

impl ChatCompletionMessageToolCall {
    pub open spec fn spec_id(self) -> Seq<char> {
        match self {
            ChatCompletionMessageToolCall::Function { id, .. } => id@,
            ChatCompletionMessageToolCall::Custom { id, .. } => id@,
        }
    }

    pub open spec fn spec_name(self) -> Seq<char> {
        match self {
            ChatCompletionMessageToolCall::Function { function, .. } => function.name@,
            ChatCompletionMessageToolCall::Custom { custom, .. } => custom.name@,
        }
    }

    /// The call's ID.
    pub fn id(&self) -> (res: &str)
        ensures
            res@ == self.spec_id(),
    {
        match self {
            ChatCompletionMessageToolCall::Function { id, .. } => id.as_str(),
            ChatCompletionMessageToolCall::Custom { id, .. } => id.as_str(),
        }
    }

    /// The name of the function or custom tool called.
    pub fn name(&self) -> (res: &str)
        ensures
            res@ == self.spec_name(),
    {
        match self {
            ChatCompletionMessageToolCall::Function { function, .. } => function.name.as_str(),
            ChatCompletionMessageToolCall::Custom { custom, .. } => custom.name.as_str(),
        }
    }
}

/// A function call: the function's name and its JSON arguments.
#[derive(Debug, Clone)]
pub struct FunctionToolCall {
    pub name: String,
    /// JSON string generated by the model.
    pub arguments: String,
}

/// A custom tool call: the tool's name and its raw input.
#[derive(Debug, Clone)]
pub struct CustomToolCall {
    pub name: String,
    /// Raw tool input generated by the model.
    pub input: String,
}

/// Token counts of a request and its answer.
#[derive(Debug, Clone)]
pub struct CompletionUsage {
    pub completion_tokens: u32,
    pub prompt_tokens: u32,
    pub total_tokens: u32,
    pub completion_tokens_details: Option<CompletionTokensDetails>,
    pub prompt_tokens_details: Option<PromptTokensDetails>,
}

#[derive(Debug, Clone)]
pub struct CompletionTokensDetails {
    pub accepted_prediction_tokens: Option<u32>,
    pub audio_tokens: Option<u32>,
    pub reasoning_tokens: Option<u32>,
    pub rejected_prediction_tokens: Option<u32>,
}

#[derive(Debug, Clone)]
pub struct PromptTokensDetails {
    pub audio_tokens: Option<u32>,
    pub cached_tokens: Option<u32>,
}

/// The models a provider offers.
#[derive(Debug, Clone)]
pub struct ListModelsResponse {
    pub data: Vec<Model>,
    pub object: String,
}

/// A model a provider offers.
#[derive(Debug, Clone)]
pub struct Model {
    pub id: String,
    pub created: u64,
    pub owned_by: String,
    pub object: String,
}

/// Delta content in a streaming chunk.
#[derive(Debug, Clone)]
pub struct ChatCompletionChunkChoiceDelta {
    pub role: Option<String>,
    pub content: Option<String>,
    pub refusal: Option<String>,
    pub reasoning_content: Option<String>,
    pub tool_calls: Vec<DeltaToolCalls>,
}

/// A piece of a streamed tool call.
#[derive(Debug, Clone)]
pub struct DeltaToolCalls {
    pub index: usize,
    pub id: Option<String>,
    pub function: Option<DeltaFunctionToolCall>,
    pub type_: Option<String>,
}

/// A piece of a streamed function call.
#[derive(Debug, Clone)]
pub struct DeltaFunctionToolCall {
    pub name: Option<String>,
    pub arguments: Option<String>,
}

/// A single choice in a streaming chunk.
#[derive(Debug, Clone)]
pub struct ChatCompletionChunkChoice {
    pub index: usize,
    pub delta: ChatCompletionChunkChoiceDelta,
    pub finish_reason: Option<String>,
}

/// Streaming chat completion chunk.
#[derive(Debug, Clone)]
pub struct ChatCompletionChunk {
    pub id: String,
    pub object: String,
    pub created: u64,
    pub model: String,
    pub choices: Vec<ChatCompletionChunkChoice>,
    pub usage: Option<CompletionUsage>,
}

} // verus!
