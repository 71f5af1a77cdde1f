//! An OpenAI client with text-only messages, a request builder that insists
//! on a model, and a client that posts chat completions.
//!
//! The tool definitions, tool calls and usage counts are those of
//! [`models`]; the message, tool-choice and request types are this form's
//! own.

pub mod client;
pub mod models;

use std::collections::HashMap;
use vstd::prelude::*;
use vstd::string::*;
use crate::provider::{clone_http_client, default_http_client};
use crate::text::{concat_str, str_eq, text_of};

pub use models::{
    AllowedToolsMode, AllowedToolsType, ChatCompletionAnnotation, ChatCompletionLogprobs,
    ChatCompletionMessageToolCall, ChatCompletionTokenLogprob, ChatCompletionTool,
    CompletionTokensDetails, CompletionUsage, CustomToolCall, CustomToolDefinition,
    CustomToolFormat, CustomToolType, FunctionDefinition, FunctionToolCall, FunctionToolType,
    GrammarDefinition, PromptTokensDetails, ToolChoiceMode, ToolName, TopLogprob, UrlCitation,
};

verus! {

broadcast use vstd::string::group_string_axioms;

const DEVELOPER_ROLE: &'static str = "developer";
const SYSTEM_ROLE: &'static str = "system";
const USER_ROLE: &'static str = "user";
const ASSISTANT_ROLE: &'static str = "assistant";
const TOOL_ROLE: &'static str = "tool";

/// A text message of the conversation.
#[derive(Debug, Clone)]
pub struct ChatCompletionMessageParam {
    pub role: String,
    pub content: String,
    pub name: Option<String>,
}

impl ChatCompletionMessageParam {
    pub fn new(role: String, content: String) -> (res: ChatCompletionMessageParam)
        ensures
            res.role == role,
            res.content == content,
            res.name is None,
    {
        ChatCompletionMessageParam { role, content, name: None }
    }

    pub fn developer(content: String) -> (res: ChatCompletionMessageParam)
        ensures
            res.role@ == "developer"@,
            res.content == content,
            res.name is None,
    {
        ChatCompletionMessageParam::new(String::from_str(DEVELOPER_ROLE), content)
    }

    pub fn system(content: String) -> (res: ChatCompletionMessageParam)
        ensures
            res.role@ == "system"@,
            res.content == content,
            res.name is None,
    {
        ChatCompletionMessageParam::new(String::from_str(SYSTEM_ROLE), content)
    }

    pub fn user(content: String) -> (res: ChatCompletionMessageParam)
        ensures
            res.role@ == "user"@,
            res.content == content,
            res.name is None,
    {
        ChatCompletionMessageParam::new(String::from_str(USER_ROLE), content)
    }

    pub fn assistant(content: String) -> (res: ChatCompletionMessageParam)
        ensures
            res.role@ == "assistant"@,
            res.content == content,
            res.name is None,
    {
        ChatCompletionMessageParam::new(String::from_str(ASSISTANT_ROLE), content)
    }

    pub fn tool(content: String) -> (res: ChatCompletionMessageParam)
        ensures
            res.role@ == "tool"@,
            res.content == content,
            res.name is None,
    {
        ChatCompletionMessageParam::new(String::from_str(TOOL_ROLE), content)
    }

    pub fn is_developer(&self) -> (res: bool)
        ensures
            res == (self.role@ == "developer"@),
    {
        str_eq(self.role.as_str(), DEVELOPER_ROLE)
    }

    pub fn is_system(&self) -> (res: bool)
        ensures
            res == (self.role@ == "system"@),
    {
        str_eq(self.role.as_str(), SYSTEM_ROLE)
    }

    pub fn is_user(&self) -> (res: bool)
        ensures
            res == (self.role@ == "user"@),
    {
        str_eq(self.role.as_str(), USER_ROLE)
    }

    pub fn is_assistant(&self) -> (res: bool)
        ensures
            res == (self.role@ == "assistant"@),
    {
        str_eq(self.role.as_str(), ASSISTANT_ROLE)
    }

    pub fn is_tool(&self) -> (res: bool)
        ensures
            res == (self.role@ == "tool"@),
    {
        str_eq(self.role.as_str(), TOOL_ROLE)
    }
}

/// Whether and how the model calls tools.
#[derive(Debug, Clone)]
pub enum ChatCompletionToolChoice {
    Mode(ToolChoiceMode),
    AllowedTools(ChatCompletionAllowedToolChoice),
    Function(ChatCompletionNamedFunctionToolChoice),
    Custom(ChatCompletionNamedCustomToolChoice),
}

impl ChatCompletionToolChoice {
    /// The model calls no tool.
    pub fn none() -> (res: ChatCompletionToolChoice)
        ensures
            res == ChatCompletionToolChoice::Mode(ToolChoiceMode::NoTools),
    {
        ChatCompletionToolChoice::Mode(ToolChoiceMode::NoTools)
    }

    pub fn auto() -> (res: ChatCompletionToolChoice)
        ensures
            res == ChatCompletionToolChoice::Mode(ToolChoiceMode::Auto),
    {
        ChatCompletionToolChoice::Mode(ToolChoiceMode::Auto)
    }

    pub fn required() -> (res: ChatCompletionToolChoice)
        ensures
            res == ChatCompletionToolChoice::Mode(ToolChoiceMode::Required),
    {
        ChatCompletionToolChoice::Mode(ToolChoiceMode::Required)
    }

    pub fn allowed_tools(mode: AllowedToolsMode, tools: Vec<ChatCompletionTool>) -> (res:
        ChatCompletionToolChoice)
        ensures
            res == ChatCompletionToolChoice::AllowedTools(
                ChatCompletionAllowedToolChoice { kind: AllowedToolsType::AllowedTools, mode, tools },
            ),
    {
        ChatCompletionToolChoice::AllowedTools(
            ChatCompletionAllowedToolChoice { kind: AllowedToolsType::AllowedTools, mode, tools },
        )
    }

    pub fn function(name: String) -> (res: ChatCompletionToolChoice)
        ensures
            res == ChatCompletionToolChoice::Function(
                ChatCompletionNamedFunctionToolChoice {
                    kind: FunctionToolType::Function,
                    function: ToolName { name },
                },
            ),
    {
        ChatCompletionToolChoice::Function(
            ChatCompletionNamedFunctionToolChoice {
                kind: FunctionToolType::Function,
                function: ToolName { name },
            },
        )
    }

    pub fn custom(name: String) -> (res: ChatCompletionToolChoice)
        ensures
            res == ChatCompletionToolChoice::Custom(
                ChatCompletionNamedCustomToolChoice {
                    kind: CustomToolType::Custom,
                    custom: ToolName { name },
                },
            ),
    {
        ChatCompletionToolChoice::Custom(
            ChatCompletionNamedCustomToolChoice {
                kind: CustomToolType::Custom,
                custom: ToolName { name },
            },
        )
    }
}

/// A choice restricted to the listed tools.
#[derive(Debug, Clone)]
pub struct ChatCompletionAllowedToolChoice {
    pub kind: AllowedToolsType,
    pub mode: AllowedToolsMode,
    pub tools: Vec<ChatCompletionTool>,
}

/// A choice that forces a call of the named function.
#[derive(Debug, Clone)]
pub struct ChatCompletionNamedFunctionToolChoice {
    pub kind: FunctionToolType,
    pub function: ToolName,
}

/// A choice that forces a call of the named custom tool.
#[derive(Debug, Clone)]
pub struct ChatCompletionNamedCustomToolChoice {
    pub kind: CustomToolType,
    pub custom: ToolName,
}

/// Fluent builder for [`ChatCompletionRequest`].
#[derive(Debug)]
pub struct ChatCompletionRequestBuilder {
    model: String,
    messages: Vec<ChatCompletionMessageParam>,
    stream: Option<bool>,
    max_completion_tokens: Option<u32>,
    metadata: Option<HashMap<String, String>>,
    n: Option<u8>,
    frequency_penalty: Option<u32>,
    temperature: Option<u32>,
    reasoning_effort: Option<String>,
    tool_choice: Option<ChatCompletionNamedCustomToolChoice>,
    tools: Vec<ChatCompletionTool>,
}

/// A chat completion request. Floating-point settings are held as the bit
/// patterns of their `f32` values.
#[derive(Debug)]
pub struct ChatCompletionRequest {
    pub model: String,
    pub messages: Vec<ChatCompletionMessageParam>,
    pub stream: Option<bool>,
    pub max_completion_tokens: Option<u32>,
    pub metadata: Option<HashMap<String, String>>,
    /// 1..=128
    pub n: Option<u8>,
    /// -2..=2
    pub frequency_penalty: Option<u32>,
    /// 0..=2
    pub temperature: Option<u32>,
    pub reasoning_effort: Option<String>,
    tool_choice: Option<ChatCompletionNamedCustomToolChoice>,
    pub tools: Vec<ChatCompletionTool>,
}

/// The settings of a request, as values.
pub struct RequestSettings {
    pub model: Seq<char>,
    pub messages: Seq<ChatCompletionMessageParam>,
    pub stream: Option<bool>,
    pub max_completion_tokens: Option<u32>,
    pub metadata: Option<HashMap<String, String>>,
    pub n: Option<u8>,
    pub frequency_penalty: Option<u32>,
    pub temperature: Option<u32>,
    pub reasoning_effort: Option<Seq<char>>,
    pub tool_choice: Option<ChatCompletionNamedCustomToolChoice>,
    pub tools: Seq<ChatCompletionTool>,
}

/// The model and messages given, and nothing else set.
pub open spec fn only(model: Seq<char>, messages: Seq<ChatCompletionMessageParam>) -> RequestSettings {
    RequestSettings {
        model,
        messages,
        stream: None,
        max_completion_tokens: None,
        metadata: None,
        n: None,
        frequency_penalty: None,
        temperature: None,
        reasoning_effort: None,
        tool_choice: None,
        tools: Seq::empty(),
    }
}

impl ChatCompletionRequest {
    pub closed spec fn settings(&self) -> RequestSettings {
        RequestSettings {
            model: self.model@,
            messages: self.messages@,
            stream: self.stream,
            max_completion_tokens: self.max_completion_tokens,
            metadata: self.metadata,
            n: self.n,
            frequency_penalty: self.frequency_penalty,
            temperature: self.temperature,
            reasoning_effort: text_of(self.reasoning_effort),
            tool_choice: self.tool_choice,
            tools: self.tools@,
        }
    }

    pub fn new(model: String, messages: Vec<ChatCompletionMessageParam>) -> (res:
        ChatCompletionRequest)
        ensures
            res.settings() == only(model@, messages@),
    {
        let res = ChatCompletionRequest {
            model,
            messages,
            stream: None,
            max_completion_tokens: None,
            metadata: None,
            n: None,
            frequency_penalty: None,
            temperature: None,
            reasoning_effort: None,
            tool_choice: None,
            tools: Vec::new(),
        };
        assert(res.settings().tools =~= Seq::<ChatCompletionTool>::empty());
        res
    }

    pub fn builder() -> (res: ChatCompletionRequestBuilder)
        ensures
            res.settings() == only(Seq::empty(), Seq::empty()),
    {
        ChatCompletionRequestBuilder::default()
    }
}

impl Default for ChatCompletionRequest {
    fn default() -> (res: ChatCompletionRequest)
        ensures
            res.settings() == only(Seq::empty(), Seq::empty()),
    {
        let res = ChatCompletionRequest::new(String::new(), Vec::new());
        assert(res.settings().model =~= Seq::<char>::empty());
        assert(res.settings().messages =~= Seq::<ChatCompletionMessageParam>::empty());
        res
    }
}

impl Default for ChatCompletionRequestBuilder {
    fn default() -> (res: ChatCompletionRequestBuilder)
        ensures
            res.settings() == only(Seq::empty(), Seq::empty()),
    {
        let res = ChatCompletionRequestBuilder {
            model: String::new(),
            messages: Vec::new(),
            stream: None,
            max_completion_tokens: None,
            metadata: None,
            n: None,
            frequency_penalty: None,
            temperature: None,
            reasoning_effort: None,
            tool_choice: None,
            tools: Vec::new(),
        };
        assert(res.settings().model =~= Seq::<char>::empty());
        assert(res.settings().messages =~= Seq::<ChatCompletionMessageParam>::empty());
        assert(res.settings().tools =~= Seq::<ChatCompletionTool>::empty());
        res
    }
}

impl ChatCompletionRequestBuilder {
    /// What the request built now would hold.
    pub closed spec fn settings(&self) -> RequestSettings {
        RequestSettings {
            model: self.model@,
            messages: self.messages@,
            stream: self.stream,
            max_completion_tokens: self.max_completion_tokens,
            metadata: self.metadata,
            n: self.n,
            frequency_penalty: self.frequency_penalty,
            temperature: self.temperature,
            reasoning_effort: text_of(self.reasoning_effort),
            tool_choice: self.tool_choice,
            tools: self.tools@,
        }
    }

    pub fn model(self, v: String) -> (res: ChatCompletionRequestBuilder)
        ensures
            res.settings() == (RequestSettings { model: v@, ..self.settings() }),
    {
        ChatCompletionRequestBuilder { model: v, ..self }
    }

    pub fn messages(self, v: Vec<ChatCompletionMessageParam>) -> (res: ChatCompletionRequestBuilder)
        ensures
            res.settings() == (RequestSettings { messages: v@, ..self.settings() }),
    {
        ChatCompletionRequestBuilder { messages: v, ..self }
    }

    pub fn message(self, v: ChatCompletionMessageParam) -> (res: ChatCompletionRequestBuilder)
        ensures
            res.settings() == (RequestSettings {
                messages: self.settings().messages.push(v),
                ..self.settings()
            }),
    {
        let mut s = self;
        s.messages.push(v);
        s
    }

    pub fn stream(self) -> (res: ChatCompletionRequestBuilder)
        ensures
            res.settings() == (RequestSettings { stream: Some(true), ..self.settings() }),
    {
        ChatCompletionRequestBuilder { stream: Some(true), ..self }
    }

    pub fn max_completion_tokens(self, v: u32) -> (res: ChatCompletionRequestBuilder)
        ensures
            res.settings() == (RequestSettings { max_completion_tokens: Some(v), ..self.settings() }),
    {
        ChatCompletionRequestBuilder { max_completion_tokens: Some(v), ..self }
    }

    pub fn metadata(self, v: HashMap<String, String>) -> (res: ChatCompletionRequestBuilder)
        ensures
            res.settings() == (RequestSettings { metadata: Some(v), ..self.settings() }),
    {
        ChatCompletionRequestBuilder { metadata: Some(v), ..self }
    }

    pub fn n(self, v: u8) -> (res: ChatCompletionRequestBuilder)
        ensures
            res.settings() == (RequestSettings { n: Some(v), ..self.settings() }),
    {
        ChatCompletionRequestBuilder { n: Some(v), ..self }
    }

    /// Sets the repetition penalty, given as the bit pattern of an `f32`.
    pub fn frequency_penalty(self, bits: u32) -> (res: ChatCompletionRequestBuilder)
        ensures
            res.settings() == (RequestSettings { frequency_penalty: Some(bits), ..self.settings() }),
    {
        ChatCompletionRequestBuilder { frequency_penalty: Some(bits), ..self }
    }

    /// Sets the temperature, given as the bit pattern of an `f32`.
    pub fn temperature(self, bits: u32) -> (res: ChatCompletionRequestBuilder)
        ensures
            res.settings() == (RequestSettings { temperature: Some(bits), ..self.settings() }),
    {
        ChatCompletionRequestBuilder { temperature: Some(bits), ..self }
    }

    pub fn reasoning_effort(self, v: String) -> (res: ChatCompletionRequestBuilder)
        ensures
            res.settings() == (RequestSettings { reasoning_effort: Some(v@), ..self.settings() }),
    {
        ChatCompletionRequestBuilder { reasoning_effort: Some(v), ..self }
    }

    pub fn tool(self, v: ChatCompletionTool) -> (res: ChatCompletionRequestBuilder)
        ensures
            res.settings() == (RequestSettings {
                tools: self.settings().tools.push(v),
                ..self.settings()
            }),
    {
        let mut s = self;
        s.tools.push(v);
        s
    }

    pub fn tools(self, v: Vec<ChatCompletionTool>) -> (res: ChatCompletionRequestBuilder)
        ensures
            res.settings() == (RequestSettings { tools: v@, ..self.settings() }),
    {
        ChatCompletionRequestBuilder { tools: v, ..self }
    }

    /// The request; a model name is required (an empty one is refused).
    pub fn build(self) -> (res: ChatCompletionRequest)
        requires
            self.settings().model.len() > 0,
        ensures
            res.settings() == self.settings(),
    {
        ChatCompletionRequest {
            model: self.model,
            messages: self.messages,
            stream: self.stream,
            max_completion_tokens: self.max_completion_tokens,
            metadata: self.metadata,
            n: self.n,
            frequency_penalty: self.frequency_penalty,
            temperature: self.temperature,
            reasoning_effort: self.reasoning_effort,
            tool_choice: self.tool_choice,
            tools: self.tools,
        }
    }
}

/// A complete answer.
#[derive(Debug, Clone)]
pub struct ChatCompletionResponse {
    pub id: String,
    pub choices: Vec<ChatCompletionChoice>,
    pub created: u64,
    pub model: String,
    pub usage: Option<CompletionUsage>,
}

/// One alternative of an answer.
#[derive(Debug, Clone)]
pub struct ChatCompletionChoice {
    pub finish_reason: String,
    pub index: u32,
    pub logprobs: Option<ChatCompletionLogprobs>,
    pub message: ChatCompletionMessage,
}

/// The message the model answered with.
#[derive(Debug, Clone)]
pub struct ChatCompletionMessage {
    pub role: String,
    pub content: Option<String>,
    pub refusal: Option<String>,
    pub annotations: Option<Vec<ChatCompletionAnnotation>>,
    pub tool_calls: Option<Vec<ChatCompletionMessageToolCall>>,
}

impl ChatCompletionMessage {
    /// The message asks for at least one tool call.
    pub fn has_tool_calls(&self) -> (res: bool)
        ensures
            res == (self.tool_calls matches Some(calls) && calls@.len() > 0),
    {
        match &self.tool_calls {
            Some(calls) => calls.len() > 0,
            None => false,
        }
    }
}

/// Builder for [`OpenaiClient`].
#[derive(Debug)]
pub struct OpenaiClientBuilder {
    base_url: String,
    api_key: Option<String>,
    http_client: Option<reqwest::Client>,
}

impl Default for OpenaiClientBuilder {
    fn default() -> (res: OpenaiClientBuilder)
        ensures
            res.spec_base_url().len() == 0,
            res.spec_api_key() is None,
            res.spec_http_client() is None,
    {
        OpenaiClientBuilder { base_url: String::new(), api_key: None, http_client: None }
    }
}

impl OpenaiClientBuilder {
    pub closed spec fn spec_base_url(&self) -> Seq<char> {
        self.base_url@
    }

    pub closed spec fn spec_api_key(&self) -> Option<Seq<char>> {
        text_of(self.api_key)
    }

    pub closed spec fn spec_http_client(&self) -> Option<reqwest::Client> {
        self.http_client
    }

    pub fn base_url(self, v: String) -> (res: OpenaiClientBuilder)
        ensures
            res.spec_base_url() == v@,
            res.spec_api_key() == self.spec_api_key(),
            res.spec_http_client() == self.spec_http_client(),
    {
        OpenaiClientBuilder { base_url: v, ..self }
    }

    pub fn api_key(self, v: String) -> (res: OpenaiClientBuilder)
        ensures
            res.spec_base_url() == self.spec_base_url(),
            res.spec_api_key() == Some(v@),
            res.spec_http_client() == self.spec_http_client(),
    {
        OpenaiClientBuilder { api_key: Some(v), ..self }
    }

    pub fn http_client(self, v: reqwest::Client) -> (res: OpenaiClientBuilder)
        ensures
            res.spec_base_url() == self.spec_base_url(),
            res.spec_api_key() == self.spec_api_key(),
            res.spec_http_client() == Some(v),
    {
        OpenaiClientBuilder { http_client: Some(v), ..self }
    }

    /// The client; a base URL is required (an empty one is refused).
    pub fn build(self) -> (res: OpenaiClient)
        requires
            self.spec_base_url().len() > 0,
        ensures
            res.spec_base_url() == self.spec_base_url(),
            res.spec_api_key() == self.spec_api_key(),
            self.spec_http_client() matches Some(h) ==> res.spec_http_client() == h,
    {
        let http_client = match self.http_client {
            Some(h) => h,
            None => default_http_client(),
        };
        OpenaiClient { base_url: self.base_url, api_key: self.api_key, http_client }
    }
}

/// Client that posts chat completions to an OpenAI-compatible API.
#[derive(Debug)]
pub struct OpenaiClient {
    pub base_url: String,
    api_key: Option<String>,
    http_client: reqwest::Client,
}

impl OpenaiClient {
    pub closed spec fn spec_base_url(&self) -> Seq<char> {
        self.base_url@
    }

    pub closed spec fn spec_api_key(&self) -> Option<Seq<char>> {
        text_of(self.api_key)
    }

    pub closed spec fn spec_http_client(&self) -> reqwest::Client {
        self.http_client
    }

    /// A client with a default HTTP client.
    pub fn new(base_url: String, api_key: Option<String>) -> (res: OpenaiClient)
        ensures
            res.spec_base_url() == base_url@,
            res.spec_api_key() == text_of(api_key),
    {
        OpenaiClient { base_url, api_key, http_client: default_http_client() }
    }

    pub fn builder() -> (res: OpenaiClientBuilder)
        ensures
            res.spec_base_url().len() == 0,
            res.spec_api_key() is None,
            res.spec_http_client() is None,
    {
        OpenaiClientBuilder::default()
    }

    /// The HTTP client the requests go through.
    pub fn http(&self) -> (res: &reqwest::Client)
        ensures
            *res == self.spec_http_client(),
    {
        &self.http_client
    }

    /// The `Authorization` header: `Bearer <key>` when an API key is set.
    pub fn authorization(&self) -> (res: Option<String>)
        ensures
            match self.spec_api_key() {
                Some(k) => res matches Some(h) && h@ == "Bearer "@ + k,
                None => res is None,
            },
    {
        match &self.api_key {
            Some(k) => Some(concat_str("Bearer ", k.as_str())),
            None => None,
        }
    }

    /// Where chat completions are posted: `<base_url>/chat/completions`.
    pub fn chat_completions_url(&self) -> (res: String)
        ensures
            res@ == self.spec_base_url() + "/chat/completions"@,
    {
        concat_str(self.base_url.as_str(), "/chat/completions")
    }

    /// The error reported for an unsuccessful HTTP status.
    pub fn api_error(body: &str) -> (res: String)
        ensures
            res@ == "OpenAI API error: "@ + body@,
    {
        concat_str("OpenAI API error: ", body)
    }
}

impl Clone for OpenaiClient {
    fn clone(&self) -> (res: OpenaiClient)
        ensures
            res.spec_base_url() == self.spec_base_url(),
            res.spec_api_key() == self.spec_api_key(),
    {
        let api_key = match &self.api_key {
            Some(k) => Some(k.clone()),
            None => None,
        };
        OpenaiClient {
            base_url: self.base_url.clone(),
            api_key,
            http_client: clone_http_client(&self.http_client),
        }
    }
}

impl Default for OpenaiClient {
    fn default() -> (res: OpenaiClient)
        ensures
            res.spec_base_url().len() == 0,
            res.spec_api_key() is None,
    {
        OpenaiClient { base_url: String::new(), api_key: None, http_client: default_http_client() }
    }
}

} // verus!
