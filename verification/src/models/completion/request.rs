//! The chat completion request body and its builder.
//!
//! Sampling parameters that the wire format writes as 32-bit floats
//! (`temperature`, `frequency_penalty`) are held here as their IEEE-754 bit
//! patterns (`f32::to_bits`), so the request is carried exactly without any
//! floating-point arithmetic.

use std::collections::HashMap;
use vstd::prelude::*;
use crate::models::message::MessageParam;
use crate::models::tool::{Tool, ToolChoice};

verus! {

/// A chat completion request body.
#[derive(Debug)]
pub struct ChatCompletion {
    /// Model identifier (e.g. `"gpt-4o"`).
    pub model: String,

    /// Ordered conversation history, including the latest user turn.
    pub messages: Vec<MessageParam>,

    /// When `true`, the API streams back partial deltas as SSE.
    pub stream: Option<bool>,

    /// Hard cap on the number of tokens the model may generate.
    pub max_completion_tokens: Option<u32>,

    /// Arbitrary key-value metadata attached to the request.
    pub metadata: Option<HashMap<String, String>>,

    /// Number of independent completions to generate (`1`–`128`).
    pub n: Option<u8>,

    /// Bit pattern of the `f32` repetition penalty (`-2.0`–`2.0`).
    pub frequency_penalty: Option<u32>,

    /// Bit pattern of the `f32` sampling temperature (`0.0`–`2.0`).
    pub temperature: Option<u32>,

    /// When `true`, log probabilities are returned for each output token.
    pub logprobs: Option<bool>,

    /// Effort level for extended-thinking models.
    pub reasoning_effort: Option<String>,

    /// Governs whether and how the model calls tools.
    pub tool_choice: Option<ToolChoice>,

    /// Tools available for the model to call.
    pub tools: Vec<Tool>,
}

impl ChatCompletion {
    /// Every optional setting of `self` is absent and no tool is offered.
    pub open spec fn has_only_defaults(self) -> bool {
        &&& self.stream is None
        &&& self.max_completion_tokens is None
        &&& self.metadata is None
        &&& self.n is None
        &&& self.frequency_penalty is None
        &&& self.temperature is None
        &&& self.logprobs is None
        &&& self.reasoning_effort is None
        &&& self.tool_choice is None
        &&& self.tools@.len() == 0
    }

    /// A minimal request.
    pub fn new(model: String, messages: Vec<MessageParam>) -> (res: ChatCompletion)
        ensures
            res.model == model,
            res.messages == messages,
            res.has_only_defaults(),
    {
        ChatCompletion {
            model,
            messages,
            stream: None,
            max_completion_tokens: None,
            metadata: None,
            n: None,
            frequency_penalty: None,
            temperature: None,
            logprobs: None,
            reasoning_effort: None,
            tool_choice: None,
            tools: Vec::new(),
        }
    }

    /// A builder with nothing set.
    pub fn builder() -> (res: ChatCompletionBuilder)
        ensures
            res.spec_build().model@ == Seq::<char>::empty(),
            res.spec_build().messages@.len() == 0,
            res.spec_build().has_only_defaults(),
    {
        ChatCompletionBuilder::default()
    }
}

impl Default for ChatCompletion {
    fn default() -> (res: ChatCompletion)
        ensures
            res.model@ == Seq::<char>::empty(),
            res.messages@.len() == 0,
            res.has_only_defaults(),
    {
        ChatCompletion::new(String::new(), Vec::new())
    }
}

/// Fluent builder for [`ChatCompletion`].
#[derive(Debug)]
pub struct ChatCompletionBuilder {
    model: String,
    messages: Vec<MessageParam>,
    stream: Option<bool>,
    max_completion_tokens: Option<u32>,
    metadata: Option<HashMap<String, String>>,
    n: Option<u8>,
    frequency_penalty: Option<u32>,
    temperature: Option<u32>,
    logprobs: Option<bool>,
    reasoning_effort: Option<String>,
    tool_choice: Option<ToolChoice>,
    tools: Vec<Tool>,
}

impl Default for ChatCompletionBuilder {
    fn default() -> (res: ChatCompletionBuilder)
        ensures
            res.spec_build().model@ == Seq::<char>::empty(),
            res.spec_build().messages@.len() == 0,
            res.spec_build().has_only_defaults(),
    {
        ChatCompletionBuilder {
            model: String::new(),
            messages: Vec::new(),
            stream: None,
            max_completion_tokens: None,
            metadata: None,
            n: None,
            frequency_penalty: None,
            temperature: None,
            logprobs: None,
            reasoning_effort: None,
            tool_choice: None,
            tools: Vec::new(),
        }
    }
}

impl ChatCompletionBuilder {
    /// The request that `build` produces from this builder.
    pub closed spec fn spec_build(self) -> ChatCompletion {
        ChatCompletion {
            model: self.model,
            messages: self.messages,
            stream: self.stream,
            max_completion_tokens: self.max_completion_tokens,
            metadata: self.metadata,
            n: self.n,
            frequency_penalty: self.frequency_penalty,
            temperature: self.temperature,
            logprobs: self.logprobs,
            reasoning_effort: self.reasoning_effort,
            tool_choice: self.tool_choice,
            tools: self.tools,
        }
    }

    pub fn model(self, model: String) -> (res: ChatCompletionBuilder)
        ensures
            res.spec_build() == (ChatCompletion { model, ..self.spec_build() }),
    {
        ChatCompletionBuilder { model, ..self }
    }

    pub fn messages(self, messages: Vec<MessageParam>) -> (res: ChatCompletionBuilder)
        ensures
            res.spec_build() == (ChatCompletion { messages, ..self.spec_build() }),
    {
        ChatCompletionBuilder { messages, ..self }
    }

    /// Appends a single message to the conversation.
    pub fn message(self, message: MessageParam) -> (res: ChatCompletionBuilder)
        ensures
            res.spec_build().messages@ == self.spec_build().messages@.push(message),
            res.spec_build() == (ChatCompletion {
                messages: res.spec_build().messages,
                ..self.spec_build()
            }),
    {
        let mut s = self;
        s.messages.push(message);
        s
    }

    /// Enables streaming (SSE) output.
    pub fn stream(self) -> (res: ChatCompletionBuilder)
        ensures
            res.spec_build() == (ChatCompletion { stream: Some(true), ..self.spec_build() }),
    {
        ChatCompletionBuilder { stream: Some(true), ..self }
    }

    pub fn max_completion_tokens(self, n: u32) -> (res: ChatCompletionBuilder)
        ensures
            res.spec_build() == (ChatCompletion {
                max_completion_tokens: Some(n),
                ..self.spec_build()
            }),
    {
        ChatCompletionBuilder { max_completion_tokens: Some(n), ..self }
    }

    pub fn metadata(self, metadata: HashMap<String, String>) -> (res: ChatCompletionBuilder)
        ensures
            res.spec_build() == (ChatCompletion { metadata: Some(metadata), ..self.spec_build() }),
    {
        ChatCompletionBuilder { metadata: Some(metadata), ..self }
    }

    pub fn n(self, n: u8) -> (res: ChatCompletionBuilder)
        ensures
            res.spec_build() == (ChatCompletion { n: Some(n), ..self.spec_build() }),
    {
        ChatCompletionBuilder { n: Some(n), ..self }
    }

    /// Sets the repetition penalty, given as the bit pattern of an `f32`.
    pub fn frequency_penalty(self, penalty_bits: u32) -> (res: ChatCompletionBuilder)
        ensures
            res.spec_build() == (ChatCompletion {
                frequency_penalty: Some(penalty_bits),
                ..self.spec_build()
            }),
    {
        ChatCompletionBuilder { frequency_penalty: Some(penalty_bits), ..self }
    }

    /// Sets the temperature, given as the bit pattern of an `f32`.
    pub fn temperature(self, temp_bits: u32) -> (res: ChatCompletionBuilder)
        ensures
            res.spec_build() == (ChatCompletion { temperature: Some(temp_bits), ..self.spec_build() }),
    {
        ChatCompletionBuilder { temperature: Some(temp_bits), ..self }
    }

    /// Requests per-token log probabilities in the response.
    pub fn logprobs(self) -> (res: ChatCompletionBuilder)
        ensures
            res.spec_build() == (ChatCompletion { logprobs: Some(true), ..self.spec_build() }),
    {
        ChatCompletionBuilder { logprobs: Some(true), ..self }
    }

    pub fn reasoning_effort(self, effort: String) -> (res: ChatCompletionBuilder)
        ensures
            res.spec_build() == (ChatCompletion {
                reasoning_effort: Some(effort),
                ..self.spec_build()
            }),
    {
        ChatCompletionBuilder { reasoning_effort: Some(effort), ..self }
    }

    pub fn tool_choice(self, choice: ToolChoice) -> (res: ChatCompletionBuilder)
        ensures
            res.spec_build() == (ChatCompletion { tool_choice: Some(choice), ..self.spec_build() }),
    {
        ChatCompletionBuilder { tool_choice: Some(choice), ..self }
    }

    /// Appends a single tool to the tool list.
    pub fn tool(self, tool: Tool) -> (res: ChatCompletionBuilder)
        ensures
            res.spec_build().tools@ == self.spec_build().tools@.push(tool),
            res.spec_build() == (ChatCompletion {
                tools: res.spec_build().tools,
                ..self.spec_build()
            }),
    {
        let mut s = self;
        s.tools.push(tool);
        s
    }

    pub fn tools(self, tools: Vec<Tool>) -> (res: ChatCompletionBuilder)
        ensures
            res.spec_build() == (ChatCompletion { tools, ..self.spec_build() }),
    {
        ChatCompletionBuilder { tools, ..self }
    }

    /// Consumes the builder and produces the request.
    pub fn build(self) -> (res: ChatCompletion)
        ensures
            res == self.spec_build(),
    {
        ChatCompletion {
            model: self.model,
            messages: self.messages,
            stream: self.stream,
            max_completion_tokens: self.max_completion_tokens,
            metadata: self.metadata,
            n: self.n,
            frequency_penalty: self.frequency_penalty,
            temperature: self.temperature,
            logprobs: self.logprobs,
            reasoning_effort: self.reasoning_effort,
            tool_choice: self.tool_choice,
            tools: self.tools,
        }
    }
}

} // verus!
