//! Response body of a non-streaming chat completion.

use vstd::prelude::*;
use crate::models::logprob::ChatCompletionLogprobs;
use crate::models::tool::ToolCall;

verus! {

broadcast use vstd::string::group_string_axioms;

/// Response body for a non-streaming chat completion request.
#[derive(Debug)]
pub struct ChatCompletionResponse {
    /// Unique identifier for this completion.
    pub id: String,

    /// One or more generated choices (typically one unless `n > 1`).
    pub choices: Vec<ChatCompletionChoice>,

    /// Unix timestamp of when the completion was created.
    pub created: u64,

    /// Model that produced this completion.
    pub model: String,

    /// Token usage statistics, when available.
    pub usage: Option<CompletionUsage>,
}

/// A single candidate completion.
#[derive(Debug)]
pub struct ChatCompletionChoice {
    /// Why the model stopped generating.
    pub finish_reason: String,

    /// Zero-based index in the `choices` array.
    pub index: u32,

    /// Per-token log probabilities, present only when `logprobs` was `true`.
    pub logprobs: Option<ChatCompletionLogprobs>,

    /// The generated message.
    pub message: ChatCompletionMessage,
}

/// An assistant message returned inside a [`ChatCompletionChoice`].
#[derive(Debug)]
pub struct ChatCompletionMessage {
    /// Always `"assistant"`.
    pub role: String,

    /// Text content of the reply, or `None` for a tool call or a refusal.
    pub content: Option<String>,

    /// Extended reasoning text produced by reasoning-capable models.
    pub reasoning_content: Option<String>,

    /// Model-generated refusal text, when the request was declined.
    pub refusal: Option<String>,

    /// URL citations attached to the message, if any.
    pub annotations: Option<Vec<ChatCompletionAnnotation>>,

    /// Audio output, present when the `audio` modality was requested.
    pub audio: Option<ChatCompletionAudio>,

    /// Tool calls requested by the model.
    pub tool_calls: Option<Vec<ToolCall>>,
}

impl ChatCompletionMessage {
    /// The text content, or the empty text when it is absent.
    pub open spec fn spec_content_or_default(self) -> Seq<char> {
        match self.content {
            Some(c) => c@,
            None => Seq::empty(),
        }
    }

    /// Returns the text content, or an empty string when it is absent.
    pub fn content_or_default(&self) -> (res: &str)
        ensures
            res@ == self.spec_content_or_default(),
    {
        match &self.content {
            Some(c) => c.as_str(),
            None => {
                proof {
                    reveal_strlit("");
                }
                ""
            },
        }
    }

    /// Returns `true` when the model issued one or more tool calls.
    pub fn has_tool_calls(&self) -> (res: bool)
        ensures
            res == (self.tool_calls matches Some(calls) && calls@.len() > 0),
    {
        match &self.tool_calls {
            Some(calls) => calls.len() > 0,
            None => false,
        }
    }
}

/// An inline annotation attached to a message.
#[derive(Debug)]
pub enum ChatCompletionAnnotation {
    /// A citation that links a span of output text to a source URL.
    UrlCitation { url_citation: UrlCitation },
}

/// Source URL and the character span it annotates.
#[derive(Debug)]
pub struct UrlCitation {
    /// Start character index (inclusive) in the message content.
    pub start_index: u32,

    /// End character index (exclusive) in the message content.
    pub end_index: u32,

    /// Page or document title of the cited source.
    pub title: String,

    /// URL of the cited source.
    pub url: String,
}

/// Audio output returned when the `audio` modality is enabled.
#[derive(Debug)]
pub struct ChatCompletionAudio {
    /// Identifier used to refer back to this audio in later turns.
    pub id: String,

    /// Base64-encoded audio bytes in the format requested.
    pub data: String,

    /// Unix timestamp after which this audio can no longer be referenced.
    pub expires_at: i64,

    /// Transcript of the generated audio.
    pub transcript: String,
}

/// Aggregate token counts for a completion.
#[derive(Debug)]
pub struct CompletionUsage {
    pub completion_tokens: u32,
    pub prompt_tokens: u32,
    pub total_tokens: u32,
    pub completion_tokens_details: Option<CompletionTokensDetails>,
    pub prompt_tokens_details: Option<PromptTokensDetails>,
}

/// Breakdown of completion token usage.
#[derive(Debug)]
pub struct CompletionTokensDetails {
    pub accepted_prediction_tokens: Option<u32>,
    pub audio_tokens: Option<u32>,
    /// Tokens consumed by the model's internal reasoning process.
    pub reasoning_tokens: Option<u32>,
    pub rejected_prediction_tokens: Option<u32>,
}

/// Breakdown of prompt token usage.
#[derive(Debug)]
pub struct PromptTokensDetails {
    pub audio_tokens: Option<u32>,
    /// Tokens served from the prompt cache.
    pub cached_tokens: Option<u32>,
}

} // verus!
