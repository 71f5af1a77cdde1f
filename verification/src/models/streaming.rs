//! Chunks of a streamed chat completion (server-sent events).

use vstd::prelude::*;
use crate::models::completion::CompletionUsage;

verus! {

/// Incremental update to a function call within a streaming delta.
#[derive(Debug)]
pub struct DeltaFunctionToolCall {
    /// Function name, present only in the first chunk of the call.
    pub name: Option<String>,

    /// Partial JSON argument string; the fragments of all chunks concatenate
    /// to the full arguments.
    pub arguments: Option<String>,
}

/// Incremental update to a tool call within a streaming delta.
#[derive(Debug)]
pub struct DeltaToolCall {
    /// Position of this tool call in the tool-call array.
    pub index: usize,

    /// Call identifier; present only in the first chunk of the call.
    pub id: Option<String>,

    /// Discriminator (`"function"`, ...); present only in the first chunk.
    pub type_: Option<String>,

    pub function: Option<DeltaFunctionToolCall>,
}

/// Partial content of a single message choice in a streaming chunk.
#[derive(Debug)]
pub struct ChatCompletionChunkChoiceDelta {
    /// Role of the message being streamed; present only in the first chunk.
    pub role: Option<String>,

    /// Partial text content; the fragments concatenate to the full text.
    pub content: Option<String>,

    /// Partial refusal text.
    pub refusal: Option<String>,

    /// Partial reasoning content from extended-thinking models.
    pub reasoning_content: Option<String>,

    /// Partial tool call updates.
    pub tool_calls: Option<Vec<DeltaToolCall>>,
}

impl Default for ChatCompletionChunkChoiceDelta {
    fn default() -> (res: ChatCompletionChunkChoiceDelta)
        ensures
            res.role is None,
            res.content is None,
            res.refusal is None,
            res.reasoning_content is None,
            res.tool_calls is None,
    {
        ChatCompletionChunkChoiceDelta {
            role: None,
            content: None,
            refusal: None,
            reasoning_content: None,
            tool_calls: None,
        }
    }
}

/// A single choice in a streaming chunk.
#[derive(Debug)]
pub struct ChatCompletionChunkChoice {
    /// Zero-based index in the `choices` array.
    pub index: usize,

    /// Incremental content update for this choice.
    pub delta: ChatCompletionChunkChoiceDelta,

    /// Set only in the final chunk of this choice.
    pub finish_reason: Option<String>,
}

/// A single server-sent event of a streaming chat completion.
#[derive(Debug)]
pub struct ChatCompletionChunk {
    /// Identifier shared by all chunks of this completion.
    pub id: String,

    /// Always `"chat.completion.chunk"`.
    pub object: String,

    /// Unix timestamp when the chunk was created.
    pub created: u64,

    /// Model that produced the chunk.
    pub model: String,

    pub choices: Vec<ChatCompletionChunkChoice>,

    /// Token usage for the whole completion; only in the final chunk, when
    /// requested.
    pub usage: Option<CompletionUsage>,
}

} // verus!
