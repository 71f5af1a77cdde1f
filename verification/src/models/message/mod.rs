//! Types that make up the `messages` array of a chat completion request.

pub mod content;
pub mod part;

pub use content::{
    AudioResponseData, ChatCompletionMessageContent, ChatCompletionMessageParam, MessageContent,
    MessageContentView, MessageParam, MessageParamView,
};
pub use part::{ChatCompletionContentPart, ContentPart, FileData, ImageUrl, InputAudioData};
