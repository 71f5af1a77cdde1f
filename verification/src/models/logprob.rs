//! Log-probability data returned when a request sets `logprobs: true`.
//!
//! Log probabilities are `f32` on the wire; they are held here as their
//! IEEE-754 bit patterns (`f32::to_bits`).

use vstd::prelude::*;

verus! {

/// Log-probability data for all output tokens of a choice.
#[derive(Debug)]
pub struct ChatCompletionLogprobs {
    /// Per-token log probabilities for the content tokens.
    pub content: Option<Vec<TokenLogprob>>,

    /// Per-token log probabilities for refusal tokens.
    pub refusal: Option<Vec<TokenLogprob>>,
}

/// Log-probability information for a single output token.
#[derive(Debug)]
pub struct TokenLogprob {
    /// The token as decoded text.
    pub token: String,

    /// Raw UTF-8 bytes of the token.
    pub bytes: Option<Vec<u8>>,

    /// Bit pattern of the `f32` natural log probability of this token.
    pub logprob: u32,

    /// The most likely alternative tokens at this position.
    pub top_logprobs: Vec<TopLogprob>,
}

/// A single alternative token considered at a given position.
#[derive(Debug)]
pub struct TopLogprob {
    /// The alternative token as decoded text.
    pub token: String,

    /// Raw UTF-8 bytes of the alternative token.
    pub bytes: Option<Vec<u8>>,

    /// Bit pattern of the `f32` natural log probability of this token.
    pub logprob: u32,
}

pub type ChatCompletionTokenLogprob = TokenLogprob;

} // verus!
