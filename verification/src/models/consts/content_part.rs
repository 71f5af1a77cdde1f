//! Content part type identifiers.

use vstd::prelude::*;

verus! {

pub const TEXT: &'static str = "text";
pub const IMAGE_URL: &'static str = "image_url";
pub const AUDIO: &'static str = "input_audio";
pub const FILE: &'static str = "file";
pub const REFUSAL: &'static str = "refusal";

} // verus!
