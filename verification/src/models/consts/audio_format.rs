//! Audio format identifiers.

use vstd::prelude::*;

verus! {

pub const MP3: &'static str = "mp3";
pub const WAV: &'static str = "wav";

} // verus!
