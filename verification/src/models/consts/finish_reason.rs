//! Finish reason values returned in completion choices.

use vstd::prelude::*;

verus! {

pub const STOP: &'static str = "stop";
pub const LENGTH: &'static str = "length";
pub const TOOL_CALLS: &'static str = "tool_calls";
pub const CONTENT_FILTER: &'static str = "content_filter";
pub const FUNCTION_CALL: &'static str = "function_call";

} // verus!
