//! Message role identifiers.

use vstd::prelude::*;

verus! {

pub const DEVELOPER: &'static str = "developer";
pub const SYSTEM: &'static str = "system";
pub const USER: &'static str = "user";
pub const ASSISTANT: &'static str = "assistant";
pub const TOOL: &'static str = "tool";
pub const FUNCTION: &'static str = "function";

} // verus!
