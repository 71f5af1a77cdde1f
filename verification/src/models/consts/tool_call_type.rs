//! Tool call type identifiers.

use vstd::prelude::*;

verus! {

pub const FUNCTION: &'static str = "function";
pub const CUSTOM: &'static str = "custom";

} // verus!
