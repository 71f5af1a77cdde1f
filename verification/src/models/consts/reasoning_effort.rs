//! Reasoning effort level options.

use vstd::prelude::*;

verus! {

pub const NONE: &'static str = "none";
pub const MINIMAL: &'static str = "minimal";
pub const LOW: &'static str = "low";
pub const MEDIUM: &'static str = "medium";
pub const HIGH: &'static str = "high";
pub const XHIGH: &'static str = "xhigh";

} // verus!
