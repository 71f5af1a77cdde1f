//! Image detail level options.

use vstd::prelude::*;

verus! {

pub const AUTO: &'static str = "auto";
pub const LOW: &'static str = "low";
pub const HIGH: &'static str = "high";

} // verus!
