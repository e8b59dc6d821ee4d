//! Startup decisions of a desktop application shell: which DPI-awareness mode
//! the process declares on each platform, whether a build attaches a logging
//! plugin and at which level, and how startup ends given the run loop's result.
use vstd::prelude::*;

pub mod startup;

verus! {

} // verus!
