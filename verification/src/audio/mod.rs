//! Audio capture buffering.
use vstd::prelude::*;

pub mod recorder;

verus! {
} // verus!
