//! Decision logic of a push-to-talk voice input daemon: hotkey tracking,
//! audio buffering, request framing and response interpretation, and the
//! session state machine that ties them together.
use vstd::prelude::*;

pub mod app_core;
pub mod audio;
pub mod config;
pub mod error;
pub mod input;
pub mod json;
pub mod logging;
pub mod network;
pub mod text;

verus! {

} // verus!
