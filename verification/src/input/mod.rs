//! Hotkey and paste-shortcut handling.
use vstd::prelude::*;

pub mod evdev_hook;
pub mod uinput_sim;

verus! {

/// What the hotkey tracker reports to the session.
#[derive(Debug, Clone, Copy, PartialEq, Eq, Structural)]
pub enum InputEvent {
    DirectModePressed,
    DirectModeReleased,
    TranslateModePressed,
    TranslateModeReleased,
    MouseLeftClicked,
}

} // verus!
