//! Core engine of a hotkey-driven quick launcher: the hotkey binding and its
//! persisted configuration, the popup/main window lifecycle state machine,
//! keystroke-injection planning, and the orchestration that ties them together.
//!
//! The library is pure: every operation is a function from state and event to
//! new state and a sequence of [`effect::Effect`] values that a thin outer
//! program carries out (showing windows, sleeping, spawning the injection
//! helper, writing the config file).

pub mod config;
pub mod effect;
pub mod engine;
pub mod hotkey;
pub mod injection;
pub mod settings;
pub mod window;

use vstd::prelude::*;

verus! {

} // verus!
