//! The actions the engine asks the outer program to carry out.
//!
//! Every decision of the library comes back as a sequence of effects, in the
//! order they must run.  The outer program performs them one by one: window
//! calls, the injection itself, timers, process exit, OS hotkey registration
//! and the config-file write.  Nothing here performs anything.

use vstd::prelude::*;

use crate::hotkey::HotkeyBinding;
use crate::injection::InjectionPlan;
use crate::window::WindowId;

verus! {

/// Milliseconds to wait before exiting in single-shot mode, so an in-flight
/// window-hide animation can finish.
pub const EXIT_GRACE_MS: u64 = 800;

/// One action for the outer program, to be run in sequence order.
#[derive(Clone, Debug, PartialEq, Eq)]
pub enum Effect {
    /// Show the window, un-minimize it and request OS input focus.
    ShowWindow(WindowId),
    /// Hide the window (never destroy it).
    HideWindow(WindowId),
    /// Minimize the window at the OS level so it releases input focus; its
    /// logical visibility does not change.
    MinimizeWindow(WindowId),
    /// Keep the OS from destroying the window whose close was requested.
    PreventClose,
    /// Run this injection now, synchronously.
    RunInjection(InjectionPlan),
    /// Run this injection on a background task after `delay_ms` milliseconds,
    /// then report back through the engine.
    ScheduleInjection { delay_ms: u64, plan: InjectionPlan },
    /// Terminate the process after `grace_ms` milliseconds.
    ScheduleExit { grace_ms: u64 },
    /// Terminate the process now.
    Exit,
    /// Release the OS-level registration of the current hotkey.
    UnregisterHotkey,
    /// Register this binding with the OS and report back whether it was
    /// accepted.
    RegisterHotkey(HotkeyBinding),
    /// Write this binding to the config file and report back whether the
    /// write succeeded.
    WriteConfig(HotkeyBinding),
}

} // verus!
