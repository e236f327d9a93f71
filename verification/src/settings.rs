//! Process-scoped launcher settings, immutable after startup.
//!
//! The outer program derives these once from its start parameters; every
//! later decision of the engine is a function of them and of the events that
//! arrive.

use vstd::prelude::*;

verus! {

/// Which keystroke-injection strategy the launcher uses.  Chosen once at
/// startup, never per call.
#[derive(Clone, Copy, Debug, PartialEq, Eq, Structural)]
pub enum BackendKind {
    /// Synthesize key events in-process.
    Direct,
    /// Shell out to an external injection helper.
    External,
}

/// The launcher's startup configuration.
#[derive(Clone, Debug, PartialEq, Eq)]
pub struct LauncherSettings {
    /// Run as a disposable popup-only process that exits after one
    /// confirm-or-dismiss cycle.
    pub single_shot: bool,
    /// Do not show the main window on startup.
    pub start_hidden: bool,
    /// Milliseconds to wait between minimizing the popup and injecting the
    /// confirmed value, so the target window can regain focus.
    pub popup_reveal_delay_ms: u64,
    /// Pacing between synthesized events for the direct backend, in that
    /// backend's native unit, on platforms that need event pacing.
    pub direct_event_delay: u64,
    /// The injection strategy.
    pub backend: BackendKind,
    /// Tuning flags passed through to the external injection helper.
    pub external_args: Vec<String>,
}

impl Default for LauncherSettings {
    /// The settings the launcher starts with when no flag says otherwise:
    /// a resident process, main window shown, a 70 ms reveal delay, direct
    /// injection paced at 12000, and the helper's stock tuning flags.
    fn default() -> (s: LauncherSettings)
        ensures
            !s.single_shot,
            !s.start_hidden,
            s.popup_reveal_delay_ms == 70,
            s.direct_event_delay == 12000,
            s.backend is Direct,
            s.external_args@.len() == 2,
            s.external_args@[0]@ == "--key-delay=8"@,
            s.external_args@[1]@ == "--key-hold=2"@,
    {
        let mut args: Vec<String> = Vec::new();
        args.push("--key-delay=8".to_owned());
        args.push("--key-hold=2".to_owned());
        LauncherSettings {
            single_shot: false,
            start_hidden: false,
            popup_reveal_delay_ms: 70,
            direct_event_delay: 12000,
            backend: BackendKind::Direct,
            external_args: args,
        }
    }
}

} // verus!
