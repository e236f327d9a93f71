//! The launcher engine: orchestration of hotkey, windows, injection and the
//! persisted configuration.
//!
//! The engine is the single mutable state of the launcher.  Each event
//! handler takes an event, updates the state, and returns the effects the
//! outer program must carry out, in order.  Where a step needs the outside
//! world's verdict (did the OS accept the hotkey? did the config write
//! succeed?), the handler returns the request as an effect and a later call
//! hands the verdict back; the rebind transaction is such a three-step
//! exchange, built so that a failure at any step leaves the previous binding
//! active and persisted.

use vstd::prelude::*;

use crate::effect::EXIT_GRACE_MS;
use crate::effect::Effect;
use crate::hotkey::HotkeyBinding;
use crate::hotkey::KeyCode;
use crate::hotkey::Modifiers;
use crate::hotkey::spec_key_name;
use crate::hotkey::spec_modifier_bits;
use crate::injection::build_plan;
use crate::injection::spec_plan_matches;
use crate::settings::LauncherSettings;
use crate::window::Visibility;
use crate::window::WindowId;
use crate::window::WindowLifecycleController;
use crate::window::WindowStates;
use crate::window::spec_with_vis;

verus! {

/// Why a rebind request was refused.
#[derive(Clone, Copy, Debug, PartialEq, Eq, Structural)]
pub enum RebindError {
    /// The modifier bitmask holds a bit the launcher does not recognize.
    UnknownModifierBits,
    /// The key name is not a recognized key identifier.
    UnknownKeyCode,
    /// The OS refused the registration: the combination is taken.
    HotkeyConflict,
    /// The config file could not be written; the binding was not applied.
    ConfigWriteFailed,
}

/// Where a rebind transaction stands.
#[derive(Clone, Copy, Debug, PartialEq, Eq, Structural)]
pub enum RebindPhase {
    /// No rebind under way.
    Idle,
    /// The candidate was handed out for OS registration; the old binding is
    /// unregistered, the new one not yet confirmed.
    AwaitingRegistration { candidate: HotkeyBinding },
    /// The OS accepted the candidate; the config write is under way.
    AwaitingPersist { candidate: HotkeyBinding },
}

/// One item of the system tray menu.
#[derive(Clone, Copy, Debug, PartialEq, Eq, Structural)]
pub enum TrayItem {
    Quit,
    HideMain,
    ShowMain,
    HidePopup,
}

/// The initial window visibility: the main window shows unless single-shot
/// mode or the start-hidden flag says otherwise; the popup shows only in
/// single-shot mode.
pub open spec fn spec_initial_windows(s: LauncherSettings) -> WindowStates {
    if s.single_shot {
        WindowStates { main: Visibility::Hidden, popup: Visibility::Visible }
    } else if s.start_hidden {
        WindowStates { main: Visibility::Hidden, popup: Visibility::Hidden }
    } else {
        WindowStates { main: Visibility::Visible, popup: Visibility::Hidden }
    }
}

/// The effects that bring freshly created (hidden) windows into the initial
/// visibility and, outside single-shot mode, register the hotkey with the
/// OS.  A single-shot process is a disposable popup: it registers nothing.
pub open spec fn spec_startup_effects(s: LauncherSettings, binding: HotkeyBinding) -> Seq<
    Effect,
> {
    if s.single_shot {
        seq![Effect::HideWindow(WindowId::Main), Effect::ShowWindow(WindowId::Popup)]
    } else if s.start_hidden {
        seq![Effect::RegisterHotkey(binding)]
    } else {
        seq![Effect::ShowWindow(WindowId::Main), Effect::RegisterHotkey(binding)]
    }
}

/// What confirming a value produces: the popup is minimized first, so focus
/// leaves it before any key event; with a reveal delay the injection is
/// deferred by exactly that delay (and the hide follows the injection, later);
/// without one the injection runs at once, the popup hides, and in
/// single-shot mode the process exit is scheduled.
pub open spec fn spec_confirm_effects(
    s: LauncherSettings,
    text: Seq<char>,
    effects: Seq<Effect>,
) -> bool {
    if s.popup_reveal_delay_ms > 0 {
        &&& effects.len() == 2
        &&& effects[0] == Effect::MinimizeWindow(WindowId::Popup)
        &&& effects[1] matches Effect::ScheduleInjection { delay_ms, plan } && delay_ms
            == s.popup_reveal_delay_ms && spec_plan_matches(plan, s, text)
    } else {
        &&& effects.len() == (if s.single_shot {
            4int
        } else {
            3int
        })
        &&& effects[0] == Effect::MinimizeWindow(WindowId::Popup)
        &&& effects[1] matches Effect::RunInjection(plan) && spec_plan_matches(plan, s, text)
        &&& effects[2] == Effect::HideWindow(WindowId::Popup)
        &&& s.single_shot ==> effects[3] == (Effect::ScheduleExit { grace_ms: EXIT_GRACE_MS })
    }
}

/// The effects that finish an injection cycle: hide the popup, and in
/// single-shot mode schedule the process exit.
pub open spec fn spec_injection_finished_effects(single_shot: bool) -> Seq<Effect> {
    if single_shot {
        seq![
            Effect::HideWindow(WindowId::Popup),
            Effect::ScheduleExit { grace_ms: EXIT_GRACE_MS },
        ]
    } else {
        seq![Effect::HideWindow(WindowId::Popup)]
    }
}

/// The launcher's state: the immutable settings, the window state machine,
/// the binding registered with the OS, a model of the binding the config
/// file holds, and the rebind transaction phase.
pub struct LauncherEngine {
    /// Startup configuration, read-only for the process lifetime.
    pub settings: LauncherSettings,
    /// The two windows' visibility state machine.
    pub windows: WindowLifecycleController,
    /// The binding currently active: registered with the OS and reported by
    /// [`LauncherEngine::current_binding`].
    pub active: HotkeyBinding,
    /// The binding the config file holds, as last confirmed by the outer
    /// program; updated only when a write is confirmed.
    pub persisted: HotkeyBinding,
    /// Where the rebind transaction stands.
    pub rebind: RebindPhase,
}

impl LauncherEngine {
    /// A launcher engine over the given settings and the loaded binding,
    /// together with the effects that realize the initial window visibility.
    /// In single-shot mode the very first actions hide the main window and
    /// show the popup: the process acts as a disposable popup.
    pub fn new(settings: LauncherSettings, binding: HotkeyBinding) -> (r: (
        LauncherEngine,
        Vec<Effect>,
    ))
        ensures
            r.0.settings == settings,
            r.0.active == binding,
            r.0.persisted == binding,
            r.0.rebind is Idle,
            r.0.windows.single_shot == settings.single_shot,
            r.0.windows.windows == spec_initial_windows(settings),
            r.1@ == spec_startup_effects(settings, binding),
    {
        let single_shot = settings.single_shot;
        let start_hidden = settings.start_hidden;
        let mut windows = WindowLifecycleController::new(
            Visibility::Hidden,
            Visibility::Hidden,
            single_shot,
        );
        let mut effects: Vec<Effect> = Vec::new();
        if single_shot {
            windows.hide_window(WindowId::Main);
            windows.show_window(WindowId::Popup);
            effects.push(Effect::HideWindow(WindowId::Main));
            effects.push(Effect::ShowWindow(WindowId::Popup));
        } else {
            if !start_hidden {
                windows.show_window(WindowId::Main);
                effects.push(Effect::ShowWindow(WindowId::Main));
            }
            effects.push(Effect::RegisterHotkey(binding));
        }
        proof {
            assert(windows.windows == spec_initial_windows(settings));
            assert(effects@ =~= spec_startup_effects(settings, binding));
        }
        let engine = LauncherEngine {
            settings,
            windows,
            active: binding,
            persisted: binding,
            rebind: RebindPhase::Idle,
        };
        (engine, effects)
    }

    /// Answers the OS's verdict on the startup hotkey registration.  Without
    /// a working hotkey the launcher cannot provide its core function, so a
    /// refusal at startup is fatal: the process terminates.
    pub fn on_startup_registration_result(&self, registered: bool) -> (effects: Vec<Effect>)
        ensures
            registered ==> effects@ == Seq::<Effect>::empty(),
            !registered ==> effects@ == seq![Effect::Exit],
    {
        let mut effects: Vec<Effect> = Vec::new();
        if !registered {
            effects.push(Effect::Exit);
            proof {
                assert(effects@ =~= seq![Effect::Exit]);
            }
        }
        effects
    }

    /// The binding currently active, as the `getConfig` command reports it.
    pub fn current_binding(&self) -> (b: HotkeyBinding)
        ensures
            b == self.active,
    {
        self.active
    }

    /// Answers the global hotkey firing: show and focus the popup.  No
    /// debouncing: every delivered trigger shows the popup again.
    pub fn on_hotkey_triggered(&mut self) -> (effects: Vec<Effect>)
        ensures
            final(self).windows.windows == spec_with_vis(
                old(self).windows.windows,
                WindowId::Popup,
                Visibility::Visible,
            ),
            final(self).windows.single_shot == old(self).windows.single_shot,
            final(self).settings == old(self).settings,
            final(self).active == old(self).active,
            final(self).persisted == old(self).persisted,
            final(self).rebind == old(self).rebind,
            effects@ == seq![Effect::ShowWindow(WindowId::Popup)],
    {
        self.windows.show_window(WindowId::Popup);
        let mut effects: Vec<Effect> = Vec::new();
        effects.push(Effect::ShowWindow(WindowId::Popup));
        proof {
            assert(effects@ =~= seq![Effect::ShowWindow(WindowId::Popup)]);
        }
        effects
    }

    /// Answers the popup's `selected` command: the user confirmed `text`.
    /// The popup is minimized before anything else so focus returns to the
    /// target window; then the injection runs — deferred by the reveal delay
    /// where one is set, at once otherwise.  Only the immediate path hides
    /// the popup here; the deferred path hides it when the outer program
    /// reports the injection finished.
    pub fn on_value_confirmed(&mut self, text: &str) -> (effects: Vec<Effect>)
        ensures
            spec_confirm_effects(old(self).settings, text@, effects@),
            final(self).settings == old(self).settings,
            final(self).active == old(self).active,
            final(self).persisted == old(self).persisted,
            final(self).rebind == old(self).rebind,
            final(self).windows.single_shot == old(self).windows.single_shot,
            old(self).settings.popup_reveal_delay_ms > 0 ==> final(self).windows
                == old(self).windows,
            old(self).settings.popup_reveal_delay_ms == 0 ==> final(self).windows.windows
                == spec_with_vis(old(self).windows.windows, WindowId::Popup, Visibility::Hidden),
    {
        let mut effects: Vec<Effect> = Vec::new();
        effects.push(Effect::MinimizeWindow(WindowId::Popup));
        let plan = build_plan(&self.settings, text);
        if self.settings.popup_reveal_delay_ms > 0 {
            effects.push(
                Effect::ScheduleInjection {
                    delay_ms: self.settings.popup_reveal_delay_ms,
                    plan,
                },
            );
        } else {
            effects.push(Effect::RunInjection(plan));
            self.windows.hide_window(WindowId::Popup);
            effects.push(Effect::HideWindow(WindowId::Popup));
            if self.settings.single_shot {
                effects.push(Effect::ScheduleExit { grace_ms: EXIT_GRACE_MS });
            }
        }
        effects
    }

    /// Answers the outer program's report that a deferred injection ran
    /// (successfully or not): hide the popup, and in single-shot mode
    /// schedule the process exit after the grace period.
    pub fn on_injection_finished(&mut self) -> (effects: Vec<Effect>)
        ensures
            final(self).windows.windows == spec_with_vis(
                old(self).windows.windows,
                WindowId::Popup,
                Visibility::Hidden,
            ),
            final(self).windows.single_shot == old(self).windows.single_shot,
            final(self).settings == old(self).settings,
            final(self).active == old(self).active,
            final(self).persisted == old(self).persisted,
            final(self).rebind == old(self).rebind,
            effects@ == spec_injection_finished_effects(old(self).settings.single_shot),
    {
        self.windows.hide_window(WindowId::Popup);
        let mut effects: Vec<Effect> = Vec::new();
        effects.push(Effect::HideWindow(WindowId::Popup));
        if self.settings.single_shot {
            effects.push(Effect::ScheduleExit { grace_ms: EXIT_GRACE_MS });
        }
        proof {
            assert(effects@ =~= spec_injection_finished_effects(old(self).settings.single_shot));
        }
        effects
    }

    /// Answers a tray menu click: each item maps directly to one window
    /// operation or to process termination.
    pub fn on_tray_selected(&mut self, item: TrayItem) -> (effects: Vec<Effect>)
        ensures
            final(self).settings == old(self).settings,
            final(self).active == old(self).active,
            final(self).persisted == old(self).persisted,
            final(self).rebind == old(self).rebind,
            final(self).windows.single_shot == old(self).windows.single_shot,
            item is Quit ==> final(self).windows == old(self).windows && effects@ == seq![
                Effect::Exit,
            ],
            item is HideMain ==> final(self).windows.windows == spec_with_vis(
                old(self).windows.windows,
                WindowId::Main,
                Visibility::Hidden,
            ) && effects@ == seq![Effect::HideWindow(WindowId::Main)],
            item is ShowMain ==> final(self).windows.windows == spec_with_vis(
                old(self).windows.windows,
                WindowId::Main,
                Visibility::Visible,
            ) && effects@ == seq![Effect::ShowWindow(WindowId::Main)],
            item is HidePopup ==> final(self).windows.windows == spec_with_vis(
                old(self).windows.windows,
                WindowId::Popup,
                Visibility::Hidden,
            ) && effects@ == seq![Effect::HideWindow(WindowId::Popup)],
    {
        let mut effects: Vec<Effect> = Vec::new();
        match item {
            TrayItem::Quit => {
                effects.push(Effect::Exit);
                proof {
                    assert(effects@ =~= seq![Effect::Exit]);
                }
            },
            TrayItem::HideMain => {
                self.windows.hide_window(WindowId::Main);
                effects.push(Effect::HideWindow(WindowId::Main));
                proof {
                    assert(effects@ =~= seq![Effect::HideWindow(WindowId::Main)]);
                }
            },
            TrayItem::ShowMain => {
                self.windows.show_window(WindowId::Main);
                effects.push(Effect::ShowWindow(WindowId::Main));
                proof {
                    assert(effects@ =~= seq![Effect::ShowWindow(WindowId::Main)]);
                }
            },
            TrayItem::HidePopup => {
                self.windows.hide_window(WindowId::Popup);
                effects.push(Effect::HideWindow(WindowId::Popup));
                proof {
                    assert(effects@ =~= seq![Effect::HideWindow(WindowId::Popup)]);
                }
            },
        }
        effects
    }

    /// Answers the popup's `setHotkey` command: starts a rebind to the
    /// given modifier bitmask and key name.  An unrecognized bitmask or key
    /// name is refused and nothing changes.  On a recognized pair the old
    /// binding is released and the candidate handed to the OS; the outcome
    /// comes back through [`LauncherEngine::on_registration_result`].  The
    /// active and persisted bindings do not change here.
    pub fn begin_rebind(&mut self, modifier_bits: u32, code_name: &[u8]) -> (r: Result<
        Vec<Effect>,
        RebindError,
    >)
        requires
            old(self).rebind is Idle,
        ensures
            final(self).settings == old(self).settings,
            final(self).windows == old(self).windows,
            final(self).active == old(self).active,
            final(self).persisted == old(self).persisted,
            r matches Ok(effects) ==> ({
                &&& final(self).rebind matches RebindPhase::AwaitingRegistration { candidate }
                &&& spec_modifier_bits(candidate.modifiers) == modifier_bits
                &&& spec_key_name(candidate.code) == code_name@
                &&& effects@ == seq![
                    Effect::UnregisterHotkey,
                    Effect::RegisterHotkey(candidate),
                ]
            }),
            r matches Err(e) ==> final(self).rebind is Idle && ((e
                == RebindError::UnknownModifierBits && modifier_bits >= 16) || (e
                == RebindError::UnknownKeyCode && modifier_bits < 16 && (forall|k: KeyCode|
                spec_key_name(k) != code_name@))),
            modifier_bits < 16 && (exists|k: KeyCode| spec_key_name(k) == code_name@) ==> r is Ok,
    {
        let modifiers = match Modifiers::from_bits(modifier_bits) {
            Some(m) => m,
            None => {
                return Err(RebindError::UnknownModifierBits);
            },
        };
        let code = match KeyCode::parse_name(code_name) {
            Some(c) => c,
            None => {
                return Err(RebindError::UnknownKeyCode);
            },
        };
        let candidate = HotkeyBinding { modifiers, code };
        self.rebind = RebindPhase::AwaitingRegistration { candidate };
        let mut effects: Vec<Effect> = Vec::new();
        effects.push(Effect::UnregisterHotkey);
        effects.push(Effect::RegisterHotkey(candidate));
        proof {
            assert(effects@ =~= seq![
                Effect::UnregisterHotkey,
                Effect::RegisterHotkey(candidate),
            ]);
        }
        Ok(effects)
    }

    /// Answers the OS's verdict on the candidate registration.  Acceptance
    /// moves the transaction on to persisting the candidate.  Refusal is a
    /// `HotkeyConflict`: the old binding is re-registered and stays both
    /// active and persisted — the rebind changes nothing.
    pub fn on_registration_result(&mut self, registered: bool) -> (r: (
        Vec<Effect>,
        Result<(), RebindError>,
    ))
        requires
            old(self).rebind is AwaitingRegistration,
        ensures
            final(self).settings == old(self).settings,
            final(self).windows == old(self).windows,
            final(self).active == old(self).active,
            final(self).persisted == old(self).persisted,
            registered ==> ({
                &&& final(self).rebind == (RebindPhase::AwaitingPersist {
                    candidate: old(self).rebind->AwaitingRegistration_candidate,
                })
                &&& r.0@ == seq![
                    Effect::WriteConfig(old(self).rebind->AwaitingRegistration_candidate),
                ]
                &&& r.1 is Ok
            }),
            !registered ==> ({
                &&& final(self).rebind is Idle
                &&& r.0@ == seq![Effect::RegisterHotkey(old(self).active)]
                &&& r.1 == Err::<(), RebindError>(RebindError::HotkeyConflict)
            }),
    {
        let candidate = match self.rebind {
            RebindPhase::AwaitingRegistration { candidate } => candidate,
            _ => {
                proof {
                    assert(false);
                }
                self.active
            },
        };
        let mut effects: Vec<Effect> = Vec::new();
        if registered {
            self.rebind = RebindPhase::AwaitingPersist { candidate };
            effects.push(Effect::WriteConfig(candidate));
            proof {
                assert(effects@ =~= seq![Effect::WriteConfig(candidate)]);
            }
            (effects, Ok(()))
        } else {
            self.rebind = RebindPhase::Idle;
            effects.push(Effect::RegisterHotkey(self.active));
            proof {
                assert(effects@ =~= seq![Effect::RegisterHotkey(old(self).active)]);
            }
            (effects, Err(RebindError::HotkeyConflict))
        }
    }

    /// Answers the outer program's verdict on the config write.  Success
    /// commits the candidate: it becomes the active and the persisted
    /// binding.  Failure is a `ConfigWriteFailed`: the candidate's OS
    /// registration is rolled back, the old binding re-registered, and both
    /// the active and the persisted binding stay what they were.
    pub fn on_persist_result(&mut self, saved: bool) -> (r: (
        Vec<Effect>,
        Result<(), RebindError>,
    ))
        requires
            old(self).rebind is AwaitingPersist,
        ensures
            final(self).settings == old(self).settings,
            final(self).windows == old(self).windows,
            final(self).rebind is Idle,
            saved ==> ({
                &&& final(self).active == old(self).rebind->AwaitingPersist_candidate
                &&& final(self).persisted == old(self).rebind->AwaitingPersist_candidate
                &&& r.0@ == Seq::<Effect>::empty()
                &&& r.1 is Ok
            }),
            !saved ==> ({
                &&& final(self).active == old(self).active
                &&& final(self).persisted == old(self).persisted
                &&& r.0@ == seq![
                    Effect::UnregisterHotkey,
                    Effect::RegisterHotkey(old(self).active),
                ]
                &&& r.1 == Err::<(), RebindError>(RebindError::ConfigWriteFailed)
            }),
    {
        let candidate = match self.rebind {
            RebindPhase::AwaitingPersist { candidate } => candidate,
            _ => {
                proof {
                    assert(false);
                }
                self.active
            },
        };
        self.rebind = RebindPhase::Idle;
        let mut effects: Vec<Effect> = Vec::new();
        if saved {
            self.active = candidate;
            self.persisted = candidate;
            (effects, Ok(()))
        } else {
            effects.push(Effect::UnregisterHotkey);
            effects.push(Effect::RegisterHotkey(self.active));
            proof {
                assert(effects@ =~= seq![
                    Effect::UnregisterHotkey,
                    Effect::RegisterHotkey(old(self).active),
                ]);
            }
            (effects, Err(RebindError::ConfigWriteFailed))
        }
    }
}

} // verus!
