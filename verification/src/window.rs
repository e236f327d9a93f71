//! The window lifecycle state machine.
//!
//! The launcher owns two windows, "main" and "popup", each either `Hidden` or
//! `Visible`.  Destructive events never destroy a window: a close request, or
//! a resize to zero area (some platforms' stand-in for "minimized to
//! nothing"), is translated into a hide.  In single-shot mode the same events
//! additionally schedule process termination, after the hide, so the window
//! reaches `Hidden` before the process goes away.

use vstd::prelude::*;

use crate::effect::EXIT_GRACE_MS;
use crate::effect::Effect;

verus! {

/// Which of the launcher's two windows an operation concerns.
#[derive(Clone, Copy, Debug, PartialEq, Eq, Structural)]
pub enum WindowId {
    Main,
    Popup,
}

/// The logical visibility of a window.
#[derive(Clone, Copy, Debug, PartialEq, Eq, Structural)]
pub enum Visibility {
    Hidden,
    Visible,
}

/// The visibility of both windows.
#[derive(Clone, Copy, Debug, PartialEq, Eq, Structural)]
pub struct WindowStates {
    pub main: Visibility,
    pub popup: Visibility,
}

/// The visibility of one window.
pub open spec fn spec_vis(ws: WindowStates, w: WindowId) -> Visibility {
    match w {
        WindowId::Main => ws.main,
        WindowId::Popup => ws.popup,
    }
}

/// The states after setting one window's visibility.
pub open spec fn spec_with_vis(ws: WindowStates, w: WindowId, v: Visibility) -> WindowStates {
    match w {
        WindowId::Main => WindowStates { main: v, ..ws },
        WindowId::Popup => WindowStates { popup: v, ..ws },
    }
}

/// The effects answering a close request: hide, keep the window alive, and
/// in single-shot mode terminate after the grace period.
pub open spec fn spec_close_effects(w: WindowId, single_shot: bool) -> Seq<Effect> {
    if single_shot {
        seq![
            Effect::HideWindow(w),
            Effect::PreventClose,
            Effect::ScheduleExit { grace_ms: EXIT_GRACE_MS },
        ]
    } else {
        seq![Effect::HideWindow(w), Effect::PreventClose]
    }
}

/// The effects answering a resize to zero area: as for a close request,
/// except that there is no pending close to prevent.
pub open spec fn spec_resize_zero_effects(w: WindowId, single_shot: bool) -> Seq<Effect> {
    if single_shot {
        seq![Effect::HideWindow(w), Effect::ScheduleExit { grace_ms: EXIT_GRACE_MS }]
    } else {
        seq![Effect::HideWindow(w)]
    }
}

/// Law: hiding is idempotent.  After a hide the window is `Hidden`, and
/// hiding a hidden window changes nothing.
pub proof fn lemma_hide_idempotent(ws: WindowStates, w: WindowId)
    ensures
        spec_vis(spec_with_vis(ws, w, Visibility::Hidden), w) == Visibility::Hidden,
        spec_with_vis(spec_with_vis(ws, w, Visibility::Hidden), w, Visibility::Hidden)
            == spec_with_vis(ws, w, Visibility::Hidden),
{
}

/// Law: outside single-shot mode, a close request or a zero-area resize
/// hides the window and keeps the process running: no effect it produces
/// exits or schedules an exit.
pub proof fn lemma_close_keeps_process(ws: WindowStates, w: WindowId)
    ensures
        spec_vis(spec_with_vis(ws, w, Visibility::Hidden), w) == Visibility::Hidden,
        forall|i: int|
            0 <= i < spec_close_effects(w, false).len() ==> !(spec_close_effects(w, false)[i]
                is ScheduleExit) && !(spec_close_effects(w, false)[i] is Exit),
        forall|i: int|
            0 <= i < spec_resize_zero_effects(w, false).len() ==> !(spec_resize_zero_effects(
                w,
                false,
            )[i] is ScheduleExit) && !(spec_resize_zero_effects(w, false)[i] is Exit),
{
}

/// Law: in single-shot mode, a close request or a zero-area resize first
/// hides the window and ends by scheduling process termination after the
/// grace period.
pub proof fn lemma_close_single_shot_exits(w: WindowId)
    ensures
        spec_close_effects(w, true)[0] == Effect::HideWindow(w),
        spec_close_effects(w, true).last() == (Effect::ScheduleExit { grace_ms: EXIT_GRACE_MS }),
        spec_resize_zero_effects(w, true)[0] == Effect::HideWindow(w),
        spec_resize_zero_effects(w, true).last() == (Effect::ScheduleExit {
            grace_ms: EXIT_GRACE_MS,
        }),
{
}

/// The two windows' visibility state machine, with the single-shot exit
/// policy it must apply to destructive events.
#[derive(Clone, Copy, Debug, PartialEq, Eq, Structural)]
pub struct WindowLifecycleController {
    pub windows: WindowStates,
    pub single_shot: bool,
}

impl WindowLifecycleController {
    /// A controller over two windows in the given states.
    pub fn new(main: Visibility, popup: Visibility, single_shot: bool) -> (c:
        WindowLifecycleController)
        ensures
            c.windows == (WindowStates { main, popup }),
            c.single_shot == single_shot,
    {
        WindowLifecycleController { windows: WindowStates { main, popup }, single_shot }
    }

    /// The logical visibility of a window.
    pub fn visibility(&self, w: WindowId) -> (v: Visibility)
        ensures
            v == spec_vis(self.windows, w),
    {
        match w {
            WindowId::Main => self.windows.main,
            WindowId::Popup => self.windows.popup,
        }
    }

    /// Marks a window `Visible`.
    pub fn show_window(&mut self, w: WindowId)
        ensures
            final(self).windows == spec_with_vis(old(self).windows, w, Visibility::Visible),
            final(self).single_shot == old(self).single_shot,
    {
        match w {
            WindowId::Main => self.windows.main = Visibility::Visible,
            WindowId::Popup => self.windows.popup = Visibility::Visible,
        }
    }

    /// Marks a window `Hidden`.  Idempotent: hiding a hidden window is a
    /// no-op.
    pub fn hide_window(&mut self, w: WindowId)
        ensures
            final(self).windows == spec_with_vis(old(self).windows, w, Visibility::Hidden),
            final(self).single_shot == old(self).single_shot,
    {
        match w {
            WindowId::Main => self.windows.main = Visibility::Hidden,
            WindowId::Popup => self.windows.popup = Visibility::Hidden,
        }
    }

    /// Answers a close request on `w`: the window becomes `Hidden` and is
    /// never destroyed; in single-shot mode the process is scheduled to
    /// terminate after the grace period.
    pub fn on_close_requested(&mut self, w: WindowId) -> (effects: Vec<Effect>)
        ensures
            final(self).windows == spec_with_vis(old(self).windows, w, Visibility::Hidden),
            final(self).single_shot == old(self).single_shot,
            effects@ == spec_close_effects(w, old(self).single_shot),
    {
        self.hide_window(w);
        let mut effects: Vec<Effect> = Vec::new();
        effects.push(Effect::HideWindow(w));
        effects.push(Effect::PreventClose);
        if self.single_shot {
            effects.push(Effect::ScheduleExit { grace_ms: EXIT_GRACE_MS });
        }
        proof {
            assert(effects@ =~= spec_close_effects(w, old(self).single_shot));
        }
        effects
    }

    /// Answers a resize of `w` to the given size.  A zero-area size is
    /// treated exactly like a close request (without a close to prevent);
    /// any other size changes nothing.
    pub fn on_resized(&mut self, w: WindowId, width: u32, height: u32) -> (effects: Vec<Effect>)
        ensures
            width == 0 && height == 0 ==> final(self).windows == spec_with_vis(
                old(self).windows,
                w,
                Visibility::Hidden,
            ) && effects@ == spec_resize_zero_effects(w, old(self).single_shot),
            !(width == 0 && height == 0) ==> *final(self) == *old(self) && effects@ == Seq::<
                Effect,
            >::empty(),
            final(self).single_shot == old(self).single_shot,
    {
        let mut effects: Vec<Effect> = Vec::new();
        if width == 0 && height == 0 {
            self.hide_window(w);
            effects.push(Effect::HideWindow(w));
            if self.single_shot {
                effects.push(Effect::ScheduleExit { grace_ms: EXIT_GRACE_MS });
            }
            proof {
                assert(effects@ =~= spec_resize_zero_effects(w, old(self).single_shot));
            }
        }
        effects
    }
}

} // verus!
