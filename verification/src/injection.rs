//! Keystroke-injection planning.
//!
//! Confirming a value means synthesizing its characters as key events,
//! followed by a single Enter, into whatever window then holds focus.  The
//! plan for that is computed here; carrying it out (the OS input calls, or
//! spawning the helper process) is the outer program's job.  Which strategy a
//! plan uses is a pure function of the startup settings, never of the text.

use vstd::prelude::*;

use crate::settings::BackendKind;
use crate::settings::LauncherSettings;

verus! {

/// One synthesized keyboard event.  Character keys are carried as Unicode
/// scalar values.
#[derive(Clone, Copy, Debug, PartialEq, Eq, Structural)]
pub enum KeyEvent {
    /// Press of the key that types the character with this scalar value.
    KeyDown(u32),
    /// Release of the key that types the character with this scalar value.
    KeyUp(u32),
    /// The single Enter keystroke that completes an injection.
    Enter,
}

/// A ready-to-run injection: either the event sequence for in-process
/// synthesis, or the argument list for the external helper.
#[derive(Clone, Debug, PartialEq, Eq)]
pub enum InjectionPlan {
    /// Synthesize these events in-process, paced by `inter_event_delay`
    /// where the platform needs pacing.
    Direct { events: Vec<KeyEvent>, inter_event_delay: u64 },
    /// Run the external helper with these arguments.
    External { argv: Vec<String> },
}

/// The down/up event pairs that type a text, in text order: the pair for
/// the character at `j` stands at positions `2j` and `2j + 1`.
pub open spec fn spec_char_events(text: Seq<char>) -> Seq<KeyEvent> {
    Seq::new(
        2 * text.len(),
        |i: int|
            if i % 2 == 0 {
                KeyEvent::KeyDown(text[i / 2] as u32)
            } else {
                KeyEvent::KeyUp(text[i / 2] as u32)
            },
    )
}

/// The full direct-injection sequence: the text's events, then one Enter.
pub open spec fn spec_direct_events(text: Seq<char>) -> Seq<KeyEvent> {
    spec_char_events(text) + seq![KeyEvent::Enter]
}

/// Law: a direct-injection sequence types exactly the text and ends in
/// exactly one Enter event — the Enter is last, and nowhere else.
pub proof fn lemma_direct_events_single_enter(text: Seq<char>)
    ensures
        spec_direct_events(text).len() == 2 * text.len() + 1,
        spec_direct_events(text).last() == KeyEvent::Enter,
        forall|i: int| 0 <= i < 2 * text.len() ==> spec_direct_events(text)[i] != KeyEvent::Enter,
        forall|j: int|
            0 <= j < text.len() ==> spec_direct_events(text)[2 * j] == KeyEvent::KeyDown(
                text[j] as u32,
            ) && spec_direct_events(text)[2 * j + 1] == KeyEvent::KeyUp(text[j] as u32),
{
    assert forall|i: int|
        0 <= i < 2 * text.len() implies spec_direct_events(text)[i] != KeyEvent::Enter by {
        assert(spec_direct_events(text)[i] == spec_char_events(text)[i]);
    }
    assert forall|j: int|
        0 <= j < text.len() implies spec_direct_events(text)[2 * j] == KeyEvent::KeyDown(
        text[j] as u32,
    ) && spec_direct_events(text)[2 * j + 1] == KeyEvent::KeyUp(text[j] as u32) by {
        assert(spec_direct_events(text)[2 * j] == spec_char_events(text)[2 * j]);
        assert(spec_direct_events(text)[2 * j + 1] == spec_char_events(text)[2 * j + 1]);
    }
}

/// The event sequence that types `text` and confirms it with Enter.
pub fn direct_events(text: &str) -> (r: Vec<KeyEvent>)
    ensures
        r@ == spec_direct_events(text@),
{
    let n: usize = text.unicode_len();
    let mut events: Vec<KeyEvent> = Vec::new();
    let mut i: usize = 0;
    while i < n
        invariant
            n == text@.len(),
            i <= n,
            events@.len() == 2 * i,
            forall|j: int|
                0 <= j < i ==> events@[2 * j] == KeyEvent::KeyDown(text@[j] as u32) && events@[2
                    * j + 1] == KeyEvent::KeyUp(text@[j] as u32),
        decreases n - i,
    {
        let c: char = text.get_char(i);
        events.push(KeyEvent::KeyDown(c as u32));
        events.push(KeyEvent::KeyUp(c as u32));
        i = i + 1;
    }
    proof {
        assert forall|idx: int|
            0 <= idx < 2 * text@.len() implies events@[idx] == spec_char_events(text@)[idx] by {
            let j = idx / 2;
            assert(idx == 2 * j || idx == 2 * j + 1);
            assert(events@[2 * j] == KeyEvent::KeyDown(text@[j] as u32) && events@[2 * j + 1]
                == KeyEvent::KeyUp(text@[j] as u32));
        }
        assert(events@ =~= spec_char_events(text@));
    }
    events.push(KeyEvent::Enter);
    proof {
        assert(events@ =~= spec_direct_events(text@));
    }
    events
}

/// The argument list handed to the external injection helper: its `type`
/// subcommand, the text completed by a newline (the helper's Enter), then
/// the configured tuning flags in order.
pub open spec fn spec_external_argv_ok(
    argv: Seq<String>,
    text: Seq<char>,
    extra: Seq<String>,
) -> bool {
    &&& argv.len() == 2 + extra.len()
    &&& argv[0]@ == "type"@
    &&& argv[1]@ == text + "\n"@
    &&& forall|i: int| 0 <= i < extra.len() ==> argv[2 + i] == extra[i]
}

/// Builds the external helper's argument list.
pub fn external_argv(text: &str, extra: &Vec<String>) -> (argv: Vec<String>)
    ensures
        spec_external_argv_ok(argv@, text@, extra@),
{
    let mut argv: Vec<String> = Vec::new();
    argv.push("type".to_owned());
    let line: String = text.to_owned().concat("\n");
    argv.push(line);
    let mut i: usize = 0;
    while i < extra.len()
        invariant
            i <= extra@.len(),
            argv@.len() == 2 + i,
            argv@[0]@ == "type"@,
            argv@[1]@ == text@ + "\n"@,
            forall|j: int| 0 <= j < i ==> argv@[2 + j] == extra@[j],
        decreases extra@.len() - i,
    {
        argv.push(extra[i].clone());
        i = i + 1;
    }
    argv
}

/// Whether a plan is the one the settings call for on this text.
pub open spec fn spec_plan_matches(
    plan: InjectionPlan,
    settings: LauncherSettings,
    text: Seq<char>,
) -> bool {
    match plan {
        InjectionPlan::Direct { events, inter_event_delay } => {
            &&& settings.backend is Direct
            &&& events@ == spec_direct_events(text)
            &&& inter_event_delay == settings.direct_event_delay
        },
        InjectionPlan::External { argv } => {
            &&& settings.backend is External
            &&& spec_external_argv_ok(argv@, text, settings.external_args@)
        },
    }
}

/// Computes the injection plan for a confirmed text.  Which strategy runs is
/// decided by the settings alone: a `Direct` configuration never yields a
/// helper invocation, and an `External` configuration never yields in-process
/// events.
pub fn build_plan(settings: &LauncherSettings, text: &str) -> (plan: InjectionPlan)
    ensures
        spec_plan_matches(plan, *settings, text@),
        plan is Direct <==> settings.backend is Direct,
        plan is External <==> settings.backend is External,
{
    match settings.backend {
        BackendKind::Direct => InjectionPlan::Direct {
            events: direct_events(text),
            inter_event_delay: settings.direct_event_delay,
        },
        BackendKind::External => InjectionPlan::External {
            argv: external_argv(text, &settings.external_args),
        },
    }
}

} // verus!
