use quicklaunch::effect::EXIT_GRACE_MS;
use quicklaunch::effect::Effect;
use quicklaunch::engine::LauncherEngine;
use quicklaunch::engine::RebindError;
use quicklaunch::engine::TrayItem;
use quicklaunch::hotkey::HotkeyBinding;
use quicklaunch::hotkey::KeyCode;
use quicklaunch::hotkey::Modifiers;
use quicklaunch::hotkey::default_binding;
use quicklaunch::injection::InjectionPlan;
use quicklaunch::injection::direct_events;
use quicklaunch::settings::BackendKind;
use quicklaunch::settings::LauncherSettings;
use quicklaunch::window::Visibility;
use quicklaunch::window::WindowId;

fn settings(single_shot: bool, start_hidden: bool, delay: u64) -> LauncherSettings {
    LauncherSettings {
        single_shot,
        start_hidden,
        popup_reveal_delay_ms: delay,
        ..LauncherSettings::default()
    }
}

fn engine(single_shot: bool, start_hidden: bool, delay: u64) -> LauncherEngine {
    LauncherEngine::new(settings(single_shot, start_hidden, delay), default_binding()).0
}

#[test]
fn startup_shows_main_window_and_registers_hotkey() {
    let (e, effects) = LauncherEngine::new(settings(false, false, 70), default_binding());
    assert_eq!(
        effects,
        vec![
            Effect::ShowWindow(WindowId::Main),
            Effect::RegisterHotkey(default_binding()),
        ]
    );
    assert_eq!(e.windows.visibility(WindowId::Main), Visibility::Visible);
    assert_eq!(e.windows.visibility(WindowId::Popup), Visibility::Hidden);
}

#[test]
fn startup_hidden_only_registers_hotkey() {
    let (e, effects) = LauncherEngine::new(settings(false, true, 70), default_binding());
    assert_eq!(effects, vec![Effect::RegisterHotkey(default_binding())]);
    assert_eq!(e.windows.visibility(WindowId::Main), Visibility::Hidden);
    assert_eq!(e.windows.visibility(WindowId::Popup), Visibility::Hidden);
}

#[test]
fn startup_single_shot_hides_main_and_shows_popup_first() {
    let (e, effects) = LauncherEngine::new(settings(true, false, 70), default_binding());
    assert_eq!(
        effects,
        vec![Effect::HideWindow(WindowId::Main), Effect::ShowWindow(WindowId::Popup)]
    );
    assert_eq!(e.windows.visibility(WindowId::Main), Visibility::Hidden);
    assert_eq!(e.windows.visibility(WindowId::Popup), Visibility::Visible);
}

#[test]
fn startup_registration_refusal_is_fatal() {
    let (e, _effects) = LauncherEngine::new(settings(false, false, 70), default_binding());
    assert_eq!(e.on_startup_registration_result(true), vec![]);
    assert_eq!(e.on_startup_registration_result(false), vec![Effect::Exit]);
}

#[test]
fn hotkey_trigger_shows_popup() {
    let mut e = engine(false, false, 70);
    let effects = e.on_hotkey_triggered();
    assert_eq!(effects, vec![Effect::ShowWindow(WindowId::Popup)]);
    assert_eq!(e.windows.visibility(WindowId::Popup), Visibility::Visible);
}

#[test]
fn confirm_without_delay_minimizes_injects_then_hides() {
    let mut e = engine(false, false, 0);
    e.on_hotkey_triggered();
    let effects = e.on_value_confirmed("example.com");
    assert_eq!(effects.len(), 3);
    assert_eq!(effects[0], Effect::MinimizeWindow(WindowId::Popup));
    match &effects[1] {
        Effect::RunInjection(InjectionPlan::Direct { events, .. }) => {
            assert_eq!(*events, direct_events("example.com"));
        },
        other => panic!("expected an immediate direct injection, got {:?}", other),
    }
    assert_eq!(effects[2], Effect::HideWindow(WindowId::Popup));
    assert_eq!(e.windows.visibility(WindowId::Popup), Visibility::Hidden);
}

#[test]
fn confirm_with_delay_defers_injection_and_minimizes_first() {
    let mut e = engine(false, false, 70);
    e.on_hotkey_triggered();
    let effects = e.on_value_confirmed("example.com");
    assert_eq!(effects.len(), 2);
    assert_eq!(effects[0], Effect::MinimizeWindow(WindowId::Popup));
    match &effects[1] {
        Effect::ScheduleInjection { delay_ms, plan: InjectionPlan::Direct { events, .. } } => {
            assert_eq!(*delay_ms, 70);
            assert_eq!(*events, direct_events("example.com"));
        },
        other => panic!("expected a deferred direct injection, got {:?}", other),
    }
    // the popup hides only once the deferred injection has run
    assert_eq!(e.windows.visibility(WindowId::Popup), Visibility::Visible);
    let effects = e.on_injection_finished();
    assert_eq!(effects, vec![Effect::HideWindow(WindowId::Popup)]);
    assert_eq!(e.windows.visibility(WindowId::Popup), Visibility::Hidden);
}

#[test]
fn confirm_in_single_shot_schedules_exit_after_injection() {
    let mut e = engine(true, false, 0);
    let effects = e.on_value_confirmed("example.com");
    assert_eq!(effects.len(), 4);
    assert_eq!(effects[3], Effect::ScheduleExit { grace_ms: EXIT_GRACE_MS });

    let mut e = engine(true, false, 70);
    e.on_value_confirmed("example.com");
    let effects = e.on_injection_finished();
    assert_eq!(
        effects,
        vec![
            Effect::HideWindow(WindowId::Popup),
            Effect::ScheduleExit { grace_ms: EXIT_GRACE_MS },
        ]
    );
}

#[test]
fn tray_items_map_to_window_operations() {
    let mut e = engine(false, false, 70);
    assert_eq!(e.on_tray_selected(TrayItem::Quit), vec![Effect::Exit]);
    assert_eq!(
        e.on_tray_selected(TrayItem::HideMain),
        vec![Effect::HideWindow(WindowId::Main)]
    );
    assert_eq!(e.windows.visibility(WindowId::Main), Visibility::Hidden);
    assert_eq!(
        e.on_tray_selected(TrayItem::ShowMain),
        vec![Effect::ShowWindow(WindowId::Main)]
    );
    assert_eq!(e.windows.visibility(WindowId::Main), Visibility::Visible);
    assert_eq!(
        e.on_tray_selected(TrayItem::HidePopup),
        vec![Effect::HideWindow(WindowId::Popup)]
    );
}

#[test]
fn rebind_commits_only_after_registration_and_persist() {
    let mut e = engine(false, false, 70);
    let old = e.current_binding();
    let effects = e.begin_rebind(3, b"KeyQ").expect("recognized binding");
    let candidate = HotkeyBinding {
        modifiers: Modifiers { alt: true, ctrl: true, meta: false, shift: false },
        code: KeyCode::KeyQ,
    };
    assert_eq!(
        effects,
        vec![Effect::UnregisterHotkey, Effect::RegisterHotkey(candidate)]
    );
    // nothing committed yet
    assert_eq!(e.current_binding(), old);

    let (effects, r) = e.on_registration_result(true);
    assert_eq!(effects, vec![Effect::WriteConfig(candidate)]);
    assert!(r.is_ok());
    assert_eq!(e.current_binding(), old);

    let (effects, r) = e.on_persist_result(true);
    assert_eq!(effects, vec![]);
    assert!(r.is_ok());
    assert_eq!(e.current_binding(), candidate);
    assert_eq!(e.persisted, candidate);
}

#[test]
fn rebind_conflict_keeps_prior_binding_in_memory_and_on_disk() {
    let mut e = engine(false, false, 70);
    let old = e.current_binding();
    let persisted_before = e.persisted;
    e.begin_rebind(3, b"KeyQ").expect("recognized binding");
    let (effects, r) = e.on_registration_result(false);
    assert_eq!(r, Err(RebindError::HotkeyConflict));
    assert_eq!(effects, vec![Effect::RegisterHotkey(old)]);
    assert_eq!(e.current_binding(), old);
    assert_eq!(e.persisted, persisted_before);
}

#[test]
fn rebind_write_failure_rolls_back_registration() {
    let mut e = engine(false, false, 70);
    let old = e.current_binding();
    e.begin_rebind(3, b"KeyQ").expect("recognized binding");
    e.on_registration_result(true).1.expect("registration accepted");
    let (effects, r) = e.on_persist_result(false);
    assert_eq!(r, Err(RebindError::ConfigWriteFailed));
    assert_eq!(
        effects,
        vec![Effect::UnregisterHotkey, Effect::RegisterHotkey(old)]
    );
    assert_eq!(e.current_binding(), old);
    assert_eq!(e.persisted, old);
}

#[test]
fn rebind_rejects_unknown_inputs() {
    let mut e = engine(false, false, 70);
    let old = e.current_binding();
    assert_eq!(e.begin_rebind(16, b"KeyQ"), Err(RebindError::UnknownModifierBits));
    assert_eq!(e.begin_rebind(3, b"NoSuchKey"), Err(RebindError::UnknownKeyCode));
    assert_eq!(e.current_binding(), old);
}

#[test]
fn close_events_reach_the_controller_unchanged() {
    // a close request on either window, outside single-shot mode, hides it
    // and the engine state says the process keeps running
    let mut e = engine(false, false, 70);
    e.on_hotkey_triggered();
    let effects = e.windows.on_close_requested(WindowId::Popup);
    assert_eq!(effects, vec![Effect::HideWindow(WindowId::Popup), Effect::PreventClose]);
    assert_eq!(e.windows.visibility(WindowId::Popup), Visibility::Hidden);
}

#[test]
fn confirm_empty_text_still_types_enter() {
    let mut e = engine(false, false, 0);
    let effects = e.on_value_confirmed("");
    match &effects[1] {
        Effect::RunInjection(InjectionPlan::Direct { events, .. }) => {
            assert_eq!(*events, direct_events(""));
        },
        other => panic!("expected an immediate direct injection, got {:?}", other),
    }
}

#[test]
fn zero_resize_in_single_shot_schedules_exit() {
    let mut e = engine(true, false, 70);
    let effects = e.windows.on_resized(WindowId::Popup, 0, 0);
    assert_eq!(
        effects,
        vec![
            Effect::HideWindow(WindowId::Popup),
            Effect::ScheduleExit { grace_ms: EXIT_GRACE_MS },
        ]
    );
    assert_eq!(e.windows.visibility(WindowId::Popup), Visibility::Hidden);
}

#[test]
fn rebind_accepts_the_whole_key_vocabulary() {
    let mut e = engine(false, false, 70);
    let effects = e.begin_rebind(9, b"F5").expect("F5 is a recognized key");
    let candidate = HotkeyBinding {
        modifiers: Modifiers { alt: true, ctrl: false, meta: false, shift: true },
        code: KeyCode::F5,
    };
    assert_eq!(
        effects,
        vec![Effect::UnregisterHotkey, Effect::RegisterHotkey(candidate)]
    );
    e.on_registration_result(true).1.expect("registration accepted");
    e.on_persist_result(true).1.expect("persisted");
    assert_eq!(e.current_binding(), candidate);
}
