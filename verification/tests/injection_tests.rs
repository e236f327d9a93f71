use quicklaunch::injection::InjectionPlan;
use quicklaunch::injection::KeyEvent;
use quicklaunch::injection::build_plan;
use quicklaunch::injection::direct_events;
use quicklaunch::injection::external_argv;
use quicklaunch::settings::BackendKind;
use quicklaunch::settings::LauncherSettings;

fn direct_settings() -> LauncherSettings {
    LauncherSettings { backend: BackendKind::Direct, ..LauncherSettings::default() }
}

fn external_settings() -> LauncherSettings {
    LauncherSettings { backend: BackendKind::External, ..LauncherSettings::default() }
}

#[test]
fn direct_events_type_text_then_enter() {
    let events = direct_events("ab");
    assert_eq!(
        events,
        vec![
            KeyEvent::KeyDown('a' as u32),
            KeyEvent::KeyUp('a' as u32),
            KeyEvent::KeyDown('b' as u32),
            KeyEvent::KeyUp('b' as u32),
            KeyEvent::Enter,
        ]
    );
}

#[test]
fn direct_events_empty_text_is_just_enter() {
    assert_eq!(direct_events(""), vec![KeyEvent::Enter]);
}

#[test]
fn direct_events_has_exactly_one_enter() {
    let events = direct_events("example.com");
    let enters = events.iter().filter(|e| matches!(e, KeyEvent::Enter)).count();
    assert_eq!(enters, 1);
    assert_eq!(events.last(), Some(&KeyEvent::Enter));
    assert_eq!(events.len(), 2 * "example.com".len() + 1);
}

#[test]
fn external_argv_is_type_text_newline_then_flags() {
    let extra = vec!["--key-delay=8".to_string(), "--key-hold=2".to_string()];
    let argv = external_argv("example.com", &extra);
    assert_eq!(
        argv,
        vec![
            "type".to_string(),
            "example.com\n".to_string(),
            "--key-delay=8".to_string(),
            "--key-hold=2".to_string(),
        ]
    );
}

#[test]
fn direct_configuration_never_builds_a_helper_invocation() {
    let settings = direct_settings();
    let plan = build_plan(&settings, "example.com");
    match plan {
        InjectionPlan::Direct { events, inter_event_delay } => {
            assert_eq!(inter_event_delay, settings.direct_event_delay);
            assert_eq!(events, direct_events("example.com"));
        },
        InjectionPlan::External { .. } => panic!("direct settings produced a helper plan"),
    }
}

#[test]
fn external_configuration_never_builds_direct_events() {
    let settings = external_settings();
    let plan = build_plan(&settings, "example.com");
    match plan {
        InjectionPlan::External { argv } => {
            assert_eq!(argv, external_argv("example.com", &settings.external_args));
        },
        InjectionPlan::Direct { .. } => panic!("external settings produced a direct plan"),
    }
}

#[test]
fn default_settings_match_stock_flags() {
    let s = LauncherSettings::default();
    assert!(!s.single_shot);
    assert!(!s.start_hidden);
    assert_eq!(s.popup_reveal_delay_ms, 70);
    assert_eq!(s.direct_event_delay, 12000);
    assert_eq!(s.backend, BackendKind::Direct);
    assert_eq!(s.external_args, vec!["--key-delay=8".to_string(), "--key-hold=2".to_string()]);
}
