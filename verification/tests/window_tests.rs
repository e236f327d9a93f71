use quicklaunch::effect::EXIT_GRACE_MS;
use quicklaunch::effect::Effect;
use quicklaunch::window::Visibility;
use quicklaunch::window::WindowId;
use quicklaunch::window::WindowLifecycleController;

fn resident() -> WindowLifecycleController {
    WindowLifecycleController::new(Visibility::Visible, Visibility::Hidden, false)
}

fn single_shot() -> WindowLifecycleController {
    WindowLifecycleController::new(Visibility::Hidden, Visibility::Visible, true)
}

#[test]
fn hide_is_idempotent() {
    let mut c = resident();
    c.show_window(WindowId::Popup);
    assert_eq!(c.visibility(WindowId::Popup), Visibility::Visible);
    c.hide_window(WindowId::Popup);
    assert_eq!(c.visibility(WindowId::Popup), Visibility::Hidden);
    c.hide_window(WindowId::Popup);
    assert_eq!(c.visibility(WindowId::Popup), Visibility::Hidden);
}

#[test]
fn close_request_outside_single_shot_hides_and_keeps_process() {
    for w in [WindowId::Main, WindowId::Popup] {
        let mut c = resident();
        c.show_window(w);
        let effects = c.on_close_requested(w);
        assert_eq!(c.visibility(w), Visibility::Hidden);
        assert_eq!(effects, vec![Effect::HideWindow(w), Effect::PreventClose]);
        assert!(!effects.iter().any(|e| matches!(
            e,
            Effect::Exit | Effect::ScheduleExit { .. }
        )));
    }
}

#[test]
fn close_request_in_single_shot_schedules_exit_after_hide() {
    let mut c = single_shot();
    let effects = c.on_close_requested(WindowId::Popup);
    assert_eq!(c.visibility(WindowId::Popup), Visibility::Hidden);
    assert_eq!(
        effects,
        vec![
            Effect::HideWindow(WindowId::Popup),
            Effect::PreventClose,
            Effect::ScheduleExit { grace_ms: EXIT_GRACE_MS },
        ]
    );
    assert_eq!(EXIT_GRACE_MS, 800);
}

#[test]
fn resize_to_zero_area_acts_like_close() {
    let mut c = resident();
    c.show_window(WindowId::Popup);
    let effects = c.on_resized(WindowId::Popup, 0, 0);
    assert_eq!(c.visibility(WindowId::Popup), Visibility::Hidden);
    assert_eq!(effects, vec![Effect::HideWindow(WindowId::Popup)]);

    let mut c = single_shot();
    let effects = c.on_resized(WindowId::Popup, 0, 0);
    assert_eq!(
        effects,
        vec![
            Effect::HideWindow(WindowId::Popup),
            Effect::ScheduleExit { grace_ms: EXIT_GRACE_MS },
        ]
    );
}

#[test]
fn ordinary_resize_changes_nothing() {
    let mut c = resident();
    c.show_window(WindowId::Popup);
    let effects = c.on_resized(WindowId::Popup, 640, 0);
    assert_eq!(effects, vec![]);
    assert_eq!(c.visibility(WindowId::Popup), Visibility::Visible);
    let effects = c.on_resized(WindowId::Popup, 640, 480);
    assert_eq!(effects, vec![]);
    assert_eq!(c.visibility(WindowId::Popup), Visibility::Visible);
}
