use midi_auto_crossfader::keyboard::{
    handle_keyboard_event, Key, KeyAction, KeyEvent, KeyboardState, CTRL_RELEASE_GRACE_NANOS,
};

fn fresh() -> KeyboardState {
    KeyboardState { ctrl_pressed: false, ctrl_released_at: None }
}

#[test]
fn ctrl_shortcuts() {
    let mut s = fresh();
    assert_eq!(handle_keyboard_event(&mut s, KeyEvent::Press(Key::ControlLeft), 0), KeyAction::Nothing);
    assert!(s.ctrl_pressed);
    assert_eq!(handle_keyboard_event(&mut s, KeyEvent::Press(Key::IntlBackslash), 1), KeyAction::FadeLeft);
    assert_eq!(handle_keyboard_event(&mut s, KeyEvent::Press(Key::KeyY), 2), KeyAction::FadeRight);
    assert_eq!(handle_keyboard_event(&mut s, KeyEvent::Press(Key::KeyQ), 3), KeyAction::DecreaseDuration);
    assert_eq!(handle_keyboard_event(&mut s, KeyEvent::Press(Key::KeyW), 4), KeyAction::IncreaseDuration);
    assert_eq!(handle_keyboard_event(&mut s, KeyEvent::Press(Key::KeyA), 5), KeyAction::Unbound);
    assert_eq!(handle_keyboard_event(&mut s, KeyEvent::Press(Key::Other), 6), KeyAction::Unbound);
}

#[test]
fn keys_without_ctrl() {
    let mut s = fresh();
    assert_eq!(handle_keyboard_event(&mut s, KeyEvent::Press(Key::KeyY), 0), KeyAction::IgnoredWithoutCtrl);
    assert_eq!(handle_keyboard_event(&mut s, KeyEvent::Press(Key::KeyS), 0), KeyAction::IgnoredWithoutCtrl);
    assert_eq!(handle_keyboard_event(&mut s, KeyEvent::Press(Key::KeyQ), 0), KeyAction::Nothing);
    assert_eq!(handle_keyboard_event(&mut s, KeyEvent::Press(Key::Other), 0), KeyAction::Nothing);
    assert_eq!(s, fresh());
}

#[test]
fn escape_exits_with_or_without_ctrl() {
    let mut s = fresh();
    assert_eq!(handle_keyboard_event(&mut s, KeyEvent::Press(Key::Escape), 0), KeyAction::Exit);
    handle_keyboard_event(&mut s, KeyEvent::Press(Key::ControlRight), 1);
    assert_eq!(handle_keyboard_event(&mut s, KeyEvent::Press(Key::Escape), 2), KeyAction::Exit);
}

#[test]
fn release_within_grace_still_counts() {
    let mut s = fresh();
    handle_keyboard_event(&mut s, KeyEvent::Press(Key::ControlLeft), 1_000);
    assert_eq!(handle_keyboard_event(&mut s, KeyEvent::Release(Key::ControlLeft), 2_000), KeyAction::Nothing);
    assert!(!s.ctrl_pressed);
    assert_eq!(s.ctrl_released_at, Some(2_000));
    let just_inside = 2_000 + CTRL_RELEASE_GRACE_NANOS - 1;
    assert_eq!(handle_keyboard_event(&mut s, KeyEvent::Press(Key::IntlBackslash), just_inside), KeyAction::FadeLeft);
    let at_limit = 2_000 + CTRL_RELEASE_GRACE_NANOS;
    assert_eq!(handle_keyboard_event(&mut s, KeyEvent::Press(Key::IntlBackslash), at_limit), KeyAction::IgnoredWithoutCtrl);
}

#[test]
fn grace_is_75_milliseconds() {
    assert_eq!(CTRL_RELEASE_GRACE_NANOS, 75_000_000);
}

#[test]
fn clock_reading_before_release_counts_as_no_time() {
    let mut s = fresh();
    handle_keyboard_event(&mut s, KeyEvent::Release(Key::ControlRight), 500_000_000);
    assert_eq!(handle_keyboard_event(&mut s, KeyEvent::Press(Key::KeyY), 100), KeyAction::FadeRight);
}

#[test]
fn other_releases_change_nothing() {
    let mut s = fresh();
    handle_keyboard_event(&mut s, KeyEvent::Press(Key::ControlLeft), 0);
    let before = s;
    assert_eq!(handle_keyboard_event(&mut s, KeyEvent::Release(Key::KeyY), 10), KeyAction::Nothing);
    assert_eq!(s, before);
}

#[test]
fn arrow_key_shortcuts() {
    let mut s = fresh();
    handle_keyboard_event(&mut s, KeyEvent::Press(Key::ControlLeft), 0);
    assert_eq!(handle_keyboard_event(&mut s, KeyEvent::Press(Key::LeftArrow), 1), KeyAction::FadeLeft);
    assert_eq!(handle_keyboard_event(&mut s, KeyEvent::Press(Key::RightArrow), 2), KeyAction::FadeRight);
    assert_eq!(handle_keyboard_event(&mut s, KeyEvent::Press(Key::DownArrow), 3), KeyAction::DecreaseDuration);
    assert_eq!(handle_keyboard_event(&mut s, KeyEvent::Press(Key::UpArrow), 4), KeyAction::IncreaseDuration);
}

#[test]
fn arrow_keys_without_ctrl_do_nothing() {
    let mut s = fresh();
    assert_eq!(handle_keyboard_event(&mut s, KeyEvent::Press(Key::LeftArrow), 0), KeyAction::Nothing);
    assert_eq!(handle_keyboard_event(&mut s, KeyEvent::Press(Key::UpArrow), 0), KeyAction::Nothing);
}
