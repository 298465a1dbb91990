//! Global keyboard shortcuts: Ctrl+Left/Right Arrow (or Ctrl+< and Ctrl+Y)
//! start a fade, Ctrl+Down/Up Arrow (or Ctrl+Q and Ctrl+W) change the
//! duration, Esc quits. A Ctrl release that the system reports a
//! moment before the action key's press still counts as held.

use vstd::prelude::*;

verus! {

/// How long after a Ctrl release, in nanoseconds, Ctrl still counts as held.
pub const CTRL_RELEASE_GRACE_NANOS: u64 = 75_000_000;

/// The keys the shortcuts look at, by their physical position.
#[derive(Clone, Copy, PartialEq, Eq, Structural, Debug)]
pub enum Key {
    ControlLeft,
    ControlRight,
    Escape,
    /// The key with "<" on ISO keyboards, next to the left Shift.
    IntlBackslash,
    KeyY,
    KeyA,
    KeyS,
    KeyQ,
    KeyW,
    LeftArrow,
    RightArrow,
    UpArrow,
    DownArrow,
    /// Any other key.
    Other,
}

/// A key going down or coming up.
#[derive(Clone, Copy, PartialEq, Eq, Structural, Debug)]
pub enum KeyEvent {
    Press(Key),
    Release(Key),
}

/// What a key event asks for.
#[derive(Clone, Copy, PartialEq, Eq, Structural, Debug)]
pub enum KeyAction {
    /// Nothing to do.
    Nothing,
    /// Esc: stop the fade and quit.
    Exit,
    /// Ctrl+Left Arrow or Ctrl+<: fade to the left.
    FadeLeft,
    /// Ctrl+Right Arrow or Ctrl+Y: fade to the right.
    FadeRight,
    /// Ctrl+Down Arrow or Ctrl+Q: select the next shorter duration.
    DecreaseDuration,
    /// Ctrl+Up Arrow or Ctrl+W: select the next longer duration.
    IncreaseDuration,
    /// An action key pressed without Ctrl: ignored, worth a log line.
    IgnoredWithoutCtrl,
    /// Ctrl with a key that has no shortcut: worth a log line.
    Unbound,
}

/// Whether Ctrl is down, and when it last came up (nanoseconds on a clock
/// that does not go backwards).
#[derive(Clone, Copy, PartialEq, Eq, Structural, Debug)]
pub struct KeyboardState {
    pub ctrl_pressed: bool,
    pub ctrl_released_at: Option<u64>,
}

/// Either Ctrl key.
pub open spec fn is_ctrl(k: Key) -> bool {
    k == Key::ControlLeft || k == Key::ControlRight
}

/// The letter and symbol keys of the shortcuts, including two that used to
/// have one (A, S): pressed without Ctrl they are worth a log line. The arrow
/// keys are left out, as they are in everyday use without Ctrl.
pub open spec fn is_action_key(k: Key) -> bool {
    k == Key::IntlBackslash || k == Key::KeyY || k == Key::KeyA || k == Key::KeyS
}

/// Nanoseconds from `since` to `now`, zero if `now` is earlier.
pub open spec fn elapsed(since: u64, now: u64) -> int {
    if now >= since {
        now - since
    } else {
        0
    }
}

/// Ctrl counts as held at `now`: it is down, or it came up less than the
/// grace period ago.
pub open spec fn ctrl_held(s: KeyboardState, now: u64) -> bool {
    s.ctrl_pressed || match s.ctrl_released_at {
        Some(t) => elapsed(t, now) < CTRL_RELEASE_GRACE_NANOS,
        None => false,
    }
}

/// What a press of `k` at `now` asks for.
pub open spec fn spec_press_action(s: KeyboardState, k: Key, now: u64) -> KeyAction {
    if is_ctrl(k) {
        KeyAction::Nothing
    } else if k == Key::Escape {
        KeyAction::Exit
    } else if !ctrl_held(s, now) {
        if is_action_key(k) {
            KeyAction::IgnoredWithoutCtrl
        } else {
            KeyAction::Nothing
        }
    } else {
        match k {
            Key::LeftArrow | Key::IntlBackslash => KeyAction::FadeLeft,
            Key::RightArrow | Key::KeyY => KeyAction::FadeRight,
            Key::DownArrow | Key::KeyQ => KeyAction::DecreaseDuration,
            Key::UpArrow | Key::KeyW => KeyAction::IncreaseDuration,
            _ => KeyAction::Unbound,
        }
    }
}

/// What key event `e` at `now` asks for.
pub open spec fn spec_key_action(s: KeyboardState, e: KeyEvent, now: u64) -> KeyAction {
    match e {
        KeyEvent::Press(k) => spec_press_action(s, k, now),
        KeyEvent::Release(_) => KeyAction::Nothing,
    }
}

/// The keyboard state after key event `e` at `now`: only Ctrl changes it.
pub open spec fn keyboard_after(s: KeyboardState, e: KeyEvent, now: u64) -> KeyboardState {
    match e {
        KeyEvent::Press(k) => if is_ctrl(k) {
            KeyboardState { ctrl_pressed: true, ..s }
        } else {
            s
        },
        KeyEvent::Release(k) => if is_ctrl(k) {
            KeyboardState { ctrl_pressed: false, ctrl_released_at: Some(now) }
        } else {
            s
        },
    }
}

fn is_ctrl_key(k: Key) -> (r: bool)
    ensures
        r == is_ctrl(k),
{
    match k {
        Key::ControlLeft | Key::ControlRight => true,
        _ => false,
    }
}

/// Handles a key event at time `now` (nanoseconds on a clock that does not
/// go backwards): tracks Ctrl and says which shortcut, if any, was used.
pub fn handle_keyboard_event(state: &mut KeyboardState, event: KeyEvent, now: u64) -> (action:
    KeyAction)
    ensures
        action == spec_key_action(*old(state), event, now),
        *final(state) == keyboard_after(*old(state), event, now),
{
    match event {
        KeyEvent::Press(key) => {
            if is_ctrl_key(key) {
                state.ctrl_pressed = true;
                return KeyAction::Nothing;
            }
            if let Key::Escape = key {
                return KeyAction::Exit;
            }
            let recently_released = match state.ctrl_released_at {
                Some(t) => now.saturating_sub(t) < CTRL_RELEASE_GRACE_NANOS,
                None => false,
            };
            let ctrl_held = state.ctrl_pressed || recently_released;
            let is_action_key = match key {
                Key::IntlBackslash | Key::KeyY | Key::KeyA | Key::KeyS => true,
                _ => false,
            };
            if !ctrl_held {
                return if is_action_key {
                    KeyAction::IgnoredWithoutCtrl
                } else {
                    KeyAction::Nothing
                };
            }
            match key {
                Key::LeftArrow | Key::IntlBackslash => KeyAction::FadeLeft,
                Key::RightArrow | Key::KeyY => KeyAction::FadeRight,
                Key::DownArrow | Key::KeyQ => KeyAction::DecreaseDuration,
                Key::UpArrow | Key::KeyW => KeyAction::IncreaseDuration,
                _ => KeyAction::Unbound,
            }
        },
        KeyEvent::Release(key) => {
            if is_ctrl_key(key) {
                state.ctrl_pressed = false;
                state.ctrl_released_at = Some(now);
            }
            KeyAction::Nothing
        },
    }
}

/// A Ctrl release followed by an action key's press counts as the shortcut
/// when the press comes within the grace period (75 ms), and as a press
/// without Ctrl once the grace period has passed. A press whose clock reading
/// is earlier than the release's counts as coming no time after it.
pub proof fn lemma_release_grace(s: KeyboardState, ctrl: Key, released: u64, pressed: u64)
    requires
        is_ctrl(ctrl),
    ensures
        pressed < released ==> spec_press_action(
            keyboard_after(s, KeyEvent::Release(ctrl), released),
            Key::KeyY,
            pressed,
        ) == KeyAction::FadeRight,
        released <= pressed ==>
        ({
            let after = keyboard_after(s, KeyEvent::Release(ctrl), released);
            &&& pressed - released < 75_000_000 ==> spec_press_action(
                after,
                Key::IntlBackslash,
                pressed,
            ) == KeyAction::FadeLeft && spec_press_action(after, Key::KeyY, pressed)
                == KeyAction::FadeRight && spec_press_action(after, Key::LeftArrow, pressed)
                == KeyAction::FadeLeft && spec_press_action(after, Key::UpArrow, pressed)
                == KeyAction::IncreaseDuration
            &&& pressed - released >= 75_000_000 ==> spec_press_action(
                after,
                Key::IntlBackslash,
                pressed,
            ) == KeyAction::IgnoredWithoutCtrl && spec_press_action(after, Key::KeyY, pressed)
                == KeyAction::IgnoredWithoutCtrl
        }),
{
}

/// While Ctrl is down the shortcuts work whenever they are pressed, Esc
/// always asks to quit, and no press other than Ctrl's changes the state.
pub proof fn lemma_ctrl_down_shortcuts(s: KeyboardState, k: Key, now: u64)
    requires
        s.ctrl_pressed,
    ensures
        spec_press_action(s, Key::IntlBackslash, now) == KeyAction::FadeLeft,
        spec_press_action(s, Key::KeyY, now) == KeyAction::FadeRight,
        spec_press_action(s, Key::KeyQ, now) == KeyAction::DecreaseDuration,
        spec_press_action(s, Key::KeyW, now) == KeyAction::IncreaseDuration,
        spec_press_action(s, Key::LeftArrow, now) == KeyAction::FadeLeft,
        spec_press_action(s, Key::RightArrow, now) == KeyAction::FadeRight,
        spec_press_action(s, Key::DownArrow, now) == KeyAction::DecreaseDuration,
        spec_press_action(s, Key::UpArrow, now) == KeyAction::IncreaseDuration,
        spec_press_action(s, Key::Escape, now) == KeyAction::Exit,
        spec_press_action(s, Key::KeyA, now) == KeyAction::Unbound,
        spec_press_action(s, Key::KeyS, now) == KeyAction::Unbound,
        spec_press_action(s, Key::Other, now) == KeyAction::Unbound,
        !is_ctrl(k) ==> keyboard_after(s, KeyEvent::Press(k), now) == s,
        !is_ctrl(k) ==> keyboard_after(s, KeyEvent::Release(k), now) == s,
{
}

/// Either Ctrl key counts: pressing the left or the right one makes Ctrl
/// held, whenever the shortcut follows (Ctrl+Y then fades right, Ctrl+Left
/// Arrow fades left), without touching the recorded release time; releasing
/// either one makes Ctrl not held and records the release time.
pub proof fn lemma_either_ctrl_key(s: KeyboardState, pressed: u64, later: u64)
    ensures
        keyboard_after(s, KeyEvent::Press(Key::ControlLeft), pressed).ctrl_pressed,
        keyboard_after(s, KeyEvent::Press(Key::ControlRight), pressed).ctrl_pressed,
        keyboard_after(s, KeyEvent::Press(Key::ControlLeft), pressed).ctrl_released_at
            == s.ctrl_released_at,
        keyboard_after(s, KeyEvent::Press(Key::ControlRight), pressed).ctrl_released_at
            == s.ctrl_released_at,
        spec_press_action(
            keyboard_after(s, KeyEvent::Press(Key::ControlLeft), pressed),
            Key::KeyY,
            later,
        ) == KeyAction::FadeRight,
        spec_press_action(
            keyboard_after(s, KeyEvent::Press(Key::ControlRight), pressed),
            Key::KeyY,
            later,
        ) == KeyAction::FadeRight,
        spec_press_action(
            keyboard_after(s, KeyEvent::Press(Key::ControlRight), pressed),
            Key::LeftArrow,
            later,
        ) == KeyAction::FadeLeft,
        spec_key_action(s, KeyEvent::Press(Key::ControlLeft), pressed) == KeyAction::Nothing,
        spec_key_action(s, KeyEvent::Press(Key::ControlRight), pressed) == KeyAction::Nothing,
        !keyboard_after(s, KeyEvent::Release(Key::ControlLeft), pressed).ctrl_pressed,
        !keyboard_after(s, KeyEvent::Release(Key::ControlRight), pressed).ctrl_pressed,
        keyboard_after(s, KeyEvent::Release(Key::ControlLeft), pressed).ctrl_released_at == Some(
            pressed,
        ),
        keyboard_after(s, KeyEvent::Release(Key::ControlRight), pressed).ctrl_released_at == Some(
            pressed,
        ),
{
}

/// Without Ctrl (never pressed, or released at least the grace period ago)
/// no shortcut fires: the letter and symbol keys of the shortcuts are
/// reported as ignored, every other key asks for nothing; Esc still quits.
/// No press of a key other than Ctrl changes the state, and no release asks
/// for anything.
pub proof fn lemma_no_shortcut_without_ctrl(s: KeyboardState, k: Key, e: KeyEvent, now: u64)
    requires
        !s.ctrl_pressed,
        s.ctrl_released_at matches Some(t) ==> now >= t && now - t >= 75_000_000,
    ensures
        k == Key::Escape ==> spec_press_action(s, k, now) == KeyAction::Exit,
        (k == Key::IntlBackslash || k == Key::KeyY || k == Key::KeyA || k == Key::KeyS)
            ==> spec_press_action(s, k, now) == KeyAction::IgnoredWithoutCtrl,
        (k == Key::KeyQ || k == Key::KeyW || k == Key::LeftArrow || k == Key::RightArrow || k
            == Key::UpArrow || k == Key::DownArrow || k == Key::Other) ==> spec_press_action(
            s,
            k,
            now,
        ) == KeyAction::Nothing,
        k != Key::ControlLeft && k != Key::ControlRight ==> keyboard_after(
            s,
            KeyEvent::Press(k),
            now,
        ) == s,
        e matches KeyEvent::Release(_) ==> spec_key_action(s, e, now) == KeyAction::Nothing,
{
}

} // verus!
