use midi_auto_crossfader::crossfade::{CrossfadeState, Direction, StartAction, StepAction};

fn run_to_end(state: &mut CrossfadeState, token: u64) -> Vec<StepAction> {
    let mut actions = Vec::new();
    loop {
        let a = state.run_step(token);
        actions.push(a);
        if !matches!(a, StepAction::Send(_, _)) {
            return actions;
        }
    }
}

fn launch_token(action: StartAction) -> u64 {
    match action {
        StartAction::Launch(t) => t,
        other => panic!("expected a launch, got {other:?}"),
    }
}

#[test]
fn new_state_is_idle_in_the_middle() {
    let s = CrossfadeState::new();
    assert_eq!(s.value(), 64);
    assert!(!s.is_running());
    assert_eq!(s.direction(), None);
    assert_eq!(s.duration_secs(), 10);
}

#[test]
fn idle_step_without_direction_finishes() {
    let mut s = CrossfadeState::new();
    assert_eq!(s.run_step(0), StepAction::Finished);
    assert_eq!(s.value(), 64);
}

#[test]
fn adjust_duration_walks_the_table_and_saturates() {
    let mut s = CrossfadeState::new();
    assert_eq!(s.adjust_duration(true), 30);
    assert_eq!(s.adjust_duration(true), 60);
    assert_eq!(s.adjust_duration(true), 300);
    assert_eq!(s.adjust_duration(true), 600);
    assert_eq!(s.adjust_duration(true), 600);
    assert_eq!(s.duration_secs(), 600);
    for _ in 0..10 {
        s.adjust_duration(false);
    }
    assert_eq!(s.duration_secs(), 1);
    assert_eq!(s.adjust_duration(false), 1);
}

#[test]
fn adjust_up_then_down_returns() {
    let mut s = CrossfadeState::new();
    s.adjust_duration(true);
    assert_eq!(s.adjust_duration(false), 10);
    s.adjust_duration(false);
    assert_eq!(s.adjust_duration(true), 10);
}

#[test]
fn fade_left_runs_to_zero_then_finishes() {
    let mut s = CrossfadeState::new();
    s.set_value(3);
    let action = s.start(Direction::Left);
    assert_eq!(action, StartAction::Launch(1));
    assert!(s.is_running());
    let actions = run_to_end(&mut s, 1);
    assert_eq!(
        actions,
        vec![
            StepAction::Send(2, Direction::Left),
            StepAction::Send(1, Direction::Left),
            StepAction::Send(0, Direction::Left),
            StepAction::Finished,
        ]
    );
    assert_eq!(s.value(), 0);
    assert!(!s.is_running());
}

#[test]
fn fade_right_runs_to_127_then_finishes() {
    let mut s = CrossfadeState::new();
    s.set_value(125);
    let t = launch_token(s.start(Direction::Right));
    let actions = run_to_end(&mut s, t);
    assert_eq!(
        actions,
        vec![
            StepAction::Send(126, Direction::Right),
            StepAction::Send(127, Direction::Right),
            StepAction::Finished,
        ]
    );
    assert_eq!(s.value(), 127);
    assert!(!s.is_running());
}

#[test]
fn full_fade_from_middle_sends_every_value() {
    let mut s = CrossfadeState::new();
    let t = launch_token(s.start(Direction::Right));
    let actions = run_to_end(&mut s, t);
    assert_eq!(actions.len(), 64);
    for (k, a) in actions.iter().take(63).enumerate() {
        assert_eq!(*a, StepAction::Send(65 + k as u8, Direction::Right));
    }
    assert_eq!(s.value(), 127);
}

#[test]
fn fade_right_above_range_finishes_at_once() {
    let mut s = CrossfadeState::new();
    s.set_value(200);
    let t = launch_token(s.start(Direction::Right));
    assert_eq!(s.run_step(t), StepAction::Finished);
    assert_eq!(s.value(), 200);
}

#[test]
fn same_direction_request_is_skipped() {
    let mut s = CrossfadeState::new();
    let t = launch_token(s.start(Direction::Left));
    assert_eq!(s.start(Direction::Left), StartAction::AlreadyRunning);
    assert!(s.is_running());
    assert_eq!(s.run_step(t), StepAction::Send(63, Direction::Left));
}

#[test]
fn opposite_request_interrupts_then_launches() {
    let mut s = CrossfadeState::new();
    let old = launch_token(s.start(Direction::Left));
    assert_eq!(s.run_step(old), StepAction::Send(63, Direction::Left));
    assert_eq!(s.start(Direction::Right), StartAction::InterruptThenLaunch);
    assert_eq!(s.run_step(old), StepAction::Interrupted);
    assert_eq!(s.value(), 63);
    let new = s.launch(Direction::Right);
    assert_ne!(new, old);
    assert_eq!(s.direction(), Some(Direction::Right));
    assert!(s.is_running());
    assert_eq!(s.run_step(old), StepAction::Interrupted);
    assert_eq!(s.run_step(new), StepAction::Send(64, Direction::Right));
}

#[test]
fn stop_interrupts_without_moving() {
    let mut s = CrossfadeState::new();
    let t = launch_token(s.start(Direction::Right));
    s.run_step(t);
    s.stop();
    assert!(!s.is_running());
    assert_eq!(s.run_step(t), StepAction::Interrupted);
    assert_eq!(s.run_step(t), StepAction::Interrupted);
    assert_eq!(s.value(), 65);
}

#[test]
fn stopped_worker_stays_stopped_after_a_new_request() {
    let mut s = CrossfadeState::new();
    let old = launch_token(s.start(Direction::Right));
    s.run_step(old);
    s.stop();
    // A new request comes in before the stopped worker's next step.
    let new = launch_token(s.start(Direction::Right));
    assert_eq!(s.run_step(old), StepAction::Interrupted);
    assert_eq!(s.value(), 65);
    assert_eq!(s.run_step(new), StepAction::Send(66, Direction::Right));
    assert_eq!(s.run_step(old), StepAction::Interrupted);
    assert_eq!(s.value(), 66);
}

#[test]
fn unknown_token_moves_nothing() {
    let mut s = CrossfadeState::new();
    let t = launch_token(s.start(Direction::Left));
    assert_eq!(s.run_step(t + 7), StepAction::Interrupted);
    assert_eq!(s.value(), 64);
}
