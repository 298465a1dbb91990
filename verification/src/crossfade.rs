//! The fade state machine: which way a fade runs, whether it is running or
//! asked to stop, the current crossfade value and the selected duration.
//!
//! The machine makes every decision of a fade; whoever drives it performs the
//! actions it returns (spawning and joining the fade's worker, sleeping between
//! steps, sending the MIDI message).
//!
//! Each launched fade gets a token, and its worker presents the token at every
//! step. A stop, or a newer launch, retires the token: from then on the worker
//! holding it is told to end, whatever requests come in between.

use vstd::prelude::*;
use crate::config::{DEFAULT_DURATION_INDEX, DURATIONS, duration_at, duration_count};

verus! {

/// The largest crossfade value (fully right).
pub const MAX_VALUE: u8 = 127;

/// The crossfade value at start-up (the middle).
pub const MIDDLE_VALUE: u8 = 64;

/// The way a fade moves: towards 0 (`Left`) or towards 127 (`Right`).
#[derive(Clone, Copy, PartialEq, Eq, Structural, Debug)]
pub enum Direction {
    Left,
    Right,
}

/// What the caller of [`CrossfadeState::start`] has to do next.
#[derive(Clone, Copy, PartialEq, Eq, Structural, Debug)]
pub enum StartAction {
    /// A fade in the requested direction is already running: nothing to do.
    AlreadyRunning,
    /// No fade is running and the new one is set up: start its worker with
    /// the token given.
    Launch(u64),
    /// A fade the other way is running and has been told to stop: wait for
    /// its worker to end, then call [`CrossfadeState::launch`] for the new
    /// fade's token.
    InterruptThenLaunch,
}

/// What one step of a running fade asks for.
#[derive(Clone, Copy, PartialEq, Eq, Structural, Debug)]
pub enum StepAction {
    /// The fade was told to stop, or the worker's token has been retired by a
    /// newer launch: the worker ends, nothing changed.
    Interrupted,
    /// The value reached the end of the direction (or no direction is set):
    /// the fade is over and no longer running.
    Finished,
    /// The value moved one unit: send it, wait, and step again.
    Send(u8, Direction),
}

/// The mathematical state of a [`CrossfadeState`].
pub struct FadeView {
    pub running: bool,
    pub interrupt: bool,
    pub direction: Option<Direction>,
    pub value: u8,
    pub duration_index: int,
    pub generation: u64,
}

/// State shared by the fade's worker and the input handlers.
pub struct CrossfadeState {
    running: bool,
    interrupt: bool,
    direction: Option<Direction>,
    value: u8,
    duration_index: usize,
    generation: u64,
}

impl View for CrossfadeState {
    type V = FadeView;

    closed spec fn view(&self) -> FadeView {
        FadeView {
            running: self.running,
            interrupt: self.interrupt,
            direction: self.direction,
            value: self.value,
            duration_index: self.duration_index as int,
            generation: self.generation,
        }
    }
}

/// The state at start-up: idle, in the middle, with the default duration.
pub open spec fn initial_fade() -> FadeView {
    FadeView {
        running: false,
        interrupt: false,
        direction: None,
        value: MIDDLE_VALUE,
        duration_index: DEFAULT_DURATION_INDEX as int,
        generation: 0,
    }
}

/// A state whose duration index selects an entry of the duration table.
pub open spec fn fade_wf(m: FadeView) -> bool {
    0 <= m.duration_index < duration_count()
}

/// The state with the value replaced.
pub open spec fn with_value(m: FadeView, value: u8) -> FadeView {
    FadeView { value: value, ..m }
}

/// The duration index one entry longer (`increase`) or shorter, kept inside
/// the table.
pub open spec fn adjusted_index(index: int, increase: bool) -> int {
    if increase && index < duration_count() - 1 {
        index + 1
    } else if !increase && index > 0 {
        index - 1
    } else {
        index
    }
}

/// The state after a duration adjustment.
pub open spec fn adjusted(m: FadeView, increase: bool) -> FadeView {
    FadeView { duration_index: adjusted_index(m.duration_index, increase), ..m }
}

/// What a request to fade in direction `d` asks for in state `m`.
pub open spec fn start_action(m: FadeView, d: Direction) -> StartAction {
    if m.running && m.direction == Some(d) {
        StartAction::AlreadyRunning
    } else if m.running {
        StartAction::InterruptThenLaunch
    } else {
        StartAction::Launch(next_generation(m.generation))
    }
}

/// The token the next launch hands out (counting on, and wrapping round
/// after the largest `u64`).
pub open spec fn next_generation(g: u64) -> u64 {
    if g == u64::MAX {
        0
    } else {
        (g + 1) as u64
    }
}

/// The state of a fade set up to run in direction `d`, under a new token.
pub open spec fn launched(m: FadeView, d: Direction) -> FadeView {
    FadeView {
        running: true,
        interrupt: false,
        direction: Some(d),
        generation: next_generation(m.generation),
        ..m
    }
}

/// The state right after a request to fade in direction `d`.
pub open spec fn after_start(m: FadeView, d: Direction) -> FadeView {
    match start_action(m, d) {
        StartAction::AlreadyRunning => m,
        StartAction::InterruptThenLaunch => FadeView { interrupt: true, ..m },
        StartAction::Launch(_) => launched(m, d),
    }
}

/// The state after a request to fade in direction `d` has been carried out,
/// including the launch that follows an interrupted fade.
pub open spec fn started(m: FadeView, d: Direction) -> FadeView {
    match start_action(m, d) {
        StartAction::AlreadyRunning => m,
        _ => launched(m, d),
    }
}

/// The state after a stop request.
pub open spec fn stopped(m: FadeView) -> FadeView {
    FadeView { running: false, interrupt: true, ..m }
}

/// What one step of the worker holding `token` does in state `m`.
pub open spec fn step_action(m: FadeView, token: u64) -> StepAction {
    if m.interrupt || token != m.generation {
        StepAction::Interrupted
    } else if m.direction == Some(Direction::Left) && m.value > 0 {
        StepAction::Send((m.value - 1) as u8, Direction::Left)
    } else if m.direction == Some(Direction::Right) && m.value < MAX_VALUE {
        StepAction::Send((m.value + 1) as u8, Direction::Right)
    } else {
        StepAction::Finished
    }
}

/// The state after one step of the worker holding `token`.
pub open spec fn stepped(m: FadeView, token: u64) -> FadeView {
    match step_action(m, token) {
        StepAction::Interrupted => m,
        StepAction::Finished => FadeView { running: false, ..m },
        StepAction::Send(v, _) => with_value(m, v),
    }
}

/// The state after `n` steps of the worker holding `token`.
pub open spec fn run_steps(m: FadeView, token: u64, n: nat) -> FadeView
    decreases n,
{
    if n == 0 {
        m
    } else {
        stepped(run_steps(m, token, (n - 1) as nat), token)
    }
}

/// The value a fade in direction `d` ends at.
pub open spec fn target_value(d: Direction) -> u8 {
    match d {
        Direction::Left => 0,
        Direction::Right => MAX_VALUE,
    }
}

/// How many values a fade in direction `d` sends, starting from `value`.
pub open spec fn distance_to_target(value: u8, d: Direction) -> nat {
    match d {
        Direction::Left => value as nat,
        Direction::Right => if value <= MAX_VALUE { (MAX_VALUE - value) as nat } else { 0 },
    }
}

impl CrossfadeState {
    /// The duration index always selects an entry of the duration table.
    #[verifier::type_invariant]
    spec fn inv(&self) -> bool {
        self.duration_index < DURATIONS.len()
    }

    /// An idle state with the value in the middle and the default duration.
    pub fn new() -> (s: Self)
        ensures
            s@ == initial_fade(),
            fade_wf(s@),
    {
        CrossfadeState {
            running: false,
            interrupt: false,
            direction: None,
            value: MIDDLE_VALUE,
            duration_index: DEFAULT_DURATION_INDEX,
            generation: 0,
        }
    }

    /// Replaces the current crossfade value.
    pub fn set_value(&mut self, value: u8)
        ensures
            final(self)@ == with_value(old(self)@, value),
    {
        proof {
            use_type_invariant(&*self);
        }
        self.value = value;
    }

    /// Selects the next longer (`increase`) or shorter duration, staying at
    /// the end of the table, and returns the selected duration in seconds.
    pub fn adjust_duration(&mut self, increase: bool) -> (secs: u64)
        ensures
            fade_wf(old(self)@),
            final(self)@ == adjusted(old(self)@, increase),
            fade_wf(final(self)@),
            secs == duration_at(final(self)@.duration_index),
    {
        proof {
            use_type_invariant(&*self);
        }
        let mut idx = self.duration_index;
        if increase && idx < DURATIONS.len() - 1 {
            idx += 1;
        } else if !increase && idx > 0 {
            idx -= 1;
        }
        self.duration_index = idx;
        DURATIONS[idx]
    }

    /// Requests a fade in `direction`. A fade the same way that is running
    /// is left alone; one the other way is told to stop; otherwise the new
    /// fade is set up. The result says what the caller has to do next.
    pub fn start(&mut self, direction: Direction) -> (action: StartAction)
        ensures
            action == start_action(old(self)@, direction),
            final(self)@ == after_start(old(self)@, direction),
    {
        proof {
            use_type_invariant(&*self);
        }
        let same = match self.direction {
            Some(d) => d == direction,
            None => false,
        };
        if self.running && same {
            StartAction::AlreadyRunning
        } else if self.running {
            self.interrupt = true;
            StartAction::InterruptThenLaunch
        } else {
            let token = self.launch(direction);
            StartAction::Launch(token)
        }
    }

    /// Sets up a fade in `direction`: it runs, is not asked to stop, and has
    /// a new token, which is returned for its worker. Workers holding older
    /// tokens are told to end at their next step.
    pub fn launch(&mut self, direction: Direction) -> (token: u64)
        ensures
            final(self)@ == launched(old(self)@, direction),
            token == final(self)@.generation,
    {
        proof {
            use_type_invariant(&*self);
        }
        self.direction = Some(direction);
        self.interrupt = false;
        self.running = true;
        self.generation = if self.generation == u64::MAX {
            0
        } else {
            self.generation + 1
        };
        self.generation
    }

    /// Asks the running fade to stop; the state is no longer running.
    pub fn stop(&mut self)
        ensures
            final(self)@ == stopped(old(self)@),
    {
        proof {
            use_type_invariant(&*self);
        }
        self.interrupt = true;
        self.running = false;
    }

    /// One step of the worker holding `token`: ends when the fade was asked
    /// to stop or the token has been retired, ends the fade when the value
    /// reached the end of its direction, and otherwise moves the value one
    /// unit and asks for it to be sent.
    pub fn run_step(&mut self, token: u64) -> (action: StepAction)
        ensures
            action == step_action(old(self)@, token),
            final(self)@ == stepped(old(self)@, token),
    {
        proof {
            use_type_invariant(&*self);
        }
        if self.interrupt || token != self.generation {
            return StepAction::Interrupted;
        }
        let next = match self.direction {
            Some(Direction::Left) => {
                if self.value > 0 {
                    Some((self.value - 1, Direction::Left))
                } else {
                    None
                }
            },
            Some(Direction::Right) => {
                if self.value < MAX_VALUE {
                    Some((self.value + 1, Direction::Right))
                } else {
                    None
                }
            },
            None => None,
        };
        match next {
            Some((v, d)) => {
                self.value = v;
                StepAction::Send(v, d)
            },
            None => {
                self.running = false;
                StepAction::Finished
            },
        }
    }

    /// The current crossfade value.
    pub fn value(&self) -> (v: u8)
        ensures
            v == self@.value,
    {
        self.value
    }

    /// Whether a fade is running.
    pub fn is_running(&self) -> (r: bool)
        ensures
            r == self@.running,
    {
        self.running
    }

    /// The direction of the current or last fade.
    pub fn direction(&self) -> (d: Option<Direction>)
        ensures
            d == self@.direction,
    {
        self.direction
    }

    /// The selected fade duration in seconds.
    pub fn duration_secs(&self) -> (secs: u64)
        ensures
            fade_wf(self@),
            secs == duration_at(self@.duration_index),
    {
        proof {
            use_type_invariant(self);
        }
        DURATIONS[self.duration_index]
    }
}

} // verus!

verus! {

/// The value `k` units away from `value` in direction `d`.
pub open spec fn moved(value: u8, d: Direction, k: nat) -> u8 {
    match d {
        Direction::Left => (value - k) as u8,
        Direction::Right => (value + k) as u8,
    }
}

proof fn lemma_run_prefix(m: FadeView, d: Direction, k: nat)
    requires
        m.direction == Some(d),
        !m.interrupt,
        d == Direction::Right ==> m.value <= MAX_VALUE,
        k <= distance_to_target(m.value, d),
    ensures
        run_steps(m, m.generation, k) == with_value(m, moved(m.value, d, k)),
    decreases k,
{
    if k > 0 {
        lemma_run_prefix(m, d, (k - 1) as nat);
    }
}

/// A fade whose worker runs undisturbed in direction `d` sends, one after the
/// other, every value from the current one (exclusive) to the end of its
/// direction (0 to the left, 127 to the right), each one unit past the
/// previous, and then finishes: it stops running with the value at that end.
pub proof fn lemma_fade_runs_to_target(m: FadeView, d: Direction)
    requires
        m.direction == Some(d),
        !m.interrupt,
        d == Direction::Right ==> m.value <= MAX_VALUE,
    ensures
        forall|k: nat|
            k < distance_to_target(m.value, d) ==> #[trigger] step_action(
                run_steps(m, m.generation, k),
                m.generation,
            ) == StepAction::Send(moved(m.value, d, k + 1), d),
        run_steps(m, m.generation, distance_to_target(m.value, d)) == with_value(
            m,
            target_value(d),
        ),
        step_action(run_steps(m, m.generation, distance_to_target(m.value, d)), m.generation)
            == StepAction::Finished,
        !stepped(run_steps(m, m.generation, distance_to_target(m.value, d)), m.generation).running,
        stepped(run_steps(m, m.generation, distance_to_target(m.value, d)), m.generation).value
            == target_value(d),
{
    let n = distance_to_target(m.value, d);
    assert forall|k: nat| k < n implies #[trigger] step_action(run_steps(m, m.generation, k), m.generation)
        == StepAction::Send(moved(m.value, d, k + 1), d) by {
        lemma_run_prefix(m, d, k);
    }
    lemma_run_prefix(m, d, n);
}

/// A request made of the state machine (by an input handler or a worker).
pub enum Request {
    SetValue(u8),
    AdjustDuration(bool),
    Start(Direction),
    Launch(Direction),
    Stop,
    Step(u64),
}

/// The state after request `r`.
pub open spec fn apply(m: FadeView, r: Request) -> FadeView {
    match r {
        Request::SetValue(v) => with_value(m, v),
        Request::AdjustDuration(increase) => adjusted(m, increase),
        Request::Start(d) => after_start(m, d),
        Request::Launch(d) => launched(m, d),
        Request::Stop => stopped(m),
        Request::Step(t) => stepped(m, t),
    }
}

/// The state after the requests `rs`, in order.
pub open spec fn apply_all(m: FadeView, rs: Seq<Request>) -> FadeView
    decreases rs.len(),
{
    if rs.len() == 0 {
        m
    } else {
        apply(apply_all(m, rs.drop_last()), rs.last())
    }
}

/// The worker holding `token` has been told to end: its fade was stopped,
/// or a newer fade was launched since.
pub open spec fn retired(m: FadeView, token: u64) -> bool {
    token < m.generation || (token == m.generation && m.interrupt)
}

proof fn lemma_retired_stays(m: FadeView, token: u64, rs: Seq<Request>)
    requires
        retired(m, token),
        m.generation + rs.len() <= u64::MAX,
    ensures
        retired(apply_all(m, rs), token),
        m.generation <= apply_all(m, rs).generation <= m.generation + rs.len(),
    decreases rs.len(),
{
    if rs.len() > 0 {
        lemma_retired_stays(m, token, rs.drop_last());
    }
}

/// Once the worker holding `token` has been told to end, it never moves the
/// value again, whatever requests follow (manual moves, new fade requests in
/// either direction, duration changes, other workers' steps): at every point
/// its step reports the interruption and changes nothing. This holds as long
/// as the token counter does not wrap round, that is for fewer than 2^64
/// launches.
pub proof fn lemma_retired_worker_never_moves(m: FadeView, token: u64, rs: Seq<Request>)
    requires
        retired(m, token),
        m.generation + rs.len() <= u64::MAX,
    ensures
        forall|i: int|
            0 <= i <= rs.len() ==> {
                let s = #[trigger] apply_all(m, rs.take(i));
                &&& retired(s, token)
                &&& step_action(s, token) == StepAction::Interrupted
                &&& stepped(s, token) == s
            },
{
    assert forall|i: int| 0 <= i <= rs.len() implies {
        let s = #[trigger] apply_all(m, rs.take(i));
        &&& retired(s, token)
        &&& step_action(s, token) == StepAction::Interrupted
        &&& stepped(s, token) == s
    } by {
        lemma_retired_stays(m, token, rs.take(i));
    }
}

/// A stop retires the running fade's worker: nothing runs, the value,
/// direction and duration are kept, and that worker's next step ends it
/// without a change.
pub proof fn lemma_stop_halts_fade(m: FadeView)
    ensures
        retired(stopped(m), m.generation),
        !stopped(m).running,
        stopped(m).interrupt,
        stopped(m).generation == m.generation,
        stopped(m).value == m.value,
        stopped(m).direction == m.direction,
        stopped(m).duration_index == m.duration_index,
        step_action(stopped(m), m.generation) == StepAction::Interrupted,
        stepped(stopped(m), m.generation) == stopped(m),
{
}

/// After a request to fade in `d` has been carried out, a fade in `d` runs
/// from the unchanged value with the unchanged duration, and a second request
/// for the same direction finds it already running and changes nothing.
/// Unless the fade was already running that way, the new fade has a new token
/// and the previous worker is retired. (The first part holds outside the
/// window in which a running fade has been told to stop but its replacement
/// has not been launched yet.)
pub proof fn lemma_start_runs_requested_direction(m: FadeView, d: Direction)
    requires
        m.running ==> !m.interrupt,
    ensures
        started(m, d).running,
        !started(m, d).interrupt,
        started(m, d).direction == Some(d),
        started(m, d).value == m.value,
        started(m, d).duration_index == m.duration_index,
        start_action(started(m, d), d) == StartAction::AlreadyRunning,
        after_start(started(m, d), d) == started(m, d),
        started(started(m, d), d) == started(m, d),
        start_action(m, d) != StartAction::AlreadyRunning && m.generation < u64::MAX ==> retired(
            started(m, d),
            m.generation,
        ),
{
}

/// Requesting the direction opposite to a running fade interrupts it first:
/// the running fade's worker ends at its next step without moving the value.
pub proof fn lemma_opposite_request_interrupts(m: FadeView, d: Direction)
    requires
        m.running,
        m.direction != Some(d),
    ensures
        start_action(m, d) == StartAction::InterruptThenLaunch,
        retired(after_start(m, d), m.generation),
        step_action(after_start(m, d), m.generation) == StepAction::Interrupted,
        stepped(after_start(m, d), m.generation).value == m.value,
{
}

/// The state at start-up is idle, in the middle, with the 10-second
/// duration, and no token has been handed out yet.
pub proof fn lemma_initial_state()
    ensures
        !initial_fade().running,
        !initial_fade().interrupt,
        initial_fade().direction is None,
        initial_fade().value == 64,
        fade_wf(initial_fade()),
        duration_at(initial_fade().duration_index) == 10,
        initial_fade().generation == 0,
{
}

/// What a fade request answers, in terms of the state it meets:
/// - no fade running: a new fade is launched. Its token differs from the
///   previous one and is exactly the one the new state expects, the fade
///   runs the requested way from the unchanged value and duration, and the
///   worker holding the token moves the value one unit that way at its
///   first step (or finishes at once when the value is already at that end);
/// - a fade running the same way: the request is skipped, nothing changes;
/// - a fade running the other way: that fade is asked to stop, nothing else
///   changes.
pub proof fn lemma_start_answers(m: FadeView, d: Direction)
    ensures
        !m.running ==> start_action(m, d) is Launch,
        start_action(m, d) matches StartAction::Launch(t) ==> {
            let n = after_start(m, d);
            &&& !m.running
            &&& t == n.generation
            &&& t != m.generation
            &&& n.running
            &&& !n.interrupt
            &&& n.direction == Some(d)
            &&& n.value == m.value
            &&& n.duration_index == m.duration_index
            &&& (d == Direction::Left && m.value > 0 ==> step_action(n, t) == StepAction::Send(
                (m.value - 1) as u8,
                Direction::Left,
            ))
            &&& (d == Direction::Right && m.value < 127 ==> step_action(n, t) == StepAction::Send(
                (m.value + 1) as u8,
                Direction::Right,
            ))
            &&& (d == Direction::Left && m.value == 0 ==> step_action(n, t) == StepAction::Finished)
            &&& (d == Direction::Right && m.value >= 127 ==> step_action(n, t)
                == StepAction::Finished)
        },
        m.running && m.direction == Some(d) ==> start_action(m, d) == StartAction::AlreadyRunning
            && after_start(m, d) == m,
        m.running && m.direction != Some(d) ==> {
            let n = after_start(m, d);
            &&& start_action(m, d) == StartAction::InterruptThenLaunch
            &&& n.interrupt
            &&& n.running == m.running
            &&& n.direction == m.direction
            &&& n.value == m.value
            &&& n.duration_index == m.duration_index
            &&& n.generation == m.generation
        },
{
}

/// A launch hands out a token different from the previous one, returns the
/// state's new expectation, sets the fade running the requested way without
/// a stop request, and keeps the value and the duration.
pub proof fn lemma_launch_answers(m: FadeView, d: Direction)
    ensures
        launched(m, d).generation != m.generation,
        retired(launched(m, d), m.generation) <== m.generation < u64::MAX,
        launched(m, d).running,
        !launched(m, d).interrupt,
        launched(m, d).direction == Some(d),
        launched(m, d).value == m.value,
        launched(m, d).duration_index == m.duration_index,
{
}

/// One step of a worker, in terms of the state it meets: a worker whose fade
/// was asked to stop, or whose token is not the current one, ends and changes
/// nothing; otherwise the value moves exactly one unit in the fade's
/// direction while it has room, and the fade finishes (stops running, value
/// unchanged) at 0 going left, at 127 or above going right, or without a
/// direction.
pub proof fn lemma_step_answers(m: FadeView, t: u64)
    ensures
        m.interrupt || t != m.generation ==> step_action(m, t) == StepAction::Interrupted
            && stepped(m, t) == m,
        !m.interrupt && t == m.generation && m.direction == Some(Direction::Left) && m.value > 0
            ==> {
            &&& step_action(m, t) == StepAction::Send((m.value - 1) as u8, Direction::Left)
            &&& stepped(m, t).value + 1 == m.value
            &&& stepped(m, t).running == m.running
            &&& stepped(m, t).direction == m.direction
            &&& stepped(m, t).generation == m.generation
            &&& stepped(m, t).duration_index == m.duration_index
        },
        !m.interrupt && t == m.generation && m.direction == Some(Direction::Right) && m.value < 127
            ==> {
            &&& step_action(m, t) == StepAction::Send((m.value + 1) as u8, Direction::Right)
            &&& stepped(m, t).value == m.value + 1
            &&& stepped(m, t).running == m.running
            &&& stepped(m, t).direction == m.direction
            &&& stepped(m, t).generation == m.generation
            &&& stepped(m, t).duration_index == m.duration_index
        },
        !m.interrupt && t == m.generation && (m.direction is None || (m.direction == Some(
            Direction::Left,
        ) && m.value == 0) || (m.direction == Some(Direction::Right) && m.value >= 127)) ==> {
            &&& step_action(m, t) == StepAction::Finished
            &&& !stepped(m, t).running
            &&& stepped(m, t).value == m.value
            &&& stepped(m, t).direction == m.direction
            &&& stepped(m, t).generation == m.generation
        },
{
}

/// Setting the value changes the value and nothing else.
pub proof fn lemma_set_value_answers(m: FadeView, v: u8)
    ensures
        with_value(m, v).value == v,
        with_value(m, v).running == m.running,
        with_value(m, v).interrupt == m.interrupt,
        with_value(m, v).direction == m.direction,
        with_value(m, v).duration_index == m.duration_index,
        with_value(m, v).generation == m.generation,
{
}

/// The duration table lists strictly increasing durations.
pub proof fn lemma_durations_increase(i: int, j: int)
    requires
        0 <= i < j < duration_count(),
    ensures
        duration_at(i) < duration_at(j),
{
}

/// Adjusting the duration keeps the index inside the table, moves it by
/// exactly one entry away from the ends (so every duration can be selected),
/// never selects a shorter duration when increasing nor a longer one when
/// decreasing, stays put at the ends of the table, one step up followed by
/// one step down (or down then up) returns to where it was whenever the first
/// step moved, and nothing but the duration changes.
pub proof fn lemma_adjust_duration_laws(m: FadeView)
    requires
        fade_wf(m),
    ensures
        fade_wf(adjusted(m, true)),
        fade_wf(adjusted(m, false)),
        duration_at(adjusted(m, true).duration_index) >= duration_at(m.duration_index),
        duration_at(adjusted(m, false).duration_index) <= duration_at(m.duration_index),
        m.duration_index == duration_count() - 1 ==> adjusted(m, true) == m,
        m.duration_index == 0 ==> adjusted(m, false) == m,
        m.duration_index < duration_count() - 1 ==> adjusted(adjusted(m, true), false) == m,
        m.duration_index > 0 ==> adjusted(adjusted(m, false), true) == m,
        m.duration_index < duration_count() - 1 ==> adjusted(m, true).duration_index
            == m.duration_index + 1,
        m.duration_index > 0 ==> adjusted(m, false).duration_index == m.duration_index - 1,
        adjusted(m, true).value == m.value && adjusted(m, false).value == m.value,
        adjusted(m, true).running == m.running && adjusted(m, false).running == m.running,
        adjusted(m, true).interrupt == m.interrupt && adjusted(m, false).interrupt == m.interrupt,
        adjusted(m, true).direction == m.direction && adjusted(m, false).direction == m.direction,
        adjusted(m, true).generation == m.generation && adjusted(m, false).generation
            == m.generation,
{
    let i = m.duration_index;
    if i < duration_count() - 1 {
        lemma_durations_increase(i, i + 1);
    }
    if i > 0 {
        lemma_durations_increase(i - 1, i);
    }
}

} // verus!
