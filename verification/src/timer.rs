//! The work/break cycle: two countdowns, one of them active, and the rule that
//! moves from one phase to the other.

use crate::phase_timer::{PhaseTimer, PhaseTimerView, NANOS_PER_SEC};
use vstd::prelude::*;

verus! {

/// Length of a work phase in seconds: 25 minutes.
pub const WORK_SECS: u64 = 1500;

/// Length of a break phase in seconds: 5 minutes.
pub const BREAK_SECS: u64 = 300;

/// What a caller is told when it asks about a timer that does not exist.
pub const NO_TIMER_FOUND: &'static str = "No timer found";

/// Which of the two phases the cycle is in.
#[derive(Clone, Copy, Debug, PartialEq, Eq)]
pub enum TimerState {
    Work,
    Break,
}

impl TimerState {
    /// The phase that follows this one.
    pub open spec fn other(self) -> Self {
        match self {
            TimerState::Work => TimerState::Break,
            TimerState::Break => TimerState::Work,
        }
    }
}

/// Told when a break phase has run to its end.
#[derive(Clone, Copy, Debug, PartialEq, Eq)]
pub struct BreakDoneEvent;

/// Told when a work phase has run to its end.
#[derive(Clone, Copy, Debug, PartialEq, Eq)]
pub struct WorkDoneEvent;

/// The phase that a tick brought to its end.
#[derive(Clone, Copy, Debug, PartialEq, Eq)]
pub enum Completion {
    Work(WorkDoneEvent),
    Break(BreakDoneEvent),
}

/// The mathematical value of a [`PomodoroTimer`].
pub struct PomodoroView {
    pub work_timer: PhaseTimerView,
    pub break_timer: PhaseTimerView,
    pub current_state: TimerState,
}

impl PomodoroView {
    /// The state every cycle starts in: both countdowns untouched, work first.
    pub open spec fn fresh() -> Self {
        PomodoroView {
            work_timer: PhaseTimerView {
                duration: (WORK_SECS * NANOS_PER_SEC) as nat,
                elapsed: 0,
                paused: false,
            },
            break_timer: PhaseTimerView {
                duration: (BREAK_SECS * NANOS_PER_SEC) as nat,
                elapsed: 0,
                paused: false,
            },
            current_state: TimerState::Work,
        }
    }

    /// The countdown of `phase`.
    pub open spec fn timer(self, phase: TimerState) -> PhaseTimerView {
        match phase {
            TimerState::Work => self.work_timer,
            TimerState::Break => self.break_timer,
        }
    }

    /// The cycle with `timer` as the countdown of `phase`.
    pub open spec fn with_timer(self, phase: TimerState, timer: PhaseTimerView) -> Self {
        match phase {
            TimerState::Work => PomodoroView { work_timer: timer, ..self },
            TimerState::Break => PomodoroView { break_timer: timer, ..self },
        }
    }

    /// The countdown of the current phase: the only one that time moves.
    pub open spec fn active(self) -> PhaseTimerView {
        self.timer(self.current_state)
    }

    /// The countdown of the other phase.
    pub open spec fn idle(self) -> PhaseTimerView {
        self.timer(self.current_state.other())
    }

    /// The states a cycle can be in between two operations: the durations are the
    /// fixed ones, the active countdown has not run out, and the idle one is
    /// untouched and running.
    pub open spec fn wf(self) -> bool {
        &&& self.work_timer.duration == WORK_SECS * NANOS_PER_SEC
        &&& self.break_timer.duration == BREAK_SECS * NANOS_PER_SEC
        &&& !self.active().finished()
        &&& self.idle().elapsed == 0
        &&& !self.idle().paused
    }

    /// Whether the countdown of the current phase is paused; the other one is not
    /// asked.
    pub open spec fn is_paused(self) -> bool {
        self.active().paused
    }

    /// Nanoseconds left in `phase`, whether or not it is the current one.
    pub open spec fn remaining(self, phase: TimerState) -> nat {
        self.timer(phase).remaining()
    }

    /// Pausing and resuming touch the active countdown only.
    pub open spec fn toggle_pause(self) -> Self {
        if self.active().paused {
            self.with_timer(self.current_state, self.active().unpause())
        } else {
            self.with_timer(self.current_state, self.active().pause())
        }
    }

    /// Whether a tick of `delta` brings the current phase to its end.
    pub open spec fn completes(self, delta: nat) -> bool {
        self.active().advance(delta).finished()
    }

    /// The cycle after a tick of `delta`: the active countdown advances; if that
    /// brings it to its end it starts over and the other phase begins. Time beyond
    /// the end of the phase is dropped.
    pub open spec fn tick(self, delta: nat) -> Self {
        let advanced = self.active().advance(delta);
        if advanced.finished() {
            PomodoroView {
                current_state: self.current_state.other(),
                ..self.with_timer(self.current_state, advanced.reset())
            }
        } else {
            self.with_timer(self.current_state, advanced)
        }
    }

    /// What a tick of `delta` announces: the phase it ended, if any.
    pub open spec fn signal(self, delta: nat) -> Option<Completion> {
        if self.completes(delta) {
            match self.current_state {
                TimerState::Work => Some(Completion::Work(WorkDoneEvent)),
                TimerState::Break => Some(Completion::Break(BreakDoneEvent)),
            }
        } else {
            None
        }
    }
}

/// A work countdown of 25 minutes, a break countdown of 5 minutes, and the phase
/// the cycle is in.
pub struct PomodoroTimer {
    work_timer: PhaseTimer,
    break_timer: PhaseTimer,
    current_state: TimerState,
}

impl View for PomodoroTimer {
    type V = PomodoroView;

    closed spec fn view(&self) -> PomodoroView {
        PomodoroView {
            work_timer: self.work_timer@,
            break_timer: self.break_timer@,
            current_state: self.current_state,
        }
    }
}

/// A fresh countdown over `seconds` seconds.
fn start_timer(seconds: u64) -> (timer: PhaseTimer)
    requires
        seconds * NANOS_PER_SEC <= u64::MAX,
    ensures
        timer@ == (PhaseTimerView {
            duration: (seconds * NANOS_PER_SEC) as nat,
            elapsed: 0,
            paused: false,
        }),
{
    PhaseTimer::new(seconds * NANOS_PER_SEC)
}

impl PomodoroTimer {
    /// Holds of every cycle that exists.
    #[verifier::type_invariant]
    pub open spec fn well_formed(self) -> bool {
        self@.wf()
    }

    /// A cycle at its start: the work phase, nothing elapsed, nothing paused.
    pub fn new() -> (timer: Self)
        ensures
            timer@ == PomodoroView::fresh(),
    {
        PomodoroTimer {
            work_timer: start_timer(WORK_SECS),
            break_timer: start_timer(BREAK_SECS),
            current_state: TimerState::Work,
        }
    }

    /// The phase the cycle is in.
    pub fn get_current_state(&self) -> (state: TimerState)
        ensures
            state == self@.current_state,
    {
        self.current_state
    }

    /// The work countdown.
    pub fn get_work_timer(&self) -> (timer: &PhaseTimer)
        ensures
            timer@ == self@.work_timer,
    {
        &self.work_timer
    }

    /// The break countdown.
    pub fn get_break_timer(&self) -> (timer: &PhaseTimer)
        ensures
            timer@ == self@.break_timer,
    {
        &self.break_timer
    }

    /// Whole seconds left in the work phase, rounded down.
    pub fn get_work_timer_remaining_secs(&self) -> (secs: u64)
        ensures
            secs == self@.remaining(TimerState::Work) / (NANOS_PER_SEC as nat),
    {
        self.work_timer.remaining_secs()
    }

    /// Whole seconds left in the break phase, rounded down.
    pub fn get_break_timer_remaining_secs(&self) -> (secs: u64)
        ensures
            secs == self@.remaining(TimerState::Break) / (NANOS_PER_SEC as nat),
    {
        self.break_timer.remaining_secs()
    }
}

/// Advances the countdown of the current phase by `delta` nanoseconds. When that
/// brings the phase to its end, the countdown starts over, the other phase begins
/// and the phase that ended is announced.
pub fn timer_tick(pomodoro_timer: &mut PomodoroTimer, delta: u64) -> (signal: Option<Completion>)
    ensures
        final(pomodoro_timer)@ == old(pomodoro_timer)@.tick(delta as nat),
        signal == old(pomodoro_timer)@.signal(delta as nat),
{
    proof {
        use_type_invariant(&*pomodoro_timer);
    }
    // The countdown is advanced on a copy and written back when it is settled, so
    // that the cycle itself never holds a countdown that has run out.
    match pomodoro_timer.current_state {
        TimerState::Work => {
            let mut work_timer = pomodoro_timer.work_timer;
            work_timer.advance(delta);
            if work_timer.finished() {
                work_timer.reset();
                pomodoro_timer.work_timer = work_timer;
                pomodoro_timer.current_state = TimerState::Break;
                Some(Completion::Work(WorkDoneEvent))
            } else {
                pomodoro_timer.work_timer = work_timer;
                None
            }
        },
        TimerState::Break => {
            let mut break_timer = pomodoro_timer.break_timer;
            break_timer.advance(delta);
            if break_timer.finished() {
                break_timer.reset();
                pomodoro_timer.break_timer = break_timer;
                pomodoro_timer.current_state = TimerState::Work;
                Some(Completion::Break(BreakDoneEvent))
            } else {
                pomodoro_timer.break_timer = break_timer;
                None
            }
        },
    }
}

/// Pauses the countdown of the current phase if it runs, resumes it if it is
/// paused. The countdown of the other phase is left alone.
pub fn toggle_timer(pomodoro_timer: &mut PomodoroTimer)
    ensures
        final(pomodoro_timer)@ == old(pomodoro_timer)@.toggle_pause(),
{
    proof {
        use_type_invariant(&*pomodoro_timer);
    }
    match pomodoro_timer.current_state {
        TimerState::Work => {
            let mut work_timer = pomodoro_timer.work_timer;
            if work_timer.paused() {
                work_timer.unpause();
            } else {
                work_timer.pause();
            }
            pomodoro_timer.work_timer = work_timer;
        },
        TimerState::Break => {
            let mut break_timer = pomodoro_timer.break_timer;
            if break_timer.paused() {
                break_timer.unpause();
            } else {
                break_timer.pause();
            }
            pomodoro_timer.break_timer = break_timer;
        },
    }
}

/// Whether the countdown of the current phase is paused. With no timer to ask
/// there is no answer, and the error says so.
pub fn get_paused_status(pomodoro_timer: Option<&PomodoroTimer>) -> (status: Result<
    bool,
    &'static str,
>)
    ensures
        match pomodoro_timer {
            Some(timer) => status is Ok && status->Ok_0 == timer@.is_paused(),
            None => status is Err && status->Err_0@ == NO_TIMER_FOUND@,
        },
{
    if let Some(pomodoro_timer) = pomodoro_timer {
        match pomodoro_timer.current_state {
            TimerState::Break => {
                return Ok(pomodoro_timer.break_timer.paused());
            },
            TimerState::Work => {
                return Ok(pomodoro_timer.work_timer.paused());
            },
        }
    }
    Err(NO_TIMER_FOUND)
}

impl PomodoroView {
    /// The cycle after one tick for each of `deltas`, in order.
    pub open spec fn run(self, deltas: Seq<nat>) -> Self
        decreases deltas.len(),
    {
        if deltas.len() == 0 {
            self
        } else {
            self.tick(deltas.first()).run(deltas.drop_first())
        }
    }

    /// The ticks of `deltas` that come after the first one that ends the current
    /// phase; none if no tick ends it.
    pub open spec fn after_completion(self, deltas: Seq<nat>) -> Seq<nat>
        decreases deltas.len(),
    {
        if deltas.len() == 0 {
            deltas
        } else if self.completes(deltas.first()) {
            deltas.drop_first()
        } else {
            self.tick(deltas.first()).after_completion(deltas.drop_first())
        }
    }

    /// How many of the ticks of `deltas` bring a phase to its end.
    pub open spec fn transitions(self, deltas: Seq<nat>) -> nat
        decreases deltas.len(),
    {
        if deltas.len() == 0 {
            0
        } else {
            let here: nat = if self.completes(deltas.first()) {
                1
            } else {
                0
            };
            here + self.tick(deltas.first()).transitions(deltas.drop_first())
        }
    }
}

/// The time that `deltas` add up to.
pub open spec fn total(deltas: Seq<nat>) -> nat
    decreases deltas.len(),
{
    if deltas.len() == 0 {
        0
    } else {
        deltas.first() + total(deltas.drop_first())
    }
}

/// A cycle at its start is one that can exist.
pub proof fn lemma_fresh_wf()
    ensures
        PomodoroView::fresh().wf(),
{
}

/// A tick leads from a cycle that can exist to one that can exist.
pub proof fn lemma_tick_keeps_wf(cycle: PomodoroView, delta: nat)
    requires
        cycle.wf(),
    ensures
        cycle.tick(delta).wf(),
{
}

/// Pausing or resuming leads from a cycle that can exist to one that can exist.
pub proof fn lemma_toggle_pause_keeps_wf(cycle: PomodoroView)
    requires
        cycle.wf(),
    ensures
        cycle.toggle_pause().wf(),
{
}

/// Time moves the countdown of the current phase only: across a tick the other
/// countdown stays exactly as it was.
pub proof fn lemma_tick_leaves_idle_alone(cycle: PomodoroView, delta: nat)
    ensures
        cycle.tick(delta).timer(cycle.current_state.other()) == cycle.idle(),
{
}

/// A tick either ends the current phase, and then the cycle is in the other
/// phase with the countdown that ran out started over, or it stays in its phase.
/// No tick, however long, ends more than one phase.
pub proof fn lemma_tick_transitions_at_most_once(cycle: PomodoroView, delta: nat)
    requires
        cycle.wf(),
    ensures
        cycle.completes(delta) ==> {
            &&& cycle.tick(delta).current_state == cycle.current_state.other()
            &&& cycle.tick(delta).timer(cycle.current_state).elapsed == 0
            &&& cycle.tick(delta).active().elapsed == 0
        },
        !cycle.completes(delta) ==> cycle.tick(delta).current_state == cycle.current_state,
{
}

/// While the current phase is paused, a tick of any length changes nothing and
/// announces nothing.
pub proof fn lemma_paused_tick_changes_nothing(cycle: PomodoroView, delta: nat)
    requires
        cycle.wf(),
        cycle.is_paused(),
    ensures
        cycle.tick(delta) == cycle,
        cycle.signal(delta) is None,
{
}

/// Pausing a running cycle and then ticking by any `delta` leaves the time that
/// remains in the current phase as it was; resuming afterwards puts the cycle
/// back where it stood, so that the next tick advances it as if there had been
/// no pause.
pub proof fn lemma_pause_holds_remaining(cycle: PomodoroView, delta: nat, later: nat)
    requires
        cycle.wf(),
        !cycle.is_paused(),
    ensures
        cycle.toggle_pause().is_paused(),
        cycle.toggle_pause().tick(delta).remaining(cycle.current_state) == cycle.remaining(
            cycle.current_state,
        ),
        cycle.toggle_pause().tick(delta).current_state == cycle.current_state,
        cycle.toggle_pause().tick(delta).toggle_pause() == cycle,
        cycle.toggle_pause().tick(delta).toggle_pause().tick(later) == cycle.tick(later),
{
    lemma_toggle_pause_keeps_wf(cycle);
    lemma_paused_tick_changes_nothing(cycle.toggle_pause(), delta);
    lemma_toggle_pause_twice(cycle);
}

/// Toggling the pause twice, with no tick in between, restores the cycle.
pub proof fn lemma_toggle_pause_twice(cycle: PomodoroView)
    ensures
        cycle.toggle_pause().toggle_pause() == cycle,
        cycle.toggle_pause().is_paused() == !cycle.is_paused(),
{
}

/// Ticks that together do not reach the end of the current phase end no phase:
/// the countdown of the current phase has moved by their sum, or not at all if
/// it is paused.
pub proof fn lemma_short_run_stays(cycle: PomodoroView, deltas: Seq<nat>)
    requires
        cycle.wf(),
        cycle.is_paused() || cycle.active().elapsed + total(deltas) < cycle.active().duration,
    ensures
        cycle.transitions(deltas) == 0,
        cycle.run(deltas) == cycle.with_timer(
            cycle.current_state,
            cycle.active().advance(total(deltas)),
        ),
    decreases deltas.len(),
{
    if deltas.len() > 0 {
        lemma_short_run_stays(cycle.tick(deltas.first()), deltas.drop_first());
    }
}

/// Of ticks on a running cycle, the ones that come after the tick that ends
/// the current phase last no longer than the time by which all of them together
/// run past the end of the phase.
pub proof fn lemma_after_completion_is_short(cycle: PomodoroView, deltas: Seq<nat>)
    requires
        cycle.wf(),
        !cycle.is_paused(),
        cycle.active().elapsed + total(deltas) >= cycle.active().duration,
    ensures
        cycle.active().duration + total(cycle.after_completion(deltas)) <= cycle.active().elapsed
            + total(deltas),
    decreases deltas.len(),
{
    if !cycle.completes(deltas.first()) {
        lemma_after_completion_is_short(cycle.tick(deltas.first()), deltas.drop_first());
    }
}

/// Ticks on a running cycle that together reach the end of the current phase
/// end that phase. They end no second phase exactly if the ticks that come after
/// the end of the phase stay below the length of the next phase; the cycle is
/// then in the other phase and the countdown that ran out has started over.
pub proof fn lemma_long_run_transitions(cycle: PomodoroView, deltas: Seq<nat>)
    requires
        cycle.wf(),
        !cycle.is_paused(),
        cycle.active().elapsed + total(deltas) >= cycle.active().duration,
    ensures
        cycle.transitions(deltas) >= 1,
        cycle.transitions(deltas) == 1 <==> total(cycle.after_completion(deltas))
            < cycle.idle().duration,
        cycle.transitions(deltas) == 1 ==> {
            &&& cycle.run(deltas).current_state == cycle.current_state.other()
            &&& cycle.run(deltas).timer(cycle.current_state) == cycle.active().reset()
        },
    decreases deltas.len(),
{
    let next = cycle.tick(deltas.first());
    let rest = deltas.drop_first();
    if cycle.completes(deltas.first()) {
        if total(rest) < next.active().duration {
            lemma_short_run_stays(next, rest);
        } else {
            lemma_long_run_transitions(next, rest);
        }
    } else {
        lemma_long_run_transitions(next, rest);
    }
}

/// Ticks on a running cycle that add up to exactly the duration of the current
/// phase end that phase once and no other: the cycle is in the other phase and
/// the countdown that ran out is back at zero. This asks that the ticks after
/// the end of the phase stay below the length of the next phase, which
/// [`lemma_one_duration_from_the_start`] shows of every cycle at the start of
/// its phase.
pub proof fn lemma_one_duration_transitions_once(cycle: PomodoroView, deltas: Seq<nat>)
    requires
        cycle.wf(),
        !cycle.is_paused(),
        total(deltas) == cycle.active().duration,
        total(cycle.after_completion(deltas)) < cycle.idle().duration,
    ensures
        cycle.transitions(deltas) == 1,
        cycle.run(deltas).current_state == cycle.current_state.other(),
        cycle.run(deltas).timer(cycle.current_state).elapsed == 0,
{
    lemma_long_run_transitions(cycle, deltas);
}

/// On a running cycle whose current countdown stands below the length of the
/// other phase, as it does at the start of its phase, ticks that add up to the
/// duration of the current phase leave less than the other phase over.
pub proof fn lemma_one_duration_from_the_start(cycle: PomodoroView, deltas: Seq<nat>)
    requires
        cycle.wf(),
        !cycle.is_paused(),
        total(deltas) == cycle.active().duration,
        cycle.active().elapsed < cycle.idle().duration,
    ensures
        total(cycle.after_completion(deltas)) < cycle.idle().duration,
{
    lemma_after_completion_is_short(cycle, deltas);
}

} // verus!
