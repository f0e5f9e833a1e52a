//! The score: a counter that the workers in service raise once per accrual,
//! as long as the countdown of the current phase runs.

use crate::timer::{PomodoroTimer, TimerState};
use crate::worker_agent::WorkerAgent;
use vstd::prelude::*;

verus! {

/// The score of a run. It starts at 0 and only ever goes up.
pub struct Score(pub u64);

impl View for Score {
    type V = nat;

    open spec fn view(&self) -> nat {
        self.0 as nat
    }
}

/// The score after one accrual: a paused countdown earns nothing, a running one
/// earns what the workers in service add together.
pub open spec fn accrue(value: nat, paused: bool, multiplier_sum: nat) -> nat {
    if paused {
        value
    } else {
        value + multiplier_sum
    }
}

impl Score {
    /// The score at the start of a run.
    pub fn new() -> (score: Self)
        ensures
            score@ == 0,
    {
        Score(0)
    }

    /// The score itself.
    pub fn get_score(&self) -> (score: &Score)
        ensures
            score == self,
    {
        self
    }

    /// The number the score stands at.
    pub fn get_score_value(&self) -> (value: u64)
        ensures
            value == self@,
    {
        self.0
    }
}

/// One accrual: raises the score by what the workers in service add together,
/// unless the countdown of the current phase is paused.
pub fn increment_score_if_unpaused(
    score: &mut Score,
    pomodoro_timer: &PomodoroTimer,
    worker_agent: &WorkerAgent,
)
    requires
        accrue(old(score)@, pomodoro_timer@.is_paused(), worker_agent@.multiplier_sum())
            <= u64::MAX,
    ensures
        final(score)@ == accrue(
            old(score)@,
            pomodoro_timer@.is_paused(),
            worker_agent@.multiplier_sum(),
        ),
        final(score)@ >= old(score)@,
{
    let total_worker_score: u128 = worker_agent.acquired_multiplier_sum();

    // Only the countdown of the current phase decides.
    match pomodoro_timer.get_current_state() {
        TimerState::Break => {
            if !pomodoro_timer.get_break_timer().paused() {
                increase_score(score, total_worker_score as u64)
            }
        },
        TimerState::Work => {
            if !pomodoro_timer.get_work_timer().paused() {
                increase_score(score, total_worker_score as u64)
            }
        },
    }
}

/// Raises the score by `value`.
pub fn increase_score(score: &mut Score, value: u64)
    requires
        old(score)@ + value <= u64::MAX,
    ensures
        final(score)@ == old(score)@ + value,
{
    score.0 += value;
}

/// What one accrual finds: whether the countdown of the current phase is
/// paused, and what the workers in service add together.
pub struct Accrual {
    pub paused: bool,
    pub multiplier_sum: nat,
}

/// The score after the accruals in `accruals`, in order.
pub open spec fn accrue_all(value: nat, accruals: Seq<Accrual>) -> nat
    decreases accruals.len(),
{
    if accruals.len() == 0 {
        value
    } else {
        accrue(
            accrue_all(value, accruals.drop_last()),
            accruals.last().paused,
            accruals.last().multiplier_sum,
        )
    }
}

/// The score never goes down: over any sequence of accruals, the score after
/// more of them is at least the score after fewer, and none is below the score
/// that the sequence started from.
pub proof fn lemma_score_never_decreases(value: nat, accruals: Seq<Accrual>, i: int, j: int)
    requires
        0 <= i <= j <= accruals.len(),
    ensures
        value <= accrue_all(value, accruals.take(i)),
        accrue_all(value, accruals.take(i)) <= accrue_all(value, accruals.take(j)),
    decreases j,
{
    if 0 < j {
        if i < j {
            lemma_score_never_decreases(value, accruals, i, j - 1);
        } else {
            lemma_score_never_decreases(value, accruals, i - 1, j - 1);
        }
        assert(accruals.take(j).drop_last() =~= accruals.take(j - 1));
    }
}

} // verus!
