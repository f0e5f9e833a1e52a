//! What the screen shows of the cycle and what a press of the pause button does
//! to it. Drawing is left to the caller.

use crate::phase_timer::NANOS_PER_SEC;
use crate::timer::{get_paused_status, toggle_timer, PomodoroTimer, TimerState, NO_TIMER_FOUND};
use vstd::prelude::*;

verus! {

/// The button's caption while the countdown runs.
pub const PAUSE_LABEL: &'static str = "Pause";

/// The button's caption while the countdown is paused.
pub const UNPAUSE_LABEL: &'static str = "Unpause";

/// What the pointer does to the pause button.
#[derive(Clone, Copy, Debug, PartialEq, Eq)]
pub enum Interaction {
    Pressed,
    Hovered,
    Idle,
}

/// The caption that goes with a pause flag.
pub open spec fn label_for(paused: bool) -> Seq<char> {
    if paused {
        UNPAUSE_LABEL@
    } else {
        PAUSE_LABEL@
    }
}

/// Answers one interaction with the pause button. The caption names what a
/// press would do to the countdown as it stood when the interaction arrived.
/// A press then toggles the pause; hovering and idling change nothing. With no
/// timer there is nothing to caption, and the error says so.
pub fn button_system(interaction: Interaction, pomodoro_timer: Option<&mut PomodoroTimer>) -> (label:
    Result<&'static str, &'static str>)
    ensures
        match pomodoro_timer {
            Some(timer) => {
                &&& label is Ok
                &&& label->Ok_0@ == label_for(timer@.is_paused())
                &&& final(timer)@ == if interaction is Pressed {
                    timer@.toggle_pause()
                } else {
                    timer@
                }
            },
            None => label is Err && label->Err_0@ == NO_TIMER_FOUND@,
        },
{
    match pomodoro_timer {
        Some(timer) => {
            let paused = get_paused_status(Some(&*timer))?;
            match interaction {
                Interaction::Pressed => {
                    toggle_timer(timer);
                },
                Interaction::Hovered => {},
                Interaction::Idle => {},
            }
            Ok(if paused { UNPAUSE_LABEL } else { PAUSE_LABEL })
        },
        None => Err(NO_TIMER_FOUND),
    }
}

/// Minutes and seconds as a clock shows them.
#[derive(Clone, Copy, Debug, PartialEq, Eq)]
pub struct ClockFace {
    pub minutes: u64,
    pub seconds: u64,
}

/// Splits whole seconds into the minutes and seconds of a clock face.
pub fn clock_face(remaining_secs: u64) -> (face: ClockFace)
    ensures
        face.minutes == remaining_secs / 60,
        face.seconds == remaining_secs % 60,
{
    ClockFace { minutes: remaining_secs / 60, seconds: remaining_secs % 60 }
}

/// What the clock of the break phase shows: the time left in it, in whole
/// seconds rounded down.
pub fn break_text_update_system(pomodoro_timer: &PomodoroTimer) -> (face: ClockFace)
    ensures
        face.minutes == pomodoro_timer@.remaining(TimerState::Break) / (NANOS_PER_SEC as nat) / 60,
        face.seconds == pomodoro_timer@.remaining(TimerState::Break) / (NANOS_PER_SEC as nat) % 60,
{
    clock_face(pomodoro_timer.get_break_timer_remaining_secs())
}

/// What the clock of the work phase shows: the time left in it, in whole
/// seconds rounded down.
pub fn work_text_update_system(pomodoro_timer: &PomodoroTimer) -> (face: ClockFace)
    ensures
        face.minutes == pomodoro_timer@.remaining(TimerState::Work) / (NANOS_PER_SEC as nat) / 60,
        face.seconds == pomodoro_timer@.remaining(TimerState::Work) / (NANOS_PER_SEC as nat) % 60,
{
    clock_face(pomodoro_timer.get_work_timer_remaining_secs())
}

} // verus!
