//! Pomodoro: a work/break countdown and the score it earns.
//!
//! A cycle alternates between a work phase of 25 minutes and a break of 5. Each
//! phase has its own countdown; time moves the countdown of the current phase
//! only, and a countdown that runs out starts over while the other phase begins.
//! Once per accrual the workers in service raise the score, unless the countdown
//! of the current phase is paused.

pub mod phase_timer;
pub mod score;
pub mod timer;
pub mod ui;
pub mod worker;
pub mod worker_agent;
