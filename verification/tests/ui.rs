use pomodoro::phase_timer::NANOS_PER_SEC;
use pomodoro::timer::{get_paused_status, timer_tick, PomodoroTimer, TimerState};
use pomodoro::ui::{
    break_text_update_system, button_system, clock_face, work_text_update_system, ClockFace,
    Interaction, PAUSE_LABEL, UNPAUSE_LABEL,
};

#[test]
fn labels_read_pause_and_unpause() {
    assert_eq!(PAUSE_LABEL, "Pause");
    assert_eq!(UNPAUSE_LABEL, "Unpause");
}

#[test]
fn press_toggles_and_captions_the_state_it_found() {
    let mut timer = PomodoroTimer::new();
    assert_eq!(button_system(Interaction::Pressed, Some(&mut timer)), Ok("Pause"));
    assert_eq!(get_paused_status(Some(&timer)), Ok(true));
    assert_eq!(button_system(Interaction::Pressed, Some(&mut timer)), Ok("Unpause"));
    assert_eq!(get_paused_status(Some(&timer)), Ok(false));
}

#[test]
fn hover_and_idle_caption_without_touching_the_timer() {
    let mut timer = PomodoroTimer::new();
    timer_tick(&mut timer, 5);
    assert_eq!(button_system(Interaction::Hovered, Some(&mut timer)), Ok("Pause"));
    assert_eq!(button_system(Interaction::Idle, Some(&mut timer)), Ok("Pause"));
    assert_eq!(get_paused_status(Some(&timer)), Ok(false));
    assert_eq!(timer.get_work_timer().elapsed(), 5);

    button_system(Interaction::Pressed, Some(&mut timer)).unwrap();
    assert_eq!(button_system(Interaction::Hovered, Some(&mut timer)), Ok("Unpause"));
    assert_eq!(button_system(Interaction::Idle, Some(&mut timer)), Ok("Unpause"));
    assert_eq!(get_paused_status(Some(&timer)), Ok(true));
    assert_eq!(timer.get_current_state(), TimerState::Work);
    assert_eq!(timer.get_work_timer().elapsed(), 5);
}

#[test]
fn button_without_a_timer_is_an_error() {
    assert_eq!(button_system(Interaction::Pressed, None), Err("No timer found"));
    assert_eq!(button_system(Interaction::Hovered, None), Err("No timer found"));
    assert_eq!(button_system(Interaction::Idle, None), Err("No timer found"));
}

#[test]
fn clock_face_splits_minutes_and_seconds() {
    assert_eq!(clock_face(1500), ClockFace { minutes: 25, seconds: 0 });
    assert_eq!(clock_face(1499), ClockFace { minutes: 24, seconds: 59 });
    assert_eq!(clock_face(300), ClockFace { minutes: 5, seconds: 0 });
    assert_eq!(clock_face(61), ClockFace { minutes: 1, seconds: 1 });
    assert_eq!(clock_face(59), ClockFace { minutes: 0, seconds: 59 });
    assert_eq!(clock_face(0), ClockFace { minutes: 0, seconds: 0 });
    assert_eq!(
        clock_face(u64::MAX),
        ClockFace { minutes: 307_445_734_561_825_860, seconds: 15 }
    );
}

#[test]
fn clocks_show_the_time_left_in_each_phase() {
    let mut timer = PomodoroTimer::new();
    assert_eq!(work_text_update_system(&timer), ClockFace { minutes: 25, seconds: 0 });
    assert_eq!(break_text_update_system(&timer), ClockFace { minutes: 5, seconds: 0 });
    timer_tick(&mut timer, 1);
    assert_eq!(work_text_update_system(&timer), ClockFace { minutes: 24, seconds: 59 });
    timer_tick(&mut timer, 60 * NANOS_PER_SEC);
    assert_eq!(work_text_update_system(&timer), ClockFace { minutes: 23, seconds: 59 });
    assert_eq!(break_text_update_system(&timer), ClockFace { minutes: 5, seconds: 0 });
    timer_tick(&mut timer, 1500 * NANOS_PER_SEC);
    timer_tick(&mut timer, 90 * NANOS_PER_SEC + 5);
    assert_eq!(work_text_update_system(&timer), ClockFace { minutes: 25, seconds: 0 });
    assert_eq!(break_text_update_system(&timer), ClockFace { minutes: 3, seconds: 29 });
}
