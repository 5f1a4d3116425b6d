use focus_timer::app::App;
use focus_timer::session::{Session, SessionType};
use std::time::Duration;

const MS: u64 = 1_000_000;

fn millis(nanos: u64) -> u128 {
    Duration::from_nanos(nanos).as_millis()
}

#[test]
fn app_is_in_focus_mode_given_app_start_up() {
    let mut app = App::new();
    app.start();
    let current_mode = app.current_session_type();
    assert_eq!(current_mode, SessionType::Focus);
}

#[test]
fn session_time_increases_given_time_passes() {
    let mut app = App::new();
    app.start_at(0);
    let duration = app.get_current_session_duration_at(MS).unwrap();
    assert!(millis(duration) > 0);
}

#[test]
fn session_type_total_time_keeps_increases_given_being_paused_and_restarted() {
    let mut app = App::new();
    app.start_at(0);
    app.pause_at(MS);
    app.start_at(2 * MS);
    let duration = app
        .get_session_type_total_duration_at(app.current_session_type(), 3 * MS)
        .unwrap();
    assert!(millis(duration) == 2);
}

#[test]
fn session_type_total_time_does_not_increase_given_it_is_paused() {
    let mut app = App::new();
    app.start_at(0);
    app.pause_at(0);
    let duration = app.get_current_session_duration_at(MS).unwrap();
    assert!(millis(duration) == 0);
}

#[test]
fn session_type_total_time_does_not_increase_given_a_different_session_type_time_is_increasing() {
    let mut app = App::new();
    app.start_at(0);
    app.change_session_type_at(SessionType::Rest, MS);
    let duration = app
        .get_session_type_total_duration_at(SessionType::Focus, 3 * MS)
        .unwrap();
    assert!(millis(duration) == 1);
}

#[test]
fn new_tracker_is_paused_in_focus_with_nothing_recorded() {
    let app = App::new();
    assert!(app.is_paused());
    assert_eq!(app.current_session_type(), SessionType::Focus);
    assert_eq!(app.get_current_session_duration_at(5 * MS), None);
    assert_eq!(app.get_session_type_total_duration_at(SessionType::Focus, 5 * MS), Some(0));
    assert_eq!(app.get_session_type_total_duration_at(SessionType::Rest, 5 * MS), Some(0));
}

#[test]
fn starting_twice_is_starting_once() {
    let mut once = App::new();
    once.start_at(10 * MS);
    let mut twice = App::new();
    twice.start_at(10 * MS);
    twice.start_at(15 * MS);
    assert_eq!(once.is_paused(), twice.is_paused());
    assert_eq!(
        once.get_current_session_duration_at(30 * MS),
        twice.get_current_session_duration_at(30 * MS)
    );
    assert_eq!(twice.get_current_session_duration_at(30 * MS), Some(20 * MS));
    assert_eq!(
        twice.get_session_type_total_duration_at(SessionType::Focus, 30 * MS),
        Some(20 * MS)
    );
}

#[test]
fn pausing_twice_is_pausing_once() {
    let mut once = App::new();
    once.start_at(0);
    once.pause_at(7 * MS);
    let mut twice = App::new();
    twice.start_at(0);
    twice.pause_at(7 * MS);
    twice.pause_at(9 * MS);
    assert!(twice.is_paused());
    assert_eq!(twice.get_current_session_duration_at(50 * MS), Some(7 * MS));
    assert_eq!(
        once.get_current_session_duration_at(51 * MS),
        twice.get_current_session_duration_at(51 * MS)
    );
}

#[test]
fn elapsed_starts_counting_after_start() {
    let mut app = App::new();
    app.start_at(100 * MS);
    let d = app.get_current_session_duration_at(120 * MS).unwrap();
    assert!(d > 0);
    assert_eq!(d, 20 * MS);
}

#[test]
fn pause_freezes_current_elapsed() {
    let mut app = App::new();
    app.start_at(0);
    app.pause_at(20 * MS);
    let d = app.get_current_session_duration_at(20 * MS);
    assert_eq!(app.get_current_session_duration_at(120 * MS), d);
    assert_eq!(d, Some(20 * MS));
}

#[test]
fn resume_accumulates_across_pause() {
    let mut app = App::new();
    app.start_at(0);
    app.pause_at(20 * MS);
    app.start_at(500 * MS);
    app.pause_at(520 * MS);
    let total = app
        .get_session_type_total_duration_at(SessionType::Focus, 900 * MS)
        .unwrap();
    assert_eq!(total, 40 * MS);
    assert_eq!(app.get_current_session_duration_at(900 * MS), Some(20 * MS));
}

#[test]
fn switching_mode_stops_the_previous_total() {
    let mut app = App::new();
    app.start_at(0);
    app.change_session_type_at(SessionType::Rest, 20 * MS);
    let focus = app.get_session_type_total_duration_at(SessionType::Focus, 40 * MS);
    assert_eq!(focus, Some(20 * MS));
    assert_eq!(app.get_session_type_total_duration_at(SessionType::Focus, 400 * MS), focus);
    assert_eq!(
        app.get_session_type_total_duration_at(SessionType::Rest, 40 * MS),
        Some(20 * MS)
    );
}

#[test]
fn rest_time_is_not_counted_as_focus() {
    let mut app = App::new();
    app.start_at(0);
    app.change_session_type_at(SessionType::Rest, 10 * MS);
    app.pause_at(30 * MS);
    app.start_at(40 * MS);
    app.change_session_type_at(SessionType::Focus, 70 * MS);
    assert_eq!(
        app.get_session_type_total_duration_at(SessionType::Focus, 75 * MS),
        Some(15 * MS)
    );
    assert_eq!(
        app.get_session_type_total_duration_at(SessionType::Rest, 75 * MS),
        Some(50 * MS)
    );
}

#[test]
fn switching_while_paused_resumes_in_new_mode() {
    let mut app = App::new();
    app.change_session_type_at(SessionType::Rest, 5 * MS);
    assert!(!app.is_paused());
    assert_eq!(app.current_session_type(), SessionType::Rest);
    assert_eq!(app.get_current_session_duration_at(8 * MS), Some(3 * MS));
    assert_eq!(
        app.get_session_type_total_duration_at(SessionType::Focus, 8 * MS),
        Some(0)
    );
}

#[test]
fn switching_to_active_mode_keeps_the_interval() {
    let mut app = App::new();
    app.start_at(0);
    app.change_session_type_at(SessionType::Focus, 30 * MS);
    assert_eq!(app.get_current_session_duration_at(50 * MS), Some(50 * MS));
    assert_eq!(
        app.get_session_type_total_duration_at(SessionType::Focus, 50 * MS),
        Some(50 * MS)
    );
}

#[test]
fn toggle_pause_alternates() {
    let mut app = App::new();
    app.toggle_pause_at(0);
    assert!(!app.is_paused());
    app.toggle_pause_at(4 * MS);
    assert!(app.is_paused());
    app.toggle_pause_at(10 * MS);
    assert!(!app.is_paused());
    assert_eq!(
        app.get_session_type_total_duration_at(SessionType::Focus, 12 * MS),
        Some(6 * MS)
    );
}

#[test]
fn clock_going_backwards_counts_as_zero() {
    let mut app = App::new();
    app.start_at(100 * MS);
    app.pause_at(50 * MS);
    assert_eq!(app.get_current_session_duration_at(200 * MS), Some(0));
    app.start_at(300 * MS);
    assert_eq!(app.get_current_session_duration_at(250 * MS), Some(0));
    assert_eq!(
        app.get_session_type_total_duration_at(SessionType::Focus, 250 * MS),
        Some(0)
    );
}

#[test]
fn total_saturates_at_the_largest_duration() {
    let mut app = App::new();
    app.start_at(0);
    app.pause_at(u64::MAX);
    app.start_at(0);
    assert_eq!(
        app.get_session_type_total_duration_at(SessionType::Focus, 10),
        Some(u64::MAX)
    );
}

#[test]
fn clock_reading_commands_run_the_tracker() {
    let mut app = App::new();
    app.start();
    assert!(!app.is_paused());
    assert!(app.get_current_session_duration().is_some());
    app.change_session_type(SessionType::Rest);
    assert_eq!(app.current_session_type(), SessionType::Rest);
    app.toggle_pause();
    assert!(app.is_paused());
    let frozen = app.get_current_session_duration();
    assert_eq!(app.get_current_session_duration(), frozen);
    app.pause();
    assert!(app.is_paused());
    assert!(app.get_session_type_total_duration(SessionType::Focus).is_some());
}

#[test]
fn session_reads_the_clock() {
    let session = Session::new();
    assert!(session.end.is_none());
    assert!(session.start > 0);
    let later = Session::new();
    assert!(later.start >= session.start);
    assert_eq!(Session::new_at(5).duration_at(9), 4);
}

#[test]
fn mode_names() {
    assert_eq!(SessionType::Focus.name(), "Focus");
    assert_eq!(SessionType::Rest.name(), "Rest");
}
