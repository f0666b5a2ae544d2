use pomodoro_timer::{Config, NotificationKind, SessionInfo, Timer, TimerState};

fn test_config() -> Config {
    Config {
        work_duration: 25,
        short_break_duration: 5,
        long_break_duration: 15,
        sessions_until_long_break: 4,
        enable_notifications: true,
        auto_start_breaks: false,
        auto_start_work: false,
    }
}

fn fresh_timer() -> Timer {
    Timer::new(SessionInfo::new(), test_config())
}

#[test]
fn start_work_fills_drained_counter() {
    let mut timer = fresh_timer();
    timer.start_work();
    assert_eq!(timer.session_info.current_state, TimerState::Working);
    assert!(timer.session_info.is_focus_mode);
    assert_eq!(timer.session_info.time_remaining_secs, 25 * 60);
    // a partially used counter is kept
    timer.session_info.current_state = TimerState::Idle;
    timer.session_info.time_remaining_secs = 100;
    timer.start_work();
    assert_eq!(timer.session_info.time_remaining_secs, 100);
}

#[test]
fn start_short_break_fills_rest_counter() {
    let mut timer = fresh_timer();
    timer.start_short_break();
    assert_eq!(timer.session_info.current_state, TimerState::ShortBreak);
    assert!(!timer.session_info.is_focus_mode);
    assert_eq!(timer.session_info.rest_time_remaining_secs, 5 * 60);
}

#[test]
fn start_long_break_sets_rest_counter() {
    let mut timer = fresh_timer();
    timer.session_info.rest_time_remaining_secs = 42;
    timer.start_long_break();
    assert_eq!(timer.session_info.current_state, TimerState::LongBreak);
    assert_eq!(timer.session_info.rest_time_remaining_secs, 15 * 60);
}

#[test]
fn pause_resume_keep_counters() {
    let mut timer = fresh_timer();
    timer.start_work();
    timer.session_info.time_remaining_secs = 1234;
    timer.session_info.rest_time_remaining_secs = 77;
    timer.pause();
    assert_eq!(timer.session_info.current_state, TimerState::WorkPaused);
    assert_eq!(timer.session_info.time_remaining_secs, 1234);
    assert_eq!(timer.session_info.rest_time_remaining_secs, 77);
    timer.resume();
    assert_eq!(timer.session_info.current_state, TimerState::Working);
    assert_eq!(timer.session_info.time_remaining_secs, 1234);
    assert_eq!(timer.session_info.rest_time_remaining_secs, 77);
    timer.pause();
    timer.resume();
    timer.pause();
    assert_eq!(timer.session_info.time_remaining_secs, 1234);
    assert_eq!(timer.session_info.rest_time_remaining_secs, 77);
}

#[test]
fn pause_twice_is_pause_once() {
    let mut timer = fresh_timer();
    timer.start_work();
    timer.session_info.time_remaining_secs = 500;
    timer.pause();
    let state_after_one = timer.session_info.current_state;
    let counter_after_one = timer.session_info.time_remaining_secs;
    timer.pause();
    assert_eq!(timer.session_info.current_state, state_after_one);
    assert_eq!(timer.session_info.time_remaining_secs, counter_after_one);
}

#[test]
fn pause_while_idle_is_noop() {
    let mut timer = fresh_timer();
    let before = timer.session_info.last_updated;
    timer.pause();
    assert_eq!(timer.session_info.current_state, TimerState::Idle);
    assert_eq!(timer.session_info.last_updated, before);
    timer.resume();
    assert_eq!(timer.session_info.current_state, TimerState::Idle);
}

#[test]
fn reset_refills_active_track() {
    let mut timer = fresh_timer();
    timer.start_work();
    timer.session_info.time_remaining_secs = 3;
    timer.reset();
    assert_eq!(timer.session_info.current_state, TimerState::Idle);
    assert_eq!(timer.session_info.time_remaining_secs, 25 * 60);
    assert!(timer.session_info.is_focus_mode);

    timer.start_short_break();
    timer.session_info.rest_time_remaining_secs = 9;
    timer.reset();
    assert_eq!(timer.session_info.current_state, TimerState::Idle);
    assert_eq!(timer.session_info.rest_time_remaining_secs, 5 * 60);
    assert!(!timer.session_info.is_focus_mode);
}

#[test]
fn cycle_advance_to_long_break() {
    let mut timer = fresh_timer();
    timer.session_info.current_state = TimerState::Working;
    timer.session_info.current_session = 4;
    timer.session_info.completed_sessions = 7;
    timer.skip_to_next();
    assert_eq!(timer.session_info.current_state, TimerState::LongBreak);
    assert_eq!(timer.session_info.current_session, 1);
    assert_eq!(timer.session_info.completed_sessions, 8);
    assert_eq!(timer.session_info.rest_time_remaining_secs, 15 * 60);
}

#[test]
fn cycle_advance_to_short_break() {
    let mut timer = fresh_timer();
    timer.session_info.current_state = TimerState::Working;
    timer.session_info.current_session = 2;
    timer.skip_to_next();
    assert_eq!(timer.session_info.current_state, TimerState::ShortBreak);
    assert_eq!(timer.session_info.current_session, 3);
    assert_eq!(timer.session_info.completed_sessions, 1);
    assert_eq!(timer.session_info.rest_time_remaining_secs, 5 * 60);
}

#[test]
fn cycle_advance_from_break_and_idle() {
    let mut timer = fresh_timer();
    timer.session_info.current_state = TimerState::BreakPaused;
    timer.skip_to_next();
    assert_eq!(timer.session_info.current_state, TimerState::Working);
    assert_eq!(timer.session_info.time_remaining_secs, 25 * 60);

    let mut timer2 = fresh_timer();
    timer2.session_info.current_session = 3;
    timer2.skip_to_next();
    assert_eq!(timer2.session_info.current_state, TimerState::Working);
    assert_eq!(timer2.session_info.current_session, 1);
    assert_eq!(timer2.session_info.time_remaining_secs, 25 * 60);
}

#[test]
fn toggle_cycles_idle_running_paused() {
    let mut timer = fresh_timer();
    timer.toggle();
    assert_eq!(timer.session_info.current_state, TimerState::Working);
    timer.toggle();
    assert_eq!(timer.session_info.current_state, TimerState::WorkPaused);
    timer.toggle();
    assert_eq!(timer.session_info.current_state, TimerState::Working);
}

#[test]
fn toggle_starts_rest_track_when_not_focused() {
    let mut timer = fresh_timer();
    timer.session_info.is_focus_mode = false;
    timer.toggle();
    assert_eq!(timer.session_info.current_state, TimerState::ShortBreak);
    assert_eq!(timer.session_info.rest_time_remaining_secs, 5 * 60);
}

#[test]
fn tick_decrements_only_active_counter() {
    let mut timer = fresh_timer();
    timer.session_info.current_state = TimerState::Working;
    timer.session_info.time_remaining_secs = 10;
    timer.session_info.rest_time_remaining_secs = 99;
    let (was_running, just_completed) = timer.tick();
    assert!(was_running);
    assert!(!just_completed);
    assert_eq!(timer.session_info.time_remaining_secs, 9);
    assert_eq!(timer.session_info.rest_time_remaining_secs, 99);
}

#[test]
fn tick_on_rest_track() {
    let mut timer = fresh_timer();
    timer.session_info.current_state = TimerState::ShortBreak;
    timer.session_info.time_remaining_secs = 10;
    timer.session_info.rest_time_remaining_secs = 2;
    let (was_running, just_completed) = timer.tick();
    assert!(was_running);
    assert!(!just_completed);
    assert_eq!(timer.session_info.rest_time_remaining_secs, 1);
    assert_eq!(timer.session_info.time_remaining_secs, 10);
}

#[test]
fn tick_floors_at_zero() {
    let mut timer = fresh_timer();
    timer.session_info.current_state = TimerState::Working;
    timer.session_info.time_remaining_secs = 0;
    let (was_running, just_completed) = timer.tick();
    assert!(was_running);
    assert!(!just_completed);
    assert_eq!(timer.session_info.time_remaining_secs, 0);
}

#[test]
fn tick_while_paused_changes_nothing() {
    let mut timer = fresh_timer();
    timer.session_info.current_state = TimerState::WorkPaused;
    timer.session_info.time_remaining_secs = 10;
    let (was_running, just_completed) = timer.tick();
    assert!(!was_running);
    assert!(!just_completed);
    assert_eq!(timer.session_info.time_remaining_secs, 10);
}

#[test]
fn completion_fires_exactly_once() {
    let mut timer = fresh_timer();
    timer.session_info.current_state = TimerState::Working;
    timer.session_info.time_remaining_secs = 1;
    let (was_running, just_completed) = timer.tick();
    assert!(was_running);
    assert!(just_completed);
    assert_eq!(timer.session_info.time_remaining_secs, 0);
    let kind = timer.complete();
    assert_eq!(kind, Some(NotificationKind::WorkComplete));
    assert_eq!(timer.session_info.current_state, TimerState::Idle);
    // the next tick finds an idle timer: the protocol cannot fire again
    let (was_running2, just_completed2) = timer.tick();
    assert!(!was_running2);
    assert!(!just_completed2);
}

#[test]
fn completion_kinds_per_state() {
    let mut timer = fresh_timer();
    timer.session_info.current_state = TimerState::ShortBreak;
    assert_eq!(timer.complete(), Some(NotificationKind::BreakComplete));
    timer.session_info.current_state = TimerState::LongBreak;
    assert_eq!(timer.complete(), Some(NotificationKind::LongBreakComplete));
    timer.session_info.current_state = TimerState::WorkPaused;
    assert_eq!(timer.complete(), None);
}

#[test]
fn completion_silent_when_notifications_disabled() {
    let mut config = test_config();
    config.enable_notifications = false;
    let mut timer = Timer::new(SessionInfo::new(), config);
    timer.session_info.current_state = TimerState::Working;
    assert_eq!(timer.complete(), None);
    assert_eq!(timer.session_info.current_state, TimerState::Idle);
}

#[test]
fn new_timer_resets_and_relabels() {
    let mut timer = fresh_timer();
    timer.start_work();
    timer.session_info.history_index = None;
    timer.session_info.add_to_history("a".to_string(), String::new(), 5, "Work Session".to_string());
    timer.session_info.navigate_history_prev();
    let old_id = timer.session_info.current_id.clone();
    timer.new_timer("thesis".to_string());
    assert_eq!(timer.session_info.current_state, TimerState::Idle);
    assert_eq!(timer.session_info.time_remaining_secs, 0);
    assert_eq!(timer.session_info.current_label, "thesis");
    assert_eq!(timer.session_info.history_index, None);
    assert_ne!(timer.session_info.current_id, old_id);
}

#[test]
fn skip_archives_running_session_and_lands_on_it() {
    let mut timer = fresh_timer();
    timer.start_work();
    timer.session_info.time_remaining_secs = 321;
    timer.session_info.current_label = "draft".to_string();
    let id = timer.session_info.current_id.clone();
    timer.skip();
    assert_eq!(timer.session_info.history.len(), 1);
    let archived = &timer.session_info.history[0];
    assert_eq!(archived.id, id);
    assert_eq!(archived.label, "draft");
    assert_eq!(archived.duration_secs, 321);
    assert_eq!(archived.session_type, "Work Session");
    assert_ne!(timer.session_info.current_id, id);
    // cycle advanced out of the work state
    assert_eq!(timer.session_info.current_state, TimerState::ShortBreak);
    assert_eq!(timer.session_info.current_session, 2);
    assert_eq!(timer.session_info.completed_sessions, 1);
    // the cursor landed on the just-archived entry
    assert_eq!(timer.session_info.history_index, Some(0));
}

#[test]
fn skip_while_idle_archives_nothing() {
    let mut timer = fresh_timer();
    timer.skip();
    assert!(timer.session_info.history.is_empty());
    assert_eq!(timer.session_info.current_state, TimerState::Working);
    assert_eq!(timer.session_info.history_index, None);
}

#[test]
fn switch_to_rest_scenario() {
    let mut timer = fresh_timer();
    assert!(timer.session_info.is_focus_mode);
    assert_eq!(timer.session_info.rest_time_remaining_secs, 0);
    timer.switch_to_rest();
    assert!(!timer.session_info.is_focus_mode);
    assert_eq!(timer.session_info.rest_time_remaining_secs, 5 * 60);
    assert_eq!(timer.session_info.current_state, TimerState::Idle);
    // a second call is a no-op
    let before = timer.session_info.clone();
    timer.switch_to_rest();
    assert_eq!(timer.session_info.current_state, before.current_state);
    assert_eq!(timer.session_info.rest_time_remaining_secs, before.rest_time_remaining_secs);
    assert_eq!(timer.session_info.is_focus_mode, before.is_focus_mode);
    assert_eq!(timer.session_info.last_updated, before.last_updated);
}

#[test]
fn switch_to_focus_stops_countdown() {
    let mut timer = fresh_timer();
    timer.switch_to_rest();
    timer.toggle();
    assert_eq!(timer.session_info.current_state, TimerState::ShortBreak);
    timer.session_info.time_remaining_secs = 0;
    timer.switch_to_focus();
    assert!(timer.session_info.is_focus_mode);
    assert_eq!(timer.session_info.current_state, TimerState::Idle);
    assert_eq!(timer.session_info.time_remaining_secs, 25 * 60);
}

#[test]
fn done_label_writes_label() {
    let mut timer = fresh_timer();
    timer.done_label("review notes".to_string());
    assert_eq!(timer.session_info.current_label, "review notes");
}
