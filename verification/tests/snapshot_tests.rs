use pomodoro_timer::{CompletedTimer, Config, Persistence, SessionInfo, TimerState};

fn populated_info() -> SessionInfo {
    let mut info = SessionInfo::new();
    info.current_state = TimerState::WorkPaused;
    info.time_remaining_secs = 1234;
    info.rest_time_remaining_secs = 299;
    info.is_focus_mode = true;
    info.current_session = 3;
    info.completed_sessions = 11;
    info.last_updated = 1700000000;
    info.current_id = "3f2504e0-4f89-11d3-9a0c-0305e82c3301".to_string();
    info.current_label = "write; chapter [2]".to_string();
    info.history = vec![
        CompletedTimer {
            id: "a-1".to_string(),
            label: "déjà vu".to_string(),
            duration_secs: 1500,
            session_type: "Work Session".to_string(),
            completed_at: -62135596800,
        },
        CompletedTimer {
            id: "b-2".to_string(),
            label: String::new(),
            duration_secs: 0,
            session_type: "Short Break".to_string(),
            completed_at: 0,
        },
    ];
    info.history_index = Some(1);
    info
}

fn same_record(a: &SessionInfo, b: &SessionInfo) {
    assert_eq!(a.current_state, b.current_state);
    assert_eq!(a.time_remaining_secs, b.time_remaining_secs);
    assert_eq!(a.rest_time_remaining_secs, b.rest_time_remaining_secs);
    assert_eq!(a.is_focus_mode, b.is_focus_mode);
    assert_eq!(a.current_session, b.current_session);
    assert_eq!(a.completed_sessions, b.completed_sessions);
    assert_eq!(a.last_updated, b.last_updated);
    assert_eq!(a.current_id, b.current_id);
    assert_eq!(a.current_label, b.current_label);
    assert_eq!(a.history_index, b.history_index);
    assert_eq!(a.history.len(), b.history.len());
    for (x, y) in a.history.iter().zip(b.history.iter()) {
        assert_eq!(x.id, y.id);
        assert_eq!(x.label, y.label);
        assert_eq!(x.duration_secs, y.duration_secs);
        assert_eq!(x.session_type, y.session_type);
        assert_eq!(x.completed_at, y.completed_at);
    }
}

#[test]
fn snapshot_roundtrip_populated() {
    let info = populated_info();
    let encoded = Persistence::encode(&info);
    let decoded = Persistence::decode(&encoded).expect("a snapshot of a valid record decodes");
    same_record(&info, &decoded);
}

#[test]
fn snapshot_roundtrip_fresh() {
    let info = SessionInfo::new();
    let encoded = Persistence::encode(&info);
    let decoded = Persistence::decode(&encoded).expect("a fresh record decodes");
    same_record(&info, &decoded);
}

#[test]
fn snapshot_roundtrip_extremes() {
    let mut info = SessionInfo::new();
    info.time_remaining_secs = u32::MAX;
    info.last_updated = i64::MIN;
    info.current_label = "0123456789;intf".to_string();
    let encoded = Persistence::encode(&info);
    let decoded = Persistence::decode(&encoded).expect("extreme values decode");
    same_record(&info, &decoded);
    let mut info2 = SessionInfo::new();
    info2.last_updated = i64::MAX;
    let encoded2 = Persistence::encode(&info2);
    let decoded2 = Persistence::decode(&encoded2).expect("extreme values decode");
    same_record(&info2, &decoded2);
}

#[test]
fn snapshot_encoding_is_not_the_input() {
    // the encoder writes a real rendering: state tag, counters in decimal,
    // length-prefixed strings
    let mut info = SessionInfo::new();
    info.current_state = TimerState::Working;
    info.time_remaining_secs = 42;
    let encoded = Persistence::encode(&info);
    assert!(encoded.starts_with("W42;"));
}

#[test]
fn decode_rejects_malformed() {
    assert!(Persistence::decode("").is_none());
    assert!(Persistence::decode("garbage").is_none());
    assert!(Persistence::decode("X42;").is_none());
    // a number without its closing mark
    assert!(Persistence::decode("W42").is_none());
}

#[test]
fn decode_rejects_trailing_content() {
    let info = SessionInfo::new();
    let mut encoded = Persistence::encode(&info);
    encoded.push('x');
    assert!(Persistence::decode(&encoded).is_none());
}

#[test]
fn decode_rejects_truncation() {
    let info = populated_info();
    let encoded = Persistence::encode(&info);
    let shortened: String = encoded.chars().take(encoded.chars().count() - 1).collect();
    assert!(Persistence::decode(&shortened).is_none());
}

#[test]
fn decode_rejects_cursor_out_of_range() {
    let mut info = SessionInfo::new();
    info.history_index = Some(0);
    // the record breaks its own invariant: an empty history with a cursor
    let encoded = Persistence::encode(&info);
    assert!(Persistence::decode(&encoded).is_none());
}

#[test]
fn paths_join_under_given_directories() {
    assert_eq!(
        Persistence::state_path("/home/u/.local/share/pomodoro-timer"),
        "/home/u/.local/share/pomodoro-timer/state.snapshot"
    );
    assert_eq!(
        Config::config_path("/home/u/.config/pomodoro-timer"),
        "/home/u/.config/pomodoro-timer/config.toml"
    );
}
