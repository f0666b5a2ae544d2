use pomodoro_timer::{Config, ConfigError};

fn valid_config() -> Config {
    Config {
        work_duration: 25,
        short_break_duration: 5,
        long_break_duration: 15,
        sessions_until_long_break: 4,
        enable_notifications: true,
        auto_start_breaks: false,
        auto_start_work: false,
    }
}

#[test]
fn default_config_values() {
    let config = Config::default();
    assert_eq!(config.work_duration, 25);
    assert_eq!(config.short_break_duration, 5);
    assert_eq!(config.long_break_duration, 15);
    assert_eq!(config.sessions_until_long_break, 4);
    assert!(config.enable_notifications);
    assert!(!config.auto_start_breaks);
    assert!(!config.auto_start_work);
}

#[test]
fn second_counts() {
    let config = valid_config();
    assert_eq!(config.work_duration_secs(), 1500);
    assert_eq!(config.short_break_duration_secs(), 300);
    assert_eq!(config.long_break_duration_secs(), 900);
}

#[test]
fn validate_accepts_positive_settings() {
    assert_eq!(valid_config().validate(), Ok(()));
}

#[test]
fn validate_rejects_zero_work_duration() {
    let mut config = valid_config();
    config.work_duration = 0;
    assert_eq!(config.validate(), Err(ConfigError::ZeroWorkDuration));
}

#[test]
fn validate_rejects_zero_short_break() {
    let mut config = valid_config();
    config.short_break_duration = 0;
    assert_eq!(config.validate(), Err(ConfigError::ZeroShortBreakDuration));
}

#[test]
fn validate_rejects_zero_long_break() {
    let mut config = valid_config();
    config.long_break_duration = 0;
    assert_eq!(config.validate(), Err(ConfigError::ZeroLongBreakDuration));
}

#[test]
fn validate_rejects_zero_session_count() {
    let mut config = valid_config();
    config.sessions_until_long_break = 0;
    assert_eq!(config.validate(), Err(ConfigError::ZeroSessionsUntilLongBreak));
}

#[test]
fn validate_reports_first_violation() {
    let mut config = valid_config();
    config.work_duration = 0;
    config.sessions_until_long_break = 0;
    assert_eq!(config.validate(), Err(ConfigError::ZeroWorkDuration));
}

#[test]
fn error_messages() {
    assert_eq!(
        ConfigError::ZeroWorkDuration.message(),
        "Work duration must be greater than 0"
    );
    assert_eq!(
        ConfigError::ZeroSessionsUntilLongBreak.message(),
        "Sessions until long break must be greater than 0"
    );
}
