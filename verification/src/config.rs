//! The immutable, validated settings the timer runs under.

use vstd::prelude::*;

verus! {

/// The settings record. Durations are in minutes; `validate` checks the
/// invariant that every duration and the session count are positive.
#[derive(Debug, Clone, Copy, PartialEq, Eq, Structural)]
pub struct Config {
    /// Work session duration in minutes.
    pub work_duration: u32,
    /// Short break duration in minutes.
    pub short_break_duration: u32,
    /// Long break duration in minutes.
    pub long_break_duration: u32,
    /// Number of work sessions before a long break.
    pub sessions_until_long_break: u32,
    /// Enable desktop notifications.
    pub enable_notifications: bool,
    /// Auto-start breaks after work completes.
    pub auto_start_breaks: bool,
    /// Auto-start work after breaks complete.
    pub auto_start_work: bool,
}

/// The way a settings record can fail validation.
#[derive(Debug, Clone, Copy, PartialEq, Eq, Structural)]
pub enum ConfigError {
    ZeroWorkDuration,
    ZeroShortBreakDuration,
    ZeroLongBreakDuration,
    ZeroSessionsUntilLongBreak,
}

impl ConfigError {
    /// The message reported for each validation failure.
    pub fn message(&self) -> (r: &'static str)
        ensures
            r@ == match self {
                ConfigError::ZeroWorkDuration => "Work duration must be greater than 0"@,
                ConfigError::ZeroShortBreakDuration => "Short break duration must be greater than 0"@,
                ConfigError::ZeroLongBreakDuration => "Long break duration must be greater than 0"@,
                ConfigError::ZeroSessionsUntilLongBreak => "Sessions until long break must be greater than 0"@,
            },
    {
        match self {
            ConfigError::ZeroWorkDuration => "Work duration must be greater than 0",
            ConfigError::ZeroShortBreakDuration => "Short break duration must be greater than 0",
            ConfigError::ZeroLongBreakDuration => "Long break duration must be greater than 0",
            ConfigError::ZeroSessionsUntilLongBreak => "Sessions until long break must be greater than 0",
        }
    }
}

impl Default for Config {
    fn default() -> (r: Config)
        ensures
            r == (Config {
                work_duration: 25u32,
                short_break_duration: 5u32,
                long_break_duration: 15u32,
                sessions_until_long_break: 4u32,
                enable_notifications: true,
                auto_start_breaks: false,
                auto_start_work: false,
            }),
    {
        Config {
            work_duration: 25,
            short_break_duration: 5,
            long_break_duration: 15,
            sessions_until_long_break: 4,
            enable_notifications: true,
            auto_start_breaks: false,
            auto_start_work: false,
        }
    }
}

impl Config {
    /// Validity as the engine needs it: the validated invariant, and each
    /// duration small enough that its second count fits a `u32`.
    pub open spec fn wf(&self) -> bool {
        &&& 1 <= self.work_duration <= u32::MAX / 60
        &&& 1 <= self.short_break_duration <= u32::MAX / 60
        &&& 1 <= self.long_break_duration <= u32::MAX / 60
        &&& 1 <= self.sessions_until_long_break
    }

    /// Work session duration in seconds.
    pub open spec fn spec_work_secs(&self) -> u32 {
        (self.work_duration * 60) as u32
    }

    /// Short break duration in seconds.
    pub open spec fn spec_short_break_secs(&self) -> u32 {
        (self.short_break_duration * 60) as u32
    }

    /// Long break duration in seconds.
    pub open spec fn spec_long_break_secs(&self) -> u32 {
        (self.long_break_duration * 60) as u32
    }

    /// The settings file below a configuration directory.
    pub fn config_path(config_dir: &str) -> (r: String)
        ensures
            r@ == config_dir@ + "/config.toml"@,
    {
        let mut path = config_dir.to_owned();
        path.append("/config.toml");
        path
    }

    pub fn work_duration_secs(&self) -> (r: u32)
        requires
            self.work_duration <= u32::MAX / 60,
        ensures
            r == self.work_duration * 60,
            r == self.spec_work_secs(),
    {
        self.work_duration * 60
    }

    pub fn short_break_duration_secs(&self) -> (r: u32)
        requires
            self.short_break_duration <= u32::MAX / 60,
        ensures
            r == self.short_break_duration * 60,
            r == self.spec_short_break_secs(),
    {
        self.short_break_duration * 60
    }

    pub fn long_break_duration_secs(&self) -> (r: u32)
        requires
            self.long_break_duration <= u32::MAX / 60,
        ensures
            r == self.long_break_duration * 60,
            r == self.spec_long_break_secs(),
    {
        self.long_break_duration * 60
    }

    /// Checks the settings invariant: every duration and the session count
    /// must be positive. The first violation, in field order, is reported.
    pub fn validate(&self) -> (r: Result<(), ConfigError>)
        ensures
            r == if self.work_duration == 0 {
                Err::<(), ConfigError>(ConfigError::ZeroWorkDuration)
            } else if self.short_break_duration == 0 {
                Err::<(), ConfigError>(ConfigError::ZeroShortBreakDuration)
            } else if self.long_break_duration == 0 {
                Err::<(), ConfigError>(ConfigError::ZeroLongBreakDuration)
            } else if self.sessions_until_long_break == 0 {
                Err::<(), ConfigError>(ConfigError::ZeroSessionsUntilLongBreak)
            } else {
                Ok::<(), ConfigError>(())
            },
    {
        if self.work_duration == 0 {
            Err(ConfigError::ZeroWorkDuration)
        } else if self.short_break_duration == 0 {
            Err(ConfigError::ZeroShortBreakDuration)
        } else if self.long_break_duration == 0 {
            Err(ConfigError::ZeroLongBreakDuration)
        } else if self.sessions_until_long_break == 0 {
            Err(ConfigError::ZeroSessionsUntilLongBreak)
        } else {
            Ok(())
        }
    }
}

} // verus!
