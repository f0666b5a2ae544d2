pub mod config;
pub mod engine;
pub mod snapshot;
pub mod state;
pub mod text;

mod sys;

pub use snapshot::Persistence;

pub use config::{Config, ConfigError};
pub use engine::{NotificationKind, Timer};
pub use state::{CompletedTimer, SessionInfo, TimerState, HISTORY_LIMIT};
