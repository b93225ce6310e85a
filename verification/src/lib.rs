//! Decisions and formatting of a focus timer that counts a session down
//! second by second and shows the time left as `mm:ss`.
pub mod config;
pub mod digits;
pub mod menu;
pub mod session;
pub mod timer;

pub use config::Settings;
pub use menu::{menu_action, MenuAction};
pub use session::{MenuUpdate, TickAction, TimerState};
pub use timer::{advance_tick, format_time, TickOutcome, TimerCommand, FOCUS_MINUTES, FOCUS_SECONDS};
