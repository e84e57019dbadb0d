//! Native-side rules of a desktop shell: the badge shown on the application's
//! icon, the order in which the process starts up, and how logging is set.
//!
//! Everything here works on plain values. The program around this library
//! talks to the window system and hands over what it found.

pub mod decimal;
pub mod error;
pub mod badge;
pub mod host;
pub mod commands;
pub mod logging;
pub mod bootstrap;

pub use crate::bootstrap::run;
pub use crate::commands::update_dock_badge_safe;
pub use crate::logging::setup_logging;
