//! Readiness and watchdog notification for daemons run under systemd.
//!
//! The library holds the decisions of the notifier as a state machine that a
//! driver runs: the driver performs each action it is handed (announcing
//! readiness, querying the watchdog, starting and polling the timer, pinging)
//! and reports the outcome back through the matching method.
pub mod error;
pub mod interval;
pub mod notifier;

pub use error::Error;
pub use interval::Interval;
pub use notifier::{Action, SystemdNotifier};
