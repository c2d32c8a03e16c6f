//! A one-way kill switch shared between any number of handles.
//!
//! A [`KillSwitch`] starts alive and can be flipped to killed once; every
//! handle that shares its flag, including the read-only
//! [`KillSwitchWatcher`]s derived from it, then reads it as killed.

pub mod error;
pub mod state;
pub mod switch;

pub use error::KillSwitchErr;
pub use state::{kill_outcome, state_label, FlagOp};
pub use switch::{KillSwitch, KillSwitchWatcher};
