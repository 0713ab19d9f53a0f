//! Probe for a BrandMeister repeater: how long ago the network last saw it,
//! which monitoring state that amounts to, and the status line that a
//! Nagios-compatible supervisor expects.

pub mod decimal;
pub mod error;
pub mod instant;
pub mod last_seen;
pub mod probe;
pub mod severity;
pub mod status;
pub mod threshold;

pub use crate::last_seen::last_seen_seconds;
pub use crate::probe::do_check;
