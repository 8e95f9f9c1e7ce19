//! Memoizes the result of an external command on disk, keyed by the command
//! and its arguments, and serves it again while it is younger than a
//! time-to-live.

pub mod exit_code;
pub mod key;
pub mod entry;
pub mod ttl;
pub mod coordinator;
