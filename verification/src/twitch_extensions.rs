//! Platform-specific readings of the wire messages.

pub mod irc;
