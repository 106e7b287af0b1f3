//! Per-guild notification-channel registry and the command and
//! member-removal decision logic that drives it.
//!
//! - `ids`: the decimal text form of identifiers.
//! - `registry`: the guild -> channel bindings.
//! - `command`: the `notifchan` command, from message text to a committed
//!   binding.
//! - `notify`: the notice sent when a member leaves a guild.

pub mod ids;
pub mod registry;
pub mod command;
pub mod notify;
