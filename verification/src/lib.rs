//! Message-routing host for a chat bot: loads plugin modules, validates their
//! ABI declaration, and fans inbound chat messages out to every plugin while
//! merging their outputs back into one stream.

use vstd::prelude::*;

pub mod auth;
pub mod command_access;
pub mod message;
pub mod plugin;
pub mod plugins;
pub mod profile;
pub mod stream;
pub mod text;
pub mod twitch_api;
pub mod twitch_extensions;
pub mod utils;

verus! {

/// Version of the host core; a plugin module must declare the same one.
pub const CORE_VERSION: &'static str = "0.3.0";

/// Compiler fingerprint of the host build; a plugin module must declare the same one.
pub const RUSTC_VERSION: &'static str = "rustc 1.46.0";

} // verus!
