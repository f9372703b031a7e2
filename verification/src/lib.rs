//! Core of a local message bus: a hub introduces named services to each other,
//! after which they talk over a private socket.
//!
//! The crate holds the decisions of the bus and none of its I/O. Every function
//! maps plain values to plain values, so a caller that owns the sockets and the
//! queues can drive it from any runtime.

use vstd::prelude::*;

pub mod buffer;
pub mod call_registry;
pub mod client;
pub mod codec;
pub mod errors;
pub mod hub;
pub mod messages;
pub mod permissions;
pub mod state;

verus! {

/// Directory that holds the service permission files.
pub const SERVICE_FILES_DIR: &'static str = "/etc/caro.services.d";

/// Path of the hub socket when the environment names no other.
pub const DEFAULT_HUB_SOCKET_PATH: &'static str = "/var/run/caro/bus.socket";

/// Name of the environment variable that overrides the hub socket path.
pub const HUB_SOCKET_PATH_ENV: &'static str = "CARO_HUB_SOCKET_PATH";

/// The hub socket path in force, given the value of [`HUB_SOCKET_PATH_ENV`] if
/// the environment has one.
pub fn get_hub_socket_path(configured: Option<String>) -> (path: String)
    ensures
        path@ == match configured {
            Some(p) => p@,
            None => DEFAULT_HUB_SOCKET_PATH@,
        },
{
    match configured {
        Some(p) => p,
        None => DEFAULT_HUB_SOCKET_PATH.to_owned(),
    }
}

} // verus!
