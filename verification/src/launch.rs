//! What a process is started with.

use vstd::prelude::*;

verus! {

/// The TCP address to listen on where none is given.
pub const DEFAULT_ADDRESS: &'static str = "127.0.0.1:9257";

/// The idle timeout of a daemon in seconds where none is given.
pub const DEFAULT_IDLE_TIMEOUT_SECONDS: u64 = 600;

/// What a process is started with.
#[derive(Debug, Eq, PartialEq)]
pub struct LaunchArguments {
    /// Keep listening after clients disconnect until the idle timeout.
    pub daemon: bool,
    /// TCP address to listen on.
    pub address: String,
    /// Idle timeout in seconds for daemon mode.
    pub idle_timeout_seconds: u64,
}

impl LaunchArguments {
    /// The idle timeout in nanoseconds.
    pub fn idle_timeout(&self) -> (timeout: u128)
        ensures
            timeout == self.idle_timeout_seconds * 1_000_000_000,
    {
        self.idle_timeout_seconds as u128 * 1_000_000_000
    }
}

} // verus!
