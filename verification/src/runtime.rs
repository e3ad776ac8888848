//! The settings of the worker pool and its shutdown.

use vstd::prelude::*;

verus! {

/// The number of worker threads where the host sets none.
pub const DEFAULT_WORKER_THREADS: u16 = 1;

/// The seconds that a shutdown waits for work under way where the host sets
/// none.
pub const DEFAULT_GRACEFUL_SHUTDOWN_TIMEOUT: u32 = 20;

/// The number of worker threads: what the host has set, or the default where
/// the setting could not be read.
pub fn get_max_worker_threads(setting: Option<u16>) -> (threads: u16)
    ensures
        threads == match setting {
            Some(n) => n,
            None => DEFAULT_WORKER_THREADS,
        },
{
    match setting {
        Some(n) => n,
        None => DEFAULT_WORKER_THREADS,
    }
}

/// The seconds that a shutdown waits for work under way: what the host has
/// set, or the default where the setting could not be read.
pub fn get_graceful_shutdown_timeout(setting: Option<u32>) -> (seconds: u32)
    ensures
        seconds == match setting {
            Some(n) => n,
            None => DEFAULT_GRACEFUL_SHUTDOWN_TIMEOUT,
        },
{
    match setting {
        Some(n) => n,
        None => DEFAULT_GRACEFUL_SHUTDOWN_TIMEOUT,
    }
}

/// How the worker pool is shut down.
#[derive(Clone, Copy, Debug, PartialEq, Eq, Structural)]
pub enum Shutdown {
    /// Nothing is under way: the pool is torn down at once.
    Immediate,
    /// Work is under way: the pool waits for it, for `seconds` at most, and
    /// is torn down then, whatever is left.
    Wait { seconds: u64 },
}

/// How the worker pool is shut down, with `pending` tasks under way and a
/// grace period of `timeout` seconds.
pub fn unload(pending: usize, timeout: u32) -> (plan: Shutdown)
    ensures
        plan == if pending == 0 {
            Shutdown::Immediate
        } else {
            Shutdown::Wait { seconds: timeout as u64 }
        },
{
    if pending == 0 {
        Shutdown::Immediate
    } else {
        Shutdown::Wait { seconds: timeout.into() }
    }
}

} // verus!
