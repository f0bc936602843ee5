//! The request to shut the service down.

use vstd::prelude::*;

verus! {

/// Whether a shutdown has been asked for, and the listener to wake for it.
#[derive(Debug)]
pub struct ShutdownFlag {
    pub requested: bool,
    pub wake_addr: Option<String>,
}

impl ShutdownFlag {
    /// No shutdown has been asked for.
    pub fn new() -> (out: Self)
        ensures
            !out.requested,
            out.wake_addr is None,
    {
        ShutdownFlag { requested: false, wake_addr: None }
    }
}

/// Whether a shutdown has been asked for.
pub fn shutdown_requested(flag: &ShutdownFlag) -> (out: bool)
    ensures
        out == flag.requested,
{
    flag.requested
}

/// Asks for a shutdown and notes the address of the listener to wake.
pub fn request_shutdown(flag: &mut ShutdownFlag, addr: &str)
    ensures
        final(flag).requested,
        final(flag).wake_addr is Some,
        final(flag).wake_addr->0@ == addr@,
{
    flag.requested = true;
    flag.wake_addr = Some(addr.to_string());
}

/// Takes the request for a shutdown back.
pub fn clear_shutdown_flag(flag: &mut ShutdownFlag)
    ensures
        !final(flag).requested,
        final(flag).wake_addr is None,
{
    flag.requested = false;
    flag.wake_addr = None;
}

} // verus!
