//! Allocation of the TCP port the backend listens on.

use crate::error::LaunchError;
use vstd::prelude::*;

verus! {

/// `portpicker::pick_unused_port` first tries ten random ports in
/// 15000..25000 and then asks the operating system up to ten times; it gives
/// up with `None`. Which port comes back depends on the machine's sockets at
/// the moment of the call, so nothing is claimed of the result.
pub assume_specification[ portpicker::pick_unused_port ]() -> (picked: Option<u16>);

/// The launcher's verdict on one allocation attempt: the port when one was
/// found, the error otherwise.
pub open spec fn verdict_of(picked: Option<u16>) -> Result<u16, LaunchError> {
    match picked {
        Some(port) => Ok(port),
        None => Err(LaunchError::NoFreePort),
    }
}

/// Turns the outcome of one allocation attempt into the launcher's verdict.
/// There is no retry.
pub fn port_from_pick(picked: Option<u16>) -> (r: Result<u16, LaunchError>)
    ensures
        r == verdict_of(picked),
{
    match picked {
        Some(port) => Ok(port),
        None => Err(LaunchError::NoFreePort),
    }
}

/// Asks once for an unused port and reports the verdict of
/// [`port_from_pick`] on whatever came back: a failure is always
/// [`LaunchError::NoFreePort`].
pub fn allocate_port() -> (r: Result<u16, LaunchError>)
    ensures
        exists|picked: Option<u16>| r == verdict_of(picked),
{
    port_from_pick(portpicker::pick_unused_port())
}

} // verus!
