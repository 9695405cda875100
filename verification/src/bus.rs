//! Register-bus device selection.
//!
//! The mapped register page can come from either of two OS device paths: an
//! unprivileged one tried first, and a privileged fallback consulted only
//! when the first is denied. Opening the paths is I/O; the outcomes of the
//! two attempts reach this module as plain values, and the fallback rule
//! over them is verified.

use vstd::prelude::*;

use crate::Error;

verus! {

/// Outcome of attempting to open one register-bus device path.
#[derive(Debug, Clone, Copy, PartialEq, Eq, Structural)]
pub enum BusProbe {
    /// The path opened and the page could be mapped.
    Granted,
    /// Access to the path was denied.
    Denied,
    /// The attempt failed some other way; carries the OS error code.
    Failed(i32),
}

/// Which device path the register bus was opened through.
#[derive(Debug, Clone, Copy, PartialEq, Eq, Structural)]
pub enum BusSource {
    /// The unprivileged primary path.
    Unprivileged,
    /// The privileged fallback path.
    Privileged,
}

/// The bus the two probe outcomes resolve to: the primary when granted,
/// the fallback only when the primary was denied; both denied is a
/// permission failure, and any other failure carries its OS error.
pub open spec fn spec_resolve_bus(primary: BusProbe, fallback: BusProbe) -> Result<
    BusSource,
    Error,
> {
    match primary {
        BusProbe::Granted => Ok(BusSource::Unprivileged),
        BusProbe::Failed(code) => Err(Error::Io(code)),
        BusProbe::Denied => match fallback {
            BusProbe::Granted => Ok(BusSource::Privileged),
            BusProbe::Denied => Err(Error::PermissionDenied),
            BusProbe::Failed(code) => Err(Error::Io(code)),
        },
    }
}

/// Resolves the two open attempts to the bus source to use.
pub fn resolve_bus(primary: BusProbe, fallback: BusProbe) -> (r: Result<BusSource, Error>)
    ensures
        r == spec_resolve_bus(primary, fallback),
{
    match primary {
        BusProbe::Granted => Ok(BusSource::Unprivileged),
        BusProbe::Failed(code) => Err(Error::Io(code)),
        BusProbe::Denied => match fallback {
            BusProbe::Granted => Ok(BusSource::Privileged),
            BusProbe::Denied => Err(Error::PermissionDenied),
            BusProbe::Failed(code) => Err(Error::Io(code)),
        },
    }
}

} // verus!
