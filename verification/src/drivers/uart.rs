//! Serial console as a brokered resource.

use crate::drivers::{DriverCell, DriverError, DriverHandle};
use vstd::prelude::*;

verus! {

/// Handle for the serial console. The console needs no state of its own, so
/// the cell holds a unit once it is claimed.
pub type UartHandle = DriverHandle<()>;

/// Claims the serial console and returns a handle for `cell`. Claiming
/// cannot fail for a reason of its own: the only failures are a cell that is
/// occupied or in use.
pub fn init_uart(cell: &'static DriverCell<()>) -> (verdict: Result<UartHandle, DriverError>)
    ensures
        verdict matches Ok(handle) ==> handle.cell() == cell,
        verdict matches Err(error) ==> !(error is InitFailed),
{
    let claim = || -> (made: Result<(), &'static str>)
        ensures
            made is Ok,
        {
            Ok(())
        };
    DriverHandle::init(cell, claim)
}

} // verus!
