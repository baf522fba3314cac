//! Status LED as a brokered resource.

use crate::drivers::{DriverCell, DriverError, DriverHandle};
use vstd::prelude::*;

verus! {

/// Claims the LED pin: if `cell` is empty, `make` configures the pin as an
/// output and the result is installed. Configuring cannot fail, so the only
/// failures are a cell that is occupied or in use.
pub fn init_led<P: 'static, F: FnOnce() -> P>(cell: &'static DriverCell<P>, make: F) -> (verdict:
    Result<DriverHandle<P>, DriverError>)
    requires
        call_requires(make, ()),
    ensures
        verdict is Ok ==> exists|pin: P| call_ensures(make, (), pin),
        verdict matches Ok(handle) ==> handle.cell() == cell,
        verdict matches Err(error) ==> !(error is InitFailed),
{
    let configure = || -> (made: Result<P, &'static str>)
        ensures
            made matches Ok(pin) && call_ensures(make, (), pin),
        {
            Ok(make())
        };
    let verdict = DriverHandle::init(cell, configure);
    proof {
        if verdict is Ok {
            let made = choose|made: P| call_ensures(configure, (), Ok(made));
            assert(call_ensures(make, (), made));
        }
    }
    verdict
}

} // verus!
