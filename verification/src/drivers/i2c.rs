//! I2C bus as a brokered resource.

use crate::drivers::{DriverCell, DriverError, DriverHandle};
use vstd::prelude::*;

verus! {

/// Reason reported when the bus cannot be configured.
pub open spec fn i2c_init_reason() -> Seq<char> {
    "i2c init"@
}

/// Claims the I2C bus: if `cell` is empty, `make` configures the bus and the
/// result is installed. Whatever error `make` gives is reported as
/// `InitFailed("i2c init")`.
pub fn init_i2c0<B: 'static, E, F: FnOnce() -> Result<B, E>>(
    cell: &'static DriverCell<B>,
    make: F,
) -> (verdict: Result<DriverHandle<B>, DriverError>)
    requires
        call_requires(make, ()),
    ensures
        verdict is Ok ==> exists|bus: B| call_ensures(make, (), Ok(bus)),
        verdict matches Ok(handle) ==> handle.cell() == cell,
        verdict matches Err(DriverError::InitFailed(reason)) ==> reason@ == i2c_init_reason()
            && exists|error: E| call_ensures(make, (), Err(error)),
{
    let configure = || -> (made: Result<B, &'static str>)
        ensures
            made matches Ok(bus) ==> call_ensures(make, (), Ok(bus)),
            made matches Err(reason) ==> reason@ == i2c_init_reason() && exists|error: E|
                call_ensures(make, (), Err(error)),
        {
            match make() {
                Ok(bus) => Ok(bus),
                Err(_) => Err("i2c init"),
            }
        };
    let verdict = DriverHandle::init(cell, configure);
    proof {
        if verdict is Ok {
            let made = choose|made: B| call_ensures(configure, (), Ok(made));
            assert(call_ensures(make, (), Ok(made)));
        }
    }
    verdict
}

} // verus!
