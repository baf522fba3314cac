//! Display driver as a brokered resource layered on the I2C bus.
//!
//! Bringing the display up consumes the bus. The bus is taken out of its
//! cell, the display is built on it, and if that cannot go ahead the bus goes
//! back into its cell, where other consumers can still claim it.

use crate::drivers::{DriverCell, DriverError, DriverHandle, ResourceCell};
use vstd::prelude::*;

verus! {

/// Reason reported when the display cannot be built on the bus.
pub open spec fn oled_init_reason() -> Seq<char> {
    "oled init"@
}

/// The two cells and the verdict after a handoff in which building the
/// display on the bus yielded `built`. The constructor is consulted only when
/// the bus is present and the display cell is empty.
pub open spec fn handoff_step<B, D>(
    bus: ResourceCell<B>,
    display: ResourceCell<D>,
    built: Result<D, B>,
) -> (ResourceCell<B>, ResourceCell<D>, Result<(), DriverError>) {
    if bus.slot is None {
        (bus, display, Err(DriverError::NotReady))
    } else if display.slot is Some {
        (bus, display, Err(DriverError::AlreadyInitialized))
    } else {
        match built {
            Ok(driver) => (bus.taken(), display.replaced(driver), Ok(())),
            Err(returned) => (
                bus.replaced(returned),
                display,
                Err(DriverError::InitFailed("oled init")),
            ),
        }
    }
}

/// What a handoff settles on, given the bus as it was taken out of its cell
/// and whether the display cell is occupied, when building the display
/// yielded `built`: the bus to put back into the bus cell, if any, the
/// display to install, if any, and the verdict. The constructor is consulted
/// only when a bus was taken and the display cell is empty.
pub open spec fn handoff_plan<B, D>(taken: Option<B>, display_ready: bool, built: Result<D, B>) -> (
    Option<B>,
    Option<D>,
    Result<(), DriverError>,
) {
    if taken is None {
        (None, None, Err(DriverError::NotReady))
    } else if display_ready {
        (taken, None, Err(DriverError::AlreadyInitialized))
    } else {
        match built {
            Ok(driver) => (None, Some(driver), Ok(())),
            Err(returned) => (Some(returned), None, Err(DriverError::InitFailed("oled init"))),
        }
    }
}

/// Settles a handoff once the bus was taken out of its cell: decides the
/// verdict, builds the display where that is due, and says what goes back
/// into the bus cell and what goes into the display cell. An absent bus is
/// `NotReady`. An occupied display cell is `AlreadyInitialized`, and the bus
/// goes back. Otherwise `build` runs on the bus; when it fails it hands the
/// bus back, which goes back into its cell, and the verdict is
/// `InitFailed("oled init")`.
pub fn settle_handoff<B, D, F: FnOnce(B) -> Result<D, B>>(
    taken: Option<B>,
    display_ready: bool,
    build: F,
) -> (plan: (Option<B>, Option<D>, Result<(), DriverError>))
    requires
        forall|bus: B| taken == Some(bus) && !display_ready ==> call_requires(build, (bus,)),
    ensures
        exists|built: Result<D, B>|
            (taken is Some && !display_ready ==> call_ensures(build, (taken->0,), built)) && plan
                == handoff_plan(taken, display_ready, built),
{
    let bus = match taken {
        Some(bus) => bus,
        None => {
            proof {
                let unused: Result<D, B> = arbitrary();
                assert((None::<B>, None::<D>, Err::<(), DriverError>(DriverError::NotReady))
                    == handoff_plan(taken, display_ready, unused));
            }
            return (None, None, Err(DriverError::NotReady));
        },
    };
    if display_ready {
        proof {
            let unused: Result<D, B> = arbitrary();
            assert((Some(bus), None::<D>, Err::<(), DriverError>(DriverError::AlreadyInitialized))
                == handoff_plan(taken, display_ready, unused));
        }
        return (Some(bus), None, Err(DriverError::AlreadyInitialized));
    }
    let built = build(bus);
    let ghost outcome = built;
    let plan = match built {
        Ok(driver) => (None, Some(driver), Ok(())),
        Err(returned) => (Some(returned), None, Err(DriverError::InitFailed("oled init"))),
    };
    proof {
        assert(call_ensures(build, (taken->0,), outcome));
        assert(plan == handoff_plan(taken, display_ready, outcome));
    }
    plan
}

/// Moves the bus out of `bus` and builds the display on it with `build`,
/// which hands the bus back when it fails. On any failure the bus is in its
/// cell again afterwards.
pub fn hand_over<B, D, F: FnOnce(B) -> Result<D, B>>(
    bus: &mut ResourceCell<B>,
    display: &mut ResourceCell<D>,
    build: F,
) -> (verdict: Result<(), DriverError>)
    requires
        forall|taken: B| old(bus).slot == Some(taken) ==> call_requires(build, (taken,)),
    ensures
        exists|built: Result<D, B>|
            (old(bus).slot is Some && old(display).slot is None ==> call_ensures(
                build,
                (old(bus).slot->0,),
                built,
            )) && (*final(bus), *final(display), verdict) == handoff_step(
                *old(bus),
                *old(display),
                built,
            ),
{
    let taken = bus.take();
    let display_ready = display.is_ready();
    let (back, driver, verdict) = settle_handoff(taken, display_ready, build);
    if let Some(returned) = back {
        let _ = bus.replace(returned);
    }
    if let Some(driver) = driver {
        let _ = display.replace(driver);
    }
    proof {
        let built = choose|built: Result<D, B>|
            (taken is Some && !display_ready ==> call_ensures(build, (taken->0,), built)) && (
                back,
                driver,
                verdict,
            ) == handoff_plan(taken, display_ready, built);
        assert((*bus, *display, verdict) == handoff_step(*old(bus), *old(display), built));
    }
    verdict
}

/// A handoff never strands the bus: after a failure of any kind the bus cell
/// holds a bus if it held one before, and after a success the display cell
/// holds the driver that was built.
pub proof fn lemma_handoff_keeps_bus_on_failure<B, D>(
    bus: ResourceCell<B>,
    display: ResourceCell<D>,
    built: Result<D, B>,
)
    ensures
        handoff_step(bus, display, built).2 is Err && bus.is_occupied() ==> handoff_step(
            bus,
            display,
            built,
        ).0.is_occupied(),
        handoff_step(bus, display, built).2 is Err ==> handoff_step(bus, display, built).1
            == display,
        handoff_step(bus, display, built).2 is Ok ==> built is Ok && handoff_step(
            bus,
            display,
            built,
        ).1.slot == Some(built->Ok_0),
{
}

/// The verdict of a bring-up, the handle left aside.
pub open spec fn without_handle<D>(verdict: Result<DriverHandle<D>, DriverError>) -> Result<
    (),
    DriverError,
> {
    match verdict {
        Ok(_) => Ok(()),
        Err(error) => Err(error),
    }
}

/// Brings the display up on the bus behind `i2c` and installs it in `oled`.
///
/// The bus is taken out of its cell and [`settle_handoff`] decides the
/// rest: the bus it hands back is put into its cell again, the display it
/// hands over is installed, and its verdict is passed on with a handle for
/// `oled`. `build` runs outside any critical section. What the two cells
/// hold when they are read is up to their other users, so the contract
/// speaks of the handoff as it was settled, for the bus and the display
/// state that were found.
pub fn init_oled<B: 'static, D: 'static, F: FnOnce(B) -> Result<D, B>>(
    i2c: &DriverHandle<B>,
    oled: &'static DriverCell<D>,
    build: F,
) -> (verdict: Result<DriverHandle<D>, DriverError>)
    requires
        forall|bus: B| call_requires(build, (bus,)),
    ensures
        exists|taken: Option<B>, display_ready: bool, built: Result<D, B>|
            (taken is Some && !display_ready ==> call_ensures(build, (taken->0,), built))
                && without_handle(verdict) == #[trigger] handoff_plan(
                taken,
                display_ready,
                built,
            ).2,
        verdict is Ok ==> exists|bus: B, driver: D| call_ensures(build, (bus,), Ok(driver)),
        verdict matches Ok(handle) ==> handle.cell() == oled,
        verdict matches Err(DriverError::InitFailed(reason)) ==> reason@ == oled_init_reason()
            && exists|bus: B, returned: B| call_ensures(build, (bus,), Err(returned)),
{
    let taken = i2c.take();
    let handle = DriverHandle::new(oled);
    let display_ready = handle.is_ready();
    let (back, driver, settled) = settle_handoff(taken, display_ready, build);
    proof {
        let built = choose|built: Result<D, B>|
            (taken is Some && !display_ready ==> call_ensures(build, (taken->0,), built)) && (
                back,
                driver,
                settled,
            ) == handoff_plan(taken, display_ready, built);
        assert((back, driver, settled) == handoff_plan(taken, display_ready, built));
        if settled is Ok {
            assert(call_ensures(build, (taken->0,), Ok(driver->0)));
        }
        if settled matches Err(DriverError::InitFailed(reason)) {
            assert(call_ensures(build, (taken->0,), Err(back->0)));
        }
    }
    if let Some(returned) = back {
        let _ = i2c.replace(returned);
    }
    if let Some(driver) = driver {
        let _ = handle.replace(driver);
    }
    let verdict = match settled {
        Ok(_) => Ok(handle),
        Err(error) => Err(error),
    };
    proof {
        assert(without_handle(verdict) == settled);
    }
    verdict
}

} // verus!
