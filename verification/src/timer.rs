//! System tick source.
//!
//! A hardware timer interrupts at a fixed frequency. Each interrupt advances
//! a monotonic 32-bit counter, which wraps silently, and then acknowledges
//! the hardware. The mainline reads the counter without any lock.

use crate::drivers::{DriverCell, DriverError, DriverHandle};
use core::sync::atomic::AtomicU32;
use core::sync::atomic::Ordering;
use vstd::prelude::*;

verus! {

/// System tick frequency in Hz: one tick per millisecond.
pub const TICK_FREQUENCY_HZ: u32 = 1_000;

/// The tick counter. The interrupt handler is its only writer; reads and the
/// increment are relaxed atomic operations.
pub struct SystemTick {
    /// Ticks since startup, modulo 2^32.
    pub ticks: AtomicU32,
}

impl SystemTick {
    /// A counter at zero.
    pub fn new() -> (clock: Self) {
        SystemTick { ticks: AtomicU32::new(0) }
    }
}

/// Number of ticks in `ms` milliseconds, rounded down.
pub open spec fn ticks_for_ms(ms: u32) -> int {
    (ms as int) * (TICK_FREQUENCY_HZ as int) / 1000
}

/// Returns the number of ticks since startup. Never blocks. The value is
/// whatever the counter holds at the moment of the read.
pub fn get_ticks(clock: &SystemTick) -> (now: u32) {
    clock.ticks.load(Ordering::Relaxed)
}

/// Converts milliseconds to ticks, rounding down. At one tick per
/// millisecond the result is `ms` itself.
pub fn ms_to_ticks(ms: u32) -> (ticks: u32)
    ensures
        ticks == ticks_for_ms(ms),
        ticks == ms,
{
    let scaled: u64 = (ms as u64) * (TICK_FREQUENCY_HZ as u64);
    (scaled / 1_000) as u32
}

/// Advances the counter by one tick, wrapping at 2^32. This is the first
/// thing the interrupt handler does; it also lets a host without the timer
/// drive time by hand.
pub fn force_tick(clock: &SystemTick) {
    let _ = clock.ticks.fetch_add(1, Ordering::Relaxed);
}

/// Body of the timer interrupt handler: advances the counter first, so that
/// waiting tasks see the tick as early as possible, then runs `acknowledge`
/// on the stored hardware timer inside a critical section. Before the timer
/// is initialized there is nothing to acknowledge.
pub fn on_timer_interrupt<H: 'static, F: FnOnce(&mut H)>(
    clock: &SystemTick,
    timer: &DriverHandle<H>,
    acknowledge: F,
)
    requires
        forall|hardware: &mut H| call_requires(acknowledge, (hardware,)),
{
    force_tick(clock);
    let _ = timer.try_with(acknowledge);
}

/// Message for a second initialization.
pub open spec fn already_initialized_message() -> Seq<char> {
    "System timer already initialized"@
}

/// Initializes the system timer at most once. If `timer` is empty, `start`
/// configures the hardware to interrupt at the tick frequency and arms the
/// interrupt, and the hardware handle it returns is stored for the interrupt
/// handler. A failure of `start` is passed on with its message. If `timer` is
/// occupied or in use, `start` is not called and nothing changes.
pub fn init<H: 'static, F: FnOnce() -> Result<H, &'static str>>(
    timer: &'static DriverCell<H>,
    start: F,
) -> (verdict: Result<(), &'static str>)
    requires
        call_requires(start, ()),
    ensures
        verdict is Ok ==> exists|hardware: H| call_ensures(start, (), Ok(hardware)),
        verdict matches Err(message) ==> message@ == already_initialized_message()
            || call_ensures(start, (), Err(message)),
{
    match DriverHandle::init(timer, start) {
        Ok(_) => Ok(()),
        Err(DriverError::InitFailed(message)) => Err(message),
        Err(_) => Err("System timer already initialized"),
    }
}

} // verus!
