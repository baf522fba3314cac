use coop_kernel::drivers::{DriverCell, DriverHandle, ResourceCell};
use coop_kernel::timer::{
    force_tick, get_ticks, init, ms_to_ticks, on_timer_interrupt, SystemTick, TICK_FREQUENCY_HZ,
};
use std::cell::RefCell;

fn leak_cell<T>() -> &'static DriverCell<T> {
    Box::leak(Box::new(critical_section::Mutex::new(RefCell::new(ResourceCell::new()))))
}

#[test]
fn tick_frequency_is_one_kilohertz() {
    assert_eq!(TICK_FREQUENCY_HZ, 1000);
}

#[test]
fn ms_to_ticks_is_identity_at_one_kilohertz() {
    assert_eq!(ms_to_ticks(0), 0);
    assert_eq!(ms_to_ticks(1), 1);
    assert_eq!(ms_to_ticks(50), 50);
    assert_eq!(ms_to_ticks(500), 500);
    assert_eq!(ms_to_ticks(4_294_967), 4_294_967);
    assert_eq!(ms_to_ticks(4_294_968), 4_294_968);
    assert_eq!(ms_to_ticks(5_000_000), 5_000_000);
    assert_eq!(ms_to_ticks(u32::MAX), u32::MAX);
}

#[test]
fn counter_starts_at_zero_and_advances_by_one() {
    let clock = SystemTick::new();
    assert_eq!(get_ticks(&clock), 0);
    force_tick(&clock);
    assert_eq!(get_ticks(&clock), 1);
    for _ in 0..99 {
        force_tick(&clock);
    }
    assert_eq!(get_ticks(&clock), 100);
}

#[test]
fn counter_wraps_silently() {
    let clock = SystemTick { ticks: std::sync::atomic::AtomicU32::new(u32::MAX) };
    assert_eq!(get_ticks(&clock), u32::MAX);
    force_tick(&clock);
    assert_eq!(get_ticks(&clock), 0);
}

#[test]
fn timer_init_succeeds_once() {
    let cell = leak_cell::<u32>();
    assert_eq!(init(cell, || Ok(7)), Ok(()));
    assert_eq!(DriverHandle::new(cell).try_with(|hardware| *hardware), Some(7));
}

#[test]
fn timer_second_init_is_refused_and_does_nothing() {
    let cell = leak_cell::<u32>();
    assert_eq!(init(cell, || Ok(7)), Ok(()));
    let called = std::cell::Cell::new(false);
    let verdict = init(cell, || {
        called.set(true);
        Ok(8)
    });
    assert_eq!(verdict, Err("System timer already initialized"));
    assert!(!called.get());
    assert_eq!(DriverHandle::new(cell).try_with(|hardware| *hardware), Some(7));
}

#[test]
fn timer_init_passes_on_a_start_failure() {
    let cell = leak_cell::<u32>();
    assert_eq!(init(cell, || Err("Failed to start system timer")), Err("Failed to start system timer"));
    assert!(!DriverHandle::new(cell).is_ready());
    assert_eq!(
        init(cell, || Err("Failed to enable timer interrupt")),
        Err("Failed to enable timer interrupt")
    );
    assert_eq!(init(cell, || Ok(1)), Ok(()));
}

#[test]
fn interrupt_advances_the_counter_then_acknowledges() {
    let clock = SystemTick::new();
    let cell = leak_cell::<Vec<u32>>();
    assert_eq!(init(cell, || Ok(Vec::new())), Ok(()));
    let timer = DriverHandle::new(cell);
    on_timer_interrupt(&clock, &timer, |seen: &mut Vec<u32>| seen.push(get_ticks(&clock)));
    on_timer_interrupt(&clock, &timer, |seen: &mut Vec<u32>| seen.push(get_ticks(&clock)));
    assert_eq!(get_ticks(&clock), 2);
    assert_eq!(timer.take(), Some(vec![1, 2]));
}

#[test]
fn interrupt_before_init_still_ticks() {
    let clock = SystemTick::new();
    let timer = DriverHandle::new(leak_cell::<u32>());
    let acknowledged = std::cell::Cell::new(false);
    on_timer_interrupt(&clock, &timer, |_hardware: &mut u32| acknowledged.set(true));
    assert_eq!(get_ticks(&clock), 1);
    assert!(!acknowledged.get());
}
