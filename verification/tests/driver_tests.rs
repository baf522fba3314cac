use coop_kernel::drivers::gpio::init_led;
use coop_kernel::drivers::i2c::init_i2c0;
use coop_kernel::drivers::oled::{hand_over, init_oled, settle_handoff};
use coop_kernel::drivers::uart::init_uart;
use coop_kernel::drivers::{DriverCell, DriverError, DriverHandle, ResourceCell};
use std::cell::{Cell, RefCell};

fn leak_cell<T>() -> &'static DriverCell<T> {
    Box::leak(Box::new(critical_section::Mutex::new(RefCell::new(ResourceCell::new()))))
}

#[derive(Debug, PartialEq)]
struct Bus(u32);

#[derive(Debug, PartialEq)]
struct Display(Bus);

#[test]
fn new_cell_is_empty() {
    let cell: ResourceCell<u8> = ResourceCell::new();
    assert!(!cell.is_ready());
    assert!(cell.slot.is_none());
}

#[test]
fn cell_init_installs_the_instance() {
    let mut cell: ResourceCell<u8> = ResourceCell::new();
    assert!(matches!(cell.init(|| Ok(5)), Ok(())));
    assert!(cell.is_ready());
    assert_eq!(cell.slot, Some(5));
}

#[test]
fn cell_second_init_fails_and_keeps_the_first_instance() {
    let mut cell: ResourceCell<u8> = ResourceCell::new();
    assert!(matches!(cell.init(|| Ok(5)), Ok(())));
    let called = Cell::new(false);
    let second = cell.init(|| {
        called.set(true);
        Ok(6)
    });
    assert!(matches!(second, Err(DriverError::AlreadyInitialized)));
    assert!(!called.get());
    assert_eq!(cell.slot, Some(5));
}

#[test]
fn cell_failed_init_reports_the_reason_and_stays_empty() {
    let mut cell: ResourceCell<u8> = ResourceCell::new();
    let verdict = cell.init(|| Err("no such device"));
    assert!(matches!(verdict, Err(DriverError::InitFailed("no such device"))));
    assert!(!cell.is_ready());
    assert!(matches!(cell.init(|| Ok(1)), Ok(())));
    assert_eq!(cell.slot, Some(1));
}

#[test]
fn cell_take_on_empty_is_absent() {
    let mut cell: ResourceCell<u8> = ResourceCell::new();
    assert_eq!(cell.take(), None);
    assert!(!cell.is_ready());
}

#[test]
fn cell_take_then_replace_makes_the_resource_visible_again() {
    let mut cell: ResourceCell<u8> = ResourceCell::new();
    assert_eq!(cell.take(), None);
    assert_eq!(cell.try_with(|value| *value), None);
    assert_eq!(cell.replace(9), None);
    assert_eq!(cell.try_with(|value| *value), Some(9));
    assert!(cell.is_ready());
}

#[test]
fn cell_take_removes_the_instance() {
    let mut cell = ResourceCell { slot: Some(3u8) };
    assert_eq!(cell.take(), Some(3));
    assert_eq!(cell.take(), None);
    assert_eq!(cell.try_with(|value| *value), None);
}

#[test]
fn cell_replace_returns_the_previous_instance() {
    let mut cell = ResourceCell { slot: Some(3u8) };
    assert_eq!(cell.replace(4), Some(3));
    assert_eq!(cell.slot, Some(4));
}

#[test]
fn cell_try_with_can_change_the_instance() {
    let mut cell = ResourceCell { slot: Some(10u32) };
    let seen = cell.try_with(|value| {
        *value += 1;
        *value * 2
    });
    assert_eq!(seen, Some(22));
    assert_eq!(cell.slot, Some(11));
}

#[test]
fn handle_init_returns_a_working_handle() {
    let cell = leak_cell::<u32>();
    let handle = DriverHandle::init(cell, || Ok(41)).expect("empty cell");
    assert!(handle.is_ready());
    assert_eq!(handle.try_with(|value| *value + 1), Some(42));
}

#[test]
fn handle_second_init_is_refused_and_first_instance_unaffected() {
    let cell = leak_cell::<u32>();
    let first = DriverHandle::init(cell, || Ok(1)).expect("empty cell");
    let second = DriverHandle::init(cell, || Ok(2));
    assert!(matches!(second, Err(DriverError::AlreadyInitialized)));
    assert_eq!(first.try_with(|value| *value), Some(1));
}

#[test]
fn handle_init_failure_leaves_the_cell_empty() {
    let cell = leak_cell::<u32>();
    let verdict = DriverHandle::init(cell, || Err("bad wiring"));
    assert!(matches!(verdict, Err(DriverError::InitFailed("bad wiring"))));
    assert!(!DriverHandle::new(cell).is_ready());
}

#[test]
fn handle_take_on_empty_cell_is_absent_then_replace_restores() {
    let handle = DriverHandle::new(leak_cell::<u32>());
    assert_eq!(handle.take(), None);
    assert_eq!(handle.try_with(|value| *value), None);
    assert_eq!(handle.replace(5), None);
    assert_eq!(handle.try_with(|value| *value), Some(5));
}

#[test]
fn handle_copies_refer_to_the_same_cell() {
    let handle = DriverHandle::new(leak_cell::<u32>());
    let copy = handle;
    let clone = handle.clone();
    assert_eq!(handle.replace(1), None);
    assert_eq!(copy.take(), Some(1));
    assert!(!clone.is_ready());
    assert_eq!(clone.replace(2), None);
    assert_eq!(handle.replace(3), Some(2));
}

#[test]
fn handle_in_use_is_reported_absent_to_nested_callers() {
    let handle = DriverHandle::new(leak_cell::<u32>());
    assert_eq!(handle.replace(1), None);
    let nested = handle.try_with(|value| {
        *value = 2;
        (handle.is_ready(), handle.take(), handle.try_with(|inner| *inner), handle.replace(9))
    });
    assert_eq!(nested, Some((false, None, None, None)));
    assert_eq!(handle.take(), Some(2));
}

#[test]
fn uart_is_claimed_once() {
    let cell = leak_cell::<()>();
    let handle = init_uart(cell).expect("first claim");
    assert!(handle.is_ready());
    assert!(matches!(init_uart(cell), Err(DriverError::AlreadyInitialized)));
}

#[test]
fn led_is_claimed_once() {
    let cell = leak_cell::<bool>();
    let handle = init_led(cell, || false).expect("first claim");
    assert_eq!(handle.try_with(|level| *level), Some(false));
    let configured = Cell::new(false);
    let second = init_led(cell, || {
        configured.set(true);
        true
    });
    assert!(matches!(second, Err(DriverError::AlreadyInitialized)));
    assert!(!configured.get());
    assert_eq!(handle.try_with(|level| *level), Some(false));
}

#[test]
fn i2c_failure_is_reported_as_i2c_init() {
    let cell = leak_cell::<Bus>();
    let verdict = init_i2c0(cell, || Err::<Bus, u8>(3));
    assert!(matches!(verdict, Err(DriverError::InitFailed("i2c init"))));
    let handle = init_i2c0(cell, || Ok::<Bus, u8>(Bus(400))).expect("empty cell");
    assert_eq!(handle.take(), Some(Bus(400)));
}

#[test]
fn i2c_second_init_is_refused() {
    let cell = leak_cell::<Bus>();
    let _first = init_i2c0(cell, || Ok::<Bus, u8>(Bus(400))).expect("empty cell");
    let second = init_i2c0(cell, || Ok::<Bus, u8>(Bus(100)));
    assert!(matches!(second, Err(DriverError::AlreadyInitialized)));
    assert_eq!(DriverHandle::new(cell).take(), Some(Bus(400)));
}

#[test]
fn oled_init_moves_the_bus_into_the_display() {
    let i2c = DriverHandle::new(leak_cell::<Bus>());
    assert_eq!(i2c.replace(Bus(7)), None);
    let oled = leak_cell::<Display>();
    let handle = init_oled(&i2c, oled, |bus| Ok(Display(bus))).expect("bus present");
    assert!(!i2c.is_ready());
    assert_eq!(handle.take(), Some(Display(Bus(7))));
}

#[test]
fn oled_init_without_bus_is_not_ready() {
    let i2c = DriverHandle::new(leak_cell::<Bus>());
    let oled = leak_cell::<Display>();
    let built = Cell::new(false);
    let verdict = init_oled(&i2c, oled, |bus| {
        built.set(true);
        Ok(Display(bus))
    });
    assert!(matches!(verdict, Err(DriverError::NotReady)));
    assert!(!built.get());
    assert!(!DriverHandle::new(oled).is_ready());
}

#[test]
fn oled_init_on_occupied_cell_puts_the_bus_back() {
    let i2c = DriverHandle::new(leak_cell::<Bus>());
    assert_eq!(i2c.replace(Bus(7)), None);
    let oled = leak_cell::<Display>();
    assert_eq!(DriverHandle::new(oled).replace(Display(Bus(1))), None);
    let verdict = init_oled(&i2c, oled, |bus| Ok(Display(bus)));
    assert!(matches!(verdict, Err(DriverError::AlreadyInitialized)));
    assert_eq!(i2c.take(), Some(Bus(7)));
    assert_eq!(DriverHandle::new(oled).take(), Some(Display(Bus(1))));
}

#[test]
fn oled_init_failure_puts_the_bus_back() {
    let i2c = DriverHandle::new(leak_cell::<Bus>());
    assert_eq!(i2c.replace(Bus(7)), None);
    let oled = leak_cell::<Display>();
    let verdict = init_oled(&i2c, oled, |bus| Err::<Display, Bus>(bus));
    assert!(matches!(verdict, Err(DriverError::InitFailed("oled init"))));
    assert_eq!(i2c.take(), Some(Bus(7)));
    assert!(!DriverHandle::new(oled).is_ready());
}

#[test]
fn hand_over_success() {
    let mut bus = ResourceCell { slot: Some(Bus(7)) };
    let mut display: ResourceCell<Display> = ResourceCell::new();
    let verdict = hand_over(&mut bus, &mut display, |bus| Ok(Display(bus)));
    assert!(matches!(verdict, Ok(())));
    assert_eq!(bus.slot, None);
    assert_eq!(display.slot, Some(Display(Bus(7))));
}

#[test]
fn hand_over_without_bus() {
    let mut bus: ResourceCell<Bus> = ResourceCell::new();
    let mut display: ResourceCell<Display> = ResourceCell::new();
    let verdict = hand_over(&mut bus, &mut display, |bus| Ok(Display(bus)));
    assert!(matches!(verdict, Err(DriverError::NotReady)));
    assert_eq!(bus.slot, None);
    assert_eq!(display.slot, None);
}

#[test]
fn hand_over_with_display_present_keeps_both() {
    let mut bus = ResourceCell { slot: Some(Bus(7)) };
    let mut display = ResourceCell { slot: Some(Display(Bus(1))) };
    let verdict = hand_over(&mut bus, &mut display, |bus| Ok(Display(bus)));
    assert!(matches!(verdict, Err(DriverError::AlreadyInitialized)));
    assert_eq!(bus.slot, Some(Bus(7)));
    assert_eq!(display.slot, Some(Display(Bus(1))));
}

#[test]
fn hand_over_failure_returns_the_bus() {
    let mut bus = ResourceCell { slot: Some(Bus(7)) };
    let mut display: ResourceCell<Display> = ResourceCell::new();
    let verdict = hand_over(&mut bus, &mut display, |bus| Err::<Display, Bus>(bus));
    assert!(matches!(verdict, Err(DriverError::InitFailed("oled init"))));
    assert_eq!(bus.slot, Some(Bus(7)));
    assert_eq!(display.slot, None);
}

#[test]
fn settle_without_bus_is_not_ready_and_builds_nothing() {
    let built = Cell::new(false);
    let (back, driver, verdict) = settle_handoff(None::<Bus>, false, |bus| {
        built.set(true);
        Ok::<Display, Bus>(Display(bus))
    });
    assert_eq!(back, None);
    assert_eq!(driver, None);
    assert!(matches!(verdict, Err(DriverError::NotReady)));
    assert!(!built.get());
    let (_, _, verdict) = settle_handoff(None::<Bus>, true, |bus| Ok::<Display, Bus>(Display(bus)));
    assert!(matches!(verdict, Err(DriverError::NotReady)));
}

#[test]
fn settle_with_display_present_hands_the_bus_back() {
    let built = Cell::new(false);
    let (back, driver, verdict) = settle_handoff(Some(Bus(7)), true, |bus| {
        built.set(true);
        Ok::<Display, Bus>(Display(bus))
    });
    assert_eq!(back, Some(Bus(7)));
    assert_eq!(driver, None);
    assert!(matches!(verdict, Err(DriverError::AlreadyInitialized)));
    assert!(!built.get());
}

#[test]
fn settle_success_hands_the_display_over() {
    let (back, driver, verdict) =
        settle_handoff(Some(Bus(7)), false, |bus| Ok::<Display, Bus>(Display(bus)));
    assert_eq!(back, None);
    assert_eq!(driver, Some(Display(Bus(7))));
    assert!(matches!(verdict, Ok(())));
}

#[test]
fn settle_failure_hands_the_bus_back() {
    let (back, driver, verdict) =
        settle_handoff(Some(Bus(7)), false, |bus| Err::<Display, Bus>(bus));
    assert_eq!(back, Some(Bus(7)));
    assert_eq!(driver, None);
    assert!(matches!(verdict, Err(DriverError::InitFailed("oled init"))));
}

