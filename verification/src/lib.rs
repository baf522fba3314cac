//! A minimal cooperative kernel for a single-core microcontroller.
//!
//! Four pieces make up the core:
//!
//! - [`timer`]: a monotonic tick source that a hardware timer interrupt
//!   advances;
//! - [`stack`]: task stacks with a sentinel word at each end;
//! - [`scheduler`]: a priority-aware cooperative scheduler that polls tasks
//!   and interprets their sleep requests, over the bounded table in
//!   [`slot_table`];
//! - [`drivers`]: a broker of singleton hardware resources with ownership
//!   handoff between layered drivers.
//!
//! Around the core stand the tasks that the kernel ships with ([`task`],
//! with the menu in [`menu`]), the boot screen ([`screen`], [`oled`]),
//! fixed-point arithmetic for inference ([`ml`]), and small helpers.
//!
//! The library touches no hardware. Whatever reads a pin, draws on a panel or
//! configures a peripheral is handed in as a value or a closure.

pub mod bootloader_info;
pub mod drivers;
pub mod interrupts;
pub mod menu;
pub mod ml;
pub mod oled;
pub mod scheduler;
pub mod screen;
pub mod slot_table;
pub mod stack;
pub mod syscall;
pub mod task;
pub mod timer;
pub mod uart;
