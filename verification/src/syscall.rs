//! Minimal system call interface of the cooperative kernel.

use crate::scheduler::{TaskCommand, TaskSlot};
use vstd::prelude::*;

verus! {

/// The system calls that a task can make.
pub enum SyscallNumber {
    /// Give up the rest of the turn.
    Yield,
    /// Sleep for the number of milliseconds in the first argument.
    SleepMs,
}

/// What a system call returns to the task.
pub enum SyscallResult {
    /// The call has no value to return.
    Nothing,
}

/// Handles a system call that the task in `slot` makes at tick `now`.
/// `Yield` changes nothing. `SleepMs` moves the task's wake tick to `now`
/// plus `arg0` milliseconds in ticks, at least one tick, wrapping.
pub fn handle_syscall(num: SyscallNumber, arg0: u32, slot: &mut TaskSlot, now: u32) -> (result:
    SyscallResult)
    ensures
        result is Nothing,
        num is Yield ==> *final(slot) == *old(slot),
        num is SleepMs ==> final(slot)@ == old(slot)@.after_command(now, TaskCommand::SleepMs(arg0))
            && final(slot).same_task(*old(slot)),
{
    match num {
        SyscallNumber::Yield => SyscallResult::Nothing,
        SyscallNumber::SleepMs => {
            slot.apply_command(now, TaskCommand::SleepMs(arg0));
            SyscallResult::Nothing
        },
    }
}

} // verus!
