//! Interrupt priorities and the critical-section primitive.

use vstd::prelude::*;

verus! {

/// Interrupt priority levels that the kernel uses.
#[derive(Clone, Copy, Debug, PartialEq, Eq, Structural)]
pub enum InterruptPriority {
    Level1,
    Level2,
    Level3,
}

impl InterruptPriority {
    /// The hardware priority level, 1 to 3.
    pub open spec fn spec_level(self) -> nat {
        match self {
            InterruptPriority::Level1 => 1,
            InterruptPriority::Level2 => 2,
            InterruptPriority::Level3 => 3,
        }
    }

    /// The hardware priority level, 1 to 3.
    pub fn level(self) -> (level: u8)
        ensures
            level == self.spec_level(),
            1 <= level <= 3,
    {
        match self {
            InterruptPriority::Level1 => 1,
            InterruptPriority::Level2 => 2,
            InterruptPriority::Level3 => 3,
        }
    }
}

/// Runs `f` inside a critical section and returns its result:
/// `critical_section::with` enters the section, calls the closure it is
/// given once, and leaves the section again. The contract claims that `f`
/// was called and that the result is what that call returned.
#[verifier::external_body]
pub fn with_critical<F, R>(f: F) -> (result: R) where F: FnOnce() -> R
    requires
        call_requires(f, ()),
    ensures
        call_ensures(f, (), result),
{
    critical_section::with(|_| f())
}

} // verus!
