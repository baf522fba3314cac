//! Serial console setup.

use vstd::prelude::*;

verus! {

/// Prepares the serial console for diagnostic output. The console brings
/// itself up on first use, so there is nothing to do; the function marks the
/// place in the boot sequence.
pub fn init_uart() {
}

} // verus!
