//! The flag unit: two sticky bits that follow the arithmetic unit.

use vstd::prelude::*;

verus! {

/// The carry and zero flags.
///
/// Both are clear after a reset. They change only when [`CPUFlags::update`]
/// is called, which the machine does on arithmetic pulses alone, and keep
/// their value in between.
#[derive(Clone, Copy, Debug, PartialEq, Eq, Structural)]
pub struct CPUFlags {
    pub carry: bool,
    pub zero: bool,
}

impl CPUFlags {
    /// The flags as they are after a reset: both clear.
    pub fn new() -> (flags: CPUFlags)
        ensures
            flags == (CPUFlags { carry: false, zero: false }),
    {
        CPUFlags { carry: false, zero: false }
    }

    /// The flags that an arithmetic result leaves behind: zero tells whether
    /// the result is 0, carry repeats the carry out of the operation.
    pub open spec fn after(result: u16, carry_out: bool) -> CPUFlags {
        CPUFlags { carry: carry_out, zero: result == 0 }
    }

    /// Takes over the outcome of an arithmetic operation.
    pub fn update(&mut self, result: u16, carry_out: bool)
        ensures
            *final(self) == CPUFlags::after(result, carry_out),
    {
        self.carry = carry_out;
        self.zero = result == 0;
    }
}

} // verus!
