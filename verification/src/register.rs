//! The 16-bit registers that sit on the bus.

use vstd::prelude::*;

verus! {

/// A 16-bit register with its two control lines.
///
/// While `value_out` is up the register puts its value on the bus; while
/// `value_in` is up it takes the bus value at the clock pulse. The sequencer
/// sets both lines anew for every pulse.
#[derive(Clone, Copy, Debug, PartialEq, Eq, Structural)]
pub struct Register {
    pub value: u16,
    pub value_out: bool,
    pub value_in: bool,
}

impl Register {
    /// A register after a reset: it holds 0 and both lines are down.
    pub fn new() -> (register: Register)
        ensures
            register == (Register { value: 0, value_out: false, value_in: false }),
    {
        Register { value: 0, value_out: false, value_in: false }
    }

    /// What the register contributes to the bus: its value while it drives,
    /// nothing (all bits low) while it does not.
    pub open spec fn driven(self) -> u16 {
        if self.value_out {
            self.value
        } else {
            0
        }
    }

    /// The register once the pulse has passed with `bus` on the bus: a
    /// latching register holds the bus value, any other keeps its own.
    pub open spec fn latched(self, bus: u16, enabled: bool) -> Register {
        Register { value: if self.value_in && enabled { bus } else { self.value }, ..self }
    }

    /// A counting register once the pulse has passed: it holds the bus
    /// value if it latches, and else its own value plus one, modulo 65,536.
    pub open spec fn counted(self, bus: u16, enabled: bool) -> Register {
        Register {
            value: if self.value_in && enabled {
                bus
            } else {
                ((self.value + 1) % 0x1_0000) as u16
            },
            ..self
        }
    }

    /// The register with its control lines set to `out` and `inp`.
    pub open spec fn with_lines(self, out: bool, inp: bool) -> Register {
        Register { value_out: out, value_in: inp, ..self }
    }

    /// Clocks the register: it takes `bus` if its latch line is up and
    /// latching is enabled at this pulse.
    pub fn latch(&mut self, bus: u16, enabled: bool)
        ensures
            *final(self) == old(self).latched(bus, enabled),
    {
        if self.value_in && enabled {
            self.value = bus;
        }
    }

    /// Clocks the register while it is told to count: it takes `bus` if it
    /// latches, and counts up by one otherwise.
    pub fn count(&mut self, bus: u16, enabled: bool)
        ensures
            *final(self) == old(self).counted(bus, enabled),
    {
        if self.value_in && enabled {
            self.value = bus;
        } else if self.value == 0xFFFF {
            self.value = 0;
        } else {
            self.value = self.value + 1;
        }
    }

    /// The value that the register holds.
    pub fn read(&self) -> (value: u16)
        ensures
            value == self.value,
    {
        self.value
    }
}

} // verus!
