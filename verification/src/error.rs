//! What can go wrong while a machine is built or runs.

use vstd::prelude::*;
use vstd::string::StringExecFns;

verus! {

/// The faults of the machine.
#[derive(Clone, Copy, Debug, PartialEq, Eq, Structural)]
pub enum VmError {
    /// The program image does not hold exactly 65,535 bytes. No machine is
    /// built from such an image.
    InvalidImageSize,
    /// A pulse tried to store a byte at an address that belongs to the ROM.
    /// The byte is not stored.
    IllegalWrite,
    /// The control table holds no signals for the instruction at hand. The
    /// sequencer halts.
    UnknownOpcode,
}

impl VmError {
    /// The text of [`VmError::message`] as a sequence of characters.
    pub open spec fn message_text(self) -> Seq<char> {
        match self {
            VmError::InvalidImageSize => "ROM image must be exactly 65535 (0xFFFF) bytes!"@,
            VmError::IllegalWrite => "Illegal write to a ROM address!"@,
            VmError::UnknownOpcode => "Unknown opcode: the control table has no entry for it!"@,
        }
    }

    /// A sentence for the person in front of the terminal.
    pub fn message(&self) -> (text: String)
        ensures
            text@ == self.message_text(),
    {
        match self {
            VmError::InvalidImageSize => String::from_str(
                "ROM image must be exactly 65535 (0xFFFF) bytes!",
            ),
            VmError::IllegalWrite => String::from_str("Illegal write to a ROM address!"),
            VmError::UnknownOpcode => String::from_str(
                "Unknown opcode: the control table has no entry for it!",
            ),
        }
    }
}

} // verus!
