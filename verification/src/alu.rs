//! The arithmetic unit.

use vstd::prelude::*;

verus! {

/// The operations of the arithmetic unit. Each works on the accumulator and
/// the operand register as they stand when the pulse begins.
#[derive(Clone, Copy, Debug, PartialEq, Eq)]
pub enum AluOp {
    /// Accumulator plus operand.
    Add,
    /// Accumulator minus operand.
    Subtract,
    /// The accumulator moved one bit to the left.
    ShiftLeft,
    /// The accumulator moved one bit to the right.
    ShiftRight,
}

/// What the arithmetic unit hands to the bus and to the flag unit.
#[derive(Clone, Copy, Debug, PartialEq, Eq)]
pub struct AluOutput {
    pub result: u16,
    pub carry: bool,
}

impl AluOp {
    /// The 16-bit result and the carry out of the operation.
    ///
    /// An addition carries when the sum does not fit in 16 bits. A
    /// subtraction is the addition of the two's complement, so it carries
    /// exactly when nothing had to be borrowed. A shift carries the bit that
    /// it pushes out.
    pub open spec fn output(self, accumulator: u16, operand: u16) -> AluOutput {
        match self {
            AluOp::Add => AluOutput {
                result: ((accumulator + operand) % 0x1_0000) as u16,
                carry: accumulator + operand > 0xFFFF,
            },
            AluOp::Subtract => AluOutput {
                result: ((accumulator - operand) % 0x1_0000) as u16,
                carry: accumulator >= operand,
            },
            AluOp::ShiftLeft => AluOutput {
                result: ((accumulator * 2) % 0x1_0000) as u16,
                carry: accumulator >= 0x8000,
            },
            AluOp::ShiftRight => AluOutput {
                result: accumulator / 2,
                carry: accumulator % 2 == 1,
            },
        }
    }

    /// Performs the operation.
    pub fn compute(self, accumulator: u16, operand: u16) -> (out: AluOutput)
        ensures
            out == self.output(accumulator, operand),
    {
        match self {
            AluOp::Add => {
                let sum: u32 = accumulator as u32 + operand as u32;
                if sum > 0xFFFF {
                    AluOutput { result: (sum - 0x1_0000) as u16, carry: true }
                } else {
                    AluOutput { result: sum as u16, carry: false }
                }
            },
            AluOp::Subtract => {
                if accumulator >= operand {
                    AluOutput { result: accumulator - operand, carry: true }
                } else {
                    let wrapped: u32 = 0x1_0000 + accumulator as u32 - operand as u32;
                    AluOutput { result: wrapped as u16, carry: false }
                }
            },
            AluOp::ShiftLeft => {
                if accumulator >= 0x8000 {
                    AluOutput { result: (accumulator - 0x8000) * 2, carry: true }
                } else {
                    AluOutput { result: accumulator * 2, carry: false }
                }
            },
            AluOp::ShiftRight => AluOutput {
                result: accumulator / 2,
                carry: accumulator % 2 == 1,
            },
        }
    }
}

} // verus!
