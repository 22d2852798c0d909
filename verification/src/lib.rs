//! A cycle-accurate model of the SIS16 breadboard-style microprocessor.
//!
//! The machine is a handful of registers around one shared 16-bit bus. A
//! sequencer turns every instruction into a fixed series of clock pulses;
//! during each pulse some units drive the bus, some capture it, the flag
//! unit follows the arithmetic unit, and the sequencer moves on.

pub mod alu;
pub mod bus;
pub mod cli;
pub mod control;
pub mod error;
pub mod flags;
pub mod laws;
pub mod machine;
pub mod memory;
pub mod register;
pub mod report;

pub use cli::{parse_args, Command};
pub use error::VmError;
pub use flags::CPUFlags;
pub use alu::{AluOp, AluOutput};
pub use control::{Condition, ControlSignals, ControlTable, StackStep, UnitSet};
pub use machine::{MachineState, Snapshot, VMOptions, VirtualMachine};
pub use memory::{Location, Memory};
pub use register::Register;
pub use report::report_error;
