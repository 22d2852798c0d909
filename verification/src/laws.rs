//! What holds of every machine, whatever its program and control table.

use vstd::prelude::*;
use crate::alu::AluOp;
use crate::bus::law_bus_two_drivers;
use crate::control::ControlSignals;
use crate::error::VmError;
use crate::flags::CPUFlags;
use crate::machine::MachineState;
use crate::memory::{MemoryState, STACK_BASE};

verus! {

/// The bus conflict law on the machine: while exactly two of its units
/// drive, the bus shows the bitwise OR of their two values. The units are
/// numbered as in [`MachineState::units`].
pub proof fn law_machine_bus_conflict(state: MachineState, first: int, second: int)
    requires
        0 <= first < second < state.units().len(),
        state.units()[first].value_out,
        state.units()[second].value_out,
        forall|k: int|
            0 <= k < state.units().len() && k != first && k != second ==> !(
            #[trigger] state.units()[k]).value_out,
    ensures
        state.bus() == state.units()[first].value | state.units()[second].value,
{
    law_bus_two_drivers(state.units(), first, second);
}

/// The bus conflict law for two registers of the machine: while the
/// program counter and the accumulator drive and no other unit does, the bus
/// shows the bitwise OR of their values.
pub proof fn law_registers_bus_conflict(state: MachineState)
    requires
        state.program_counter.value_out,
        state.accumulator.value_out,
        !state.memory_address_register.value_out,
        !state.instruction_register.value_out,
        !state.operand.value_out,
        !state.control.drive.stack_pointer,
        !state.control.drive.memory,
        state.control.alu_op is None,
    ensures
        state.bus() == state.program_counter.value | state.accumulator.value,
{
    law_machine_bus_conflict(state, 0, 3);
}

/// The fetch law: after the fetch step the memory address register holds
/// the address that the program counter held before, the instruction
/// register holds the byte at that address with the high byte clear, and the
/// program counter holds the next address. After the last address, 0xFFFF,
/// the next one is 0.
pub proof fn law_fetch(state: MachineState)
    requires
        !state.halted,
        state.micro_instruction_counter == 0,
    ensures
        state.step().memory_address_register.value == state.program_counter.value,
        state.step().instruction_register.value == state.memory.read(
            state.program_counter.value,
        ),
        state.program_counter.value < 0xFFFF ==> state.step().program_counter.value
            == state.program_counter.value + 1,
        state.program_counter.value == 0xFFFF ==> state.step().program_counter.value == 0,
        state.step().micro_instruction_counter == 1,
        state.step().flags == state.flags,
        state.step().memory == state.memory,
{
}

/// The flags are sticky: a pulse whose signals name no arithmetic operation
/// leaves the carry and the zero flag as they were.
pub proof fn law_flags_hold_without_alu(state: MachineState, signals: ControlSignals)
    requires
        signals.alu_op is None,
    ensures
        state.pulse(signals).flags == state.flags,
{
}

/// The flags are sticky: a step changes the carry or the zero flag only if
/// it is a table step that names an arithmetic operation.
pub proof fn law_flags_change_on_alu_steps_only(state: MachineState)
    requires
        !state.alu_tagged(),
    ensures
        state.step().flags == state.flags,
{
}

/// The flag law of an arithmetic pulse: afterwards the zero flag tells
/// whether the result of the arithmetic unit was 0, and the carry flag is the
/// carry out of the operation.
pub proof fn law_flags_follow_alu(state: MachineState, signals: ControlSignals, op: AluOp)
    requires
        !state.halted,
        signals.alu_op == Some(op),
    ensures
        state.pulse(signals).flags.zero <==> op.output(
            state.accumulator.value,
            state.operand.value,
        ).result == 0,
        state.pulse(signals).flags.carry == op.output(
            state.accumulator.value,
            state.operand.value,
        ).carry,
{
}

/// The zero-flag law: after a step that is tagged with an arithmetic
/// operation the zero flag reads true if the result was 0 and false if it
/// was not.
pub proof fn law_zero_flag(state: MachineState)
    requires
        state.alu_tagged(),
    ensures
        state.step().flags.zero <==> state.alu_result().result == 0,
        state.step().flags.carry == state.alu_result().carry,
{
}

/// The write-protection law of the memory: a write to a ROM address changes
/// no byte, neither of the ROM nor of the RAM, and no write at all changes
/// the ROM.
pub proof fn law_write_protection(memory: MemoryState, address: u16, value: u8)
    ensures
        !memory.writable(address) ==> memory.write(address, value) == memory,
        memory.write(address, value).rom == memory.rom,
{
}

/// The write-protection law of the machine: a pulse that tries to store at
/// a ROM address leaves the whole memory as it was and reports
/// [`VmError::IllegalWrite`].
pub proof fn law_illegal_store(state: MachineState, signals: ControlSignals)
    requires
        !state.halted,
        signals.latch.memory,
        signals.condition.holds(state.flags),
        !state.memory.writable(state.memory_address_register.value),
    ensures
        state.pulse(signals).memory == state.memory,
        state.pulse(signals).fault == Some(VmError::IllegalWrite),
{
}

/// No step changes the program image, and none changes the control table or
/// the address split.
pub proof fn law_rom_is_immutable(state: MachineState)
    ensures
        state.step().memory.rom == state.memory.rom,
        state.step().memory.ram_base == state.memory.ram_base,
        state.step().table == state.table,
{
}

/// What was loaded stays loaded however long the machine runs.
pub proof fn law_rom_survives_run(state: MachineState, pulses: nat)
    ensures
        state.run(pulses).memory.rom == state.memory.rom,
        state.run(pulses).table == state.table,
    decreases pulses,
{
    if pulses > 0 {
        law_rom_survives_run(state, (pulses - 1) as nat);
        law_rom_is_immutable(state.run((pulses - 1) as nat));
    }
}

/// A halted machine is frozen: no pulse changes anything.
pub proof fn law_halt_freezes(state: MachineState, signals: ControlSignals, pulses: nat)
    requires
        state.halted,
    ensures
        state.step() == state,
        state.pulse(signals) == state,
        state.run(pulses) == state,
    decreases pulses,
{
    if pulses > 0 {
        law_halt_freezes(state, signals, (pulses - 1) as nat);
    }
}

/// Steps keep a well-formed machine well formed.
pub proof fn law_step_keeps_wf(state: MachineState)
    requires
        state.wf(),
    ensures
        state.step().wf(),
{
}

/// Under a well-formed table the step counter never runs over: a table step
/// that does not end its instruction is not step 255.
pub proof fn law_counter_stays_in_range(state: MachineState, signals: ControlSignals)
    requires
        state.wf(),
        state.signals() == Some(signals),
        !signals.terminates(),
    ensures
        state.micro_instruction_counter < 255,
        state.step().micro_instruction_counter == state.micro_instruction_counter + 1,
{
    let row = state.table.rows[state.opcode() as int];
    assert(crate::control::TableState::row_ok(row));
}

/// The stack window lies in the RAM: whatever the stack pointer holds, the
/// stack address can be written.
pub proof fn law_stack_is_writable(state: MachineState)
    requires
        state.wf(),
    ensures
        state.stack_address() >= STACK_BASE,
        state.memory.writable(state.stack_address()),
{
}

/// A machine that was just built stands at its reset state, and a reset
/// brings any machine back to it.
pub proof fn law_reset_is_idempotent(state: MachineState)
    ensures
        state.reset().reset() == state.reset(),
        state.reset().flags == (CPUFlags { carry: false, zero: false }),
        state.reset().micro_instruction_counter == 0,
        !state.reset().halted,
{
}

} // verus!
