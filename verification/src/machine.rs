//! The machine: registers, flags, memory and the sequencer that drives them.

use vstd::prelude::*;
use crate::alu::AluOutput;
use crate::bus::{bus_of, compute};
use crate::control::{ControlSignals, ControlTable, TableState, FIRST_TABLE_STEP};
use crate::error::VmError;
use crate::flags::CPUFlags;
use crate::memory::{Memory, MemoryState, DEFAULT_RAM_BASE, MEMORY_SIZE, STACK_BASE};
use crate::register::Register;

verus! {

/// What the loader hands over together with the program image.
#[derive(Debug)]
pub struct VMOptions {
    /// The name of the file that the image came from.
    pub rom_binary: String,
    /// Whether the host wants to look at the machine between pulses.
    pub debug: bool,
}

/// The values of the machine between two pulses, for a debugger to print.
#[derive(Clone, Copy, Debug, PartialEq, Eq)]
pub struct Snapshot {
    pub program_counter: u16,
    pub memory_address_register: u16,
    pub instruction_register: u16,
    pub accumulator: u16,
    pub operand: u16,
    pub stack_pointer: u8,
    pub carry: bool,
    pub zero: bool,
    pub micro_instruction_counter: u8,
    pub halted: bool,
    pub fault: Option<VmError>,
}

/// The whole machine as a mathematical value.
///
/// Execution is a function on these values: [`MachineState::step`] maps the
/// state before a clock pulse to the state after it.
#[verifier::ext_equal]
pub struct MachineState {
    pub options: VMOptions,
    pub memory: MemoryState,
    pub table: TableState,
    pub program_counter: Register,
    pub memory_address_register: Register,
    pub instruction_register: Register,
    pub accumulator: Register,
    pub operand: Register,
    pub stack_pointer: u8,
    pub flags: CPUFlags,
    pub micro_instruction_counter: u8,
    /// The signals that were asserted for the latest pulse.
    pub control: ControlSignals,
    pub halted: bool,
    /// The latest fault, for the host to look at.
    pub fault: Option<VmError>,
}

impl MachineState {
    /// The memory and the control table are well formed.
    pub open spec fn wf(self) -> bool {
        &&& self.memory.wf()
        &&& self.table.wf()
    }

    /// A register after a reset.
    pub open spec fn cleared() -> Register {
        Register { value: 0, value_out: false, value_in: false }
    }

    /// The state right after a reset, around the given memory and table:
    /// registers, stack pointer, flags and step counter are zero, no line is
    /// up, and the sequencer is about to fetch.
    pub open spec fn initial(options: VMOptions, memory: MemoryState, table: TableState) -> MachineState {
        MachineState {
            options,
            memory,
            table,
            program_counter: Self::cleared(),
            memory_address_register: Self::cleared(),
            instruction_register: Self::cleared(),
            accumulator: Self::cleared(),
            operand: Self::cleared(),
            stack_pointer: 0,
            flags: CPUFlags { carry: false, zero: false },
            micro_instruction_counter: 0,
            control: ControlSignals::quiet(),
            halted: false,
            fault: None,
        }
    }

    /// The state of a machine that was just built around `image`: the image
    /// is the ROM, the RAM holds zeros, the control table is empty.
    pub open spec fn power_on(options: VMOptions, image: Seq<u8>) -> MachineState {
        Self::initial(
            options,
            MemoryState {
                rom: image,
                ram: Seq::new(MEMORY_SIZE as nat, |i: int| 0u8),
                ram_base: DEFAULT_RAM_BASE,
            },
            TableState::empty(),
        )
    }

    /// The state after an external reset: as after power-on, but the control
    /// table and the address split stay.
    pub open spec fn reset(self) -> MachineState {
        Self::initial(
            self.options,
            MemoryState { ram: Seq::new(MEMORY_SIZE as nat, |i: int| 0u8), ..self.memory },
            self.table,
        )
    }

    /// The opcode of the instruction at hand: the low byte of the
    /// instruction register.
    pub open spec fn opcode(self) -> u8 {
        (self.instruction_register.value % 256) as u8
    }

    /// The address that the stack pointer stands for.
    pub open spec fn stack_address(self) -> u16 {
        (STACK_BASE + self.stack_pointer) as u16
    }

    /// What the arithmetic unit computes from the accumulator and the
    /// operand register, on a step that is tagged with an operation.
    pub open spec fn alu_output(self) -> Option<AluOutput> {
        match self.control.alu_op {
            Some(op) => Some(op.output(self.accumulator.value, self.operand.value)),
            None => None,
        }
    }

    /// The stack pointer as a unit on the bus: it drives the stack address.
    pub open spec fn stack_port(self) -> Register {
        Register {
            value: self.stack_address(),
            value_out: self.control.drive.stack_pointer,
            value_in: self.control.latch.stack_pointer,
        }
    }

    /// The memory as a unit on the bus: it drives the byte that the memory
    /// address register points at, with the high byte of the bus left low.
    pub open spec fn memory_port(self) -> Register {
        Register {
            value: self.memory.read(self.memory_address_register.value) as u16,
            value_out: self.control.drive.memory,
            value_in: self.control.latch.memory,
        }
    }

    /// The arithmetic unit as a unit on the bus: on an arithmetic step it
    /// drives its result. It never latches.
    pub open spec fn alu_port(self) -> Register {
        match self.alu_output() {
            Some(out) => Register { value: out.result, value_out: true, value_in: false },
            None => Register { value: 0, value_out: false, value_in: false },
        }
    }

    /// All units that are connected to the bus.
    pub open spec fn units(self) -> Seq<Register> {
        seq![
            self.program_counter,
            self.memory_address_register,
            self.instruction_register,
            self.accumulator,
            self.operand,
            self.stack_port(),
            self.memory_port(),
            self.alu_port(),
        ]
    }

    /// The value on the bus while the lines stand as they do.
    pub open spec fn bus(self) -> u16 {
        bus_of(self.units())
    }

    /// The state with the lines set as `signals` says. No value changes.
    pub open spec fn asserted(self, signals: ControlSignals) -> MachineState {
        MachineState {
            program_counter: self.program_counter.with_lines(
                signals.drive.program_counter,
                signals.latch.program_counter,
            ),
            memory_address_register: self.memory_address_register.with_lines(
                signals.drive.memory_address_register,
                signals.latch.memory_address_register,
            ),
            instruction_register: self.instruction_register.with_lines(
                signals.drive.instruction_register,
                signals.latch.instruction_register,
            ),
            accumulator: self.accumulator.with_lines(
                signals.drive.accumulator,
                signals.latch.accumulator,
            ),
            operand: self.operand.with_lines(signals.drive.operand, signals.latch.operand),
            control: signals,
            ..self
        }
    }

    /// Whether the latching units take the bus value at this pulse: the
    /// condition of the step is met by the flags as they stand.
    pub open spec fn latching(self) -> bool {
        self.control.condition.holds(self.flags)
    }

    /// The program counter after the pulse: it takes the bus value if it
    /// latches, else it counts up if told to.
    pub open spec fn program_counter_clocked(self) -> Register {
        if self.control.count_enable {
            self.program_counter.counted(self.bus(), self.latching())
        } else {
            self.program_counter.latched(self.bus(), self.latching())
        }
    }

    /// The stack pointer after the pulse: it takes the low byte of the bus if
    /// it latches, else it counts as told.
    pub open spec fn stack_pointer_clocked(self) -> u8 {
        if self.control.latch.stack_pointer && self.latching() {
            (self.bus() % 256) as u8
        } else {
            self.control.stack_step.applied(self.stack_pointer)
        }
    }

    /// Whether the memory takes a byte at this pulse.
    pub open spec fn storing(self) -> bool {
        self.control.latch.memory && self.latching()
    }

    /// The state after the clock edge, with the lines as they stand. The bus
    /// settles first, and every latching unit takes the same bus value:
    /// registers take all of it, the stack pointer and the memory its low
    /// byte. The memory stores at the address that the memory address
    /// register held before the edge. A store to a ROM address is dropped and
    /// leaves [`VmError::IllegalWrite`] as the fault.
    pub open spec fn clocked(self) -> MachineState {
        let bus = self.bus();
        let enabled = self.latching();
        let address = self.memory_address_register.value;
        MachineState {
            program_counter: self.program_counter_clocked(),
            memory_address_register: self.memory_address_register.latched(bus, enabled),
            instruction_register: self.instruction_register.latched(bus, enabled),
            accumulator: self.accumulator.latched(bus, enabled),
            operand: self.operand.latched(bus, enabled),
            stack_pointer: self.stack_pointer_clocked(),
            memory: if self.storing() {
                self.memory.write(address, (bus % 256) as u8)
            } else {
                self.memory
            },
            fault: if self.storing() && !self.memory.writable(address) {
                Some(VmError::IllegalWrite)
            } else {
                self.fault
            },
            ..self
        }
    }

    /// The step counter after a step with the given signals: it stays on a
    /// halt, returns to 0 after the last step of an instruction, and counts
    /// up otherwise.
    pub open spec fn counter_after(self, signals: ControlSignals) -> u8 {
        if signals.halt {
            self.micro_instruction_counter
        } else if signals.is_last {
            0
        } else {
            ((self.micro_instruction_counter + 1) % 256) as u8
        }
    }

    /// The state after one clock pulse under the given signals.
    ///
    /// The signals are asserted; the bus settles; the latching units take
    /// the bus value; on an arithmetic step the flags follow the result of
    /// the arithmetic unit, else they stay; the sequencer moves. A halted
    /// machine stays as it is.
    pub open spec fn pulse(self, signals: ControlSignals) -> MachineState {
        if self.halted {
            self
        } else {
            let lined = self.asserted(signals);
            MachineState {
                flags: match lined.alu_output() {
                    Some(out) => CPUFlags::after(out.result, out.carry),
                    None => self.flags,
                },
                micro_instruction_counter: self.counter_after(signals),
                halted: signals.halt,
                ..lined.clocked()
            }
        }
    }

    /// The state after the fetch step: the memory address register holds
    /// the address that the program counter held, the instruction register
    /// holds the byte at that address, the program counter has counted up,
    /// and decode is next. No table signal is up.
    pub open spec fn fetched(self) -> MachineState {
        let address = self.program_counter.value;
        let quiet = self.asserted(ControlSignals::quiet());
        MachineState {
            program_counter: Register {
                value: ((address + 1) % 0x1_0000) as u16,
                ..quiet.program_counter
            },
            memory_address_register: Register { value: address, ..quiet.memory_address_register },
            instruction_register: Register {
                value: self.memory.read(address) as u16,
                ..quiet.instruction_register
            },
            micro_instruction_counter: 1,
            ..quiet
        }
    }

    /// The state after a fault that stops the sequencer.
    pub open spec fn stopped(self, fault: VmError) -> MachineState {
        MachineState { halted: true, fault: Some(fault), ..self }
    }

    /// The state after the decode step: the first table step is next if the
    /// table defines the opcode; else the machine halts with
    /// [`VmError::UnknownOpcode`]. No table signal is up.
    pub open spec fn decoded(self) -> MachineState {
        let quiet = self.asserted(ControlSignals::quiet());
        if self.table.defines(self.opcode()) {
            MachineState { micro_instruction_counter: FIRST_TABLE_STEP, ..quiet }
        } else {
            quiet.stopped(VmError::UnknownOpcode)
        }
    }

    /// The state after one clock pulse.
    ///
    /// Step 0 fetches and step 1 decodes. Every later step takes its
    /// signals from the control table, by the opcode and the step counter;
    /// where the table holds none, the machine halts with
    /// [`VmError::UnknownOpcode`]. A halted machine stays as it is.
    pub open spec fn step(self) -> MachineState {
        if self.halted {
            self
        } else if self.micro_instruction_counter == 0 {
            self.fetched()
        } else if self.micro_instruction_counter == 1 {
            self.decoded()
        } else {
            match self.table.lookup(self.opcode(), self.micro_instruction_counter) {
                Some(signals) => self.pulse(signals),
                None => self.stopped(VmError::UnknownOpcode),
            }
        }
    }

    /// What a debugger shows of the machine.
    pub open spec fn snapshot(self) -> Snapshot {
        Snapshot {
            program_counter: self.program_counter.value,
            memory_address_register: self.memory_address_register.value,
            instruction_register: self.instruction_register.value,
            accumulator: self.accumulator.value,
            operand: self.operand.value,
            stack_pointer: self.stack_pointer,
            carry: self.flags.carry,
            zero: self.flags.zero,
            micro_instruction_counter: self.micro_instruction_counter,
            halted: self.halted,
            fault: self.fault,
        }
    }

    /// The table signals of the step that the next pulse runs, if it is a
    /// table step and the table holds signals for it.
    pub open spec fn signals(self) -> Option<ControlSignals> {
        if self.halted {
            None
        } else {
            self.table.lookup(self.opcode(), self.micro_instruction_counter)
        }
    }

    /// Whether the next pulse runs a step that is tagged with an arithmetic
    /// operation.
    pub open spec fn alu_tagged(self) -> bool {
        self.signals() matches Some(signals) && signals.alu_op is Some
    }

    /// What the arithmetic unit computes on the step that the next pulse
    /// runs, if that is an arithmetic step.
    pub open spec fn alu_result(self) -> AluOutput {
        self.signals()->0.alu_op->0.output(self.accumulator.value, self.operand.value)
    }

    /// The state after the given number of clock pulses.
    pub open spec fn run(self, pulses: nat) -> MachineState
        decreases pulses,
    {
        if pulses == 0 {
            self
        } else {
            self.run((pulses - 1) as nat).step()
        }
    }
}

/// The SIS16 virtual machine.
#[derive(Debug)]
pub struct VirtualMachine {
    options: VMOptions,
    memory: Memory,
    table: ControlTable,
    program_counter: Register,
    memory_address_register: Register,
    instruction_register: Register,
    accumulator: Register,
    operand: Register,
    stack_pointer: u8,
    flags: CPUFlags,
    micro_instruction_counter: u8,
    control: ControlSignals,
    halted: bool,
    fault: Option<VmError>,
}

impl View for VirtualMachine {
    type V = MachineState;

    closed spec fn view(&self) -> MachineState {
        MachineState {
            options: self.options,
            memory: self.memory@,
            table: self.table@,
            program_counter: self.program_counter,
            memory_address_register: self.memory_address_register,
            instruction_register: self.instruction_register,
            accumulator: self.accumulator,
            operand: self.operand,
            stack_pointer: self.stack_pointer,
            flags: self.flags,
            micro_instruction_counter: self.micro_instruction_counter,
            control: self.control,
            halted: self.halted,
            fault: self.fault,
        }
    }
}

impl VirtualMachine {
    /// What every machine that this module hands out satisfies, and every
    /// method keeps: the memory and the control table are well formed.
    pub open spec fn wf(&self) -> bool {
        self@.wf()
    }

    /// Builds a machine around a program image.
    ///
    /// An image of exactly 65,535 bytes always gives a machine: the image is
    /// its ROM, and everything else is zero. Any other image is refused with
    /// [`VmError::InvalidImageSize`].
    pub fn new(options: VMOptions, image: Vec<u8>) -> (built: Result<VirtualMachine, VmError>)
        ensures
            built is Ok <==> image@.len() == MEMORY_SIZE,
            built matches Ok(machine) ==> machine.wf() && machine@ == MachineState::power_on(
                options,
                image@,
            ),
            built matches Err(error) ==> error == VmError::InvalidImageSize,
    {
        match Memory::new(image) {
            Err(error) => Err(error),
            Ok(memory) => Ok(
                VirtualMachine {
                    options,
                    memory,
                    table: ControlTable::new(),
                    program_counter: Register::new(),
                    memory_address_register: Register::new(),
                    instruction_register: Register::new(),
                    accumulator: Register::new(),
                    operand: Register::new(),
                    stack_pointer: 0,
                    flags: CPUFlags::new(),
                    micro_instruction_counter: 0,
                    control: ControlSignals::idle(),
                    halted: false,
                    fault: None,
                },
            ),
        }
    }

    /// What the loader handed over.
    pub fn options(&self) -> (options: &VMOptions)
        ensures
            *options == self@.options,
    {
        &self.options
    }

    /// Whether the host asked for debugging.
    pub fn debug(&self) -> (debug: bool)
        ensures
            debug == self@.options.debug,
    {
        self.options.debug
    }

    /// The program counter.
    pub fn program_counter(&self) -> (register: Register)
        ensures
            register == self@.program_counter,
    {
        self.program_counter
    }

    /// The memory address register.
    pub fn memory_address_register(&self) -> (register: Register)
        ensures
            register == self@.memory_address_register,
    {
        self.memory_address_register
    }

    /// The instruction register.
    pub fn instruction_register(&self) -> (register: Register)
        ensures
            register == self@.instruction_register,
    {
        self.instruction_register
    }

    /// The accumulator, register A: the first input of the arithmetic unit.
    pub fn accumulator(&self) -> (register: Register)
        ensures
            register == self@.accumulator,
    {
        self.accumulator
    }

    /// The operand register, register B: the second input of the arithmetic
    /// unit.
    pub fn operand(&self) -> (register: Register)
        ensures
            register == self@.operand,
    {
        self.operand
    }

    /// The stack pointer.
    pub fn stack_pointer(&self) -> (pointer: u8)
        ensures
            pointer == self@.stack_pointer,
    {
        self.stack_pointer
    }

    /// The carry and the zero flag.
    pub fn flags(&self) -> (flags: CPUFlags)
        ensures
            flags == self@.flags,
    {
        self.flags
    }

    /// The number of the step that the next pulse runs: 0 for fetch, 1 for
    /// decode, 2 and up for the steps of the control table.
    pub fn micro_instruction_counter(&self) -> (step: u8)
        ensures
            step == self@.micro_instruction_counter,
    {
        self.micro_instruction_counter
    }

    /// Whether the sequencer is about to fetch the next instruction.
    pub fn at_fetch(&self) -> (fetching: bool)
        ensures
            fetching == (!self@.halted && self@.micro_instruction_counter == 0),
    {
        !self.halted && self.micro_instruction_counter == 0
    }

    /// Whether the sequencer has stopped.
    pub fn is_halted(&self) -> (halted: bool)
        ensures
            halted == self@.halted,
    {
        self.halted
    }

    /// The latest fault, if there was one since the reset.
    pub fn fault(&self) -> (fault: Option<VmError>)
        ensures
            fault == self@.fault,
    {
        self.fault
    }

    /// The signals that were asserted for the latest pulse.
    pub fn control(&self) -> (signals: ControlSignals)
        ensures
            signals == self@.control,
    {
        self.control
    }

    /// The memory, to look at.
    pub fn memory(&self) -> (memory: &Memory)
        ensures
            memory@ == self@.memory,
            memory.wf() == self@.memory.wf(),
    {
        &self.memory
    }

    /// The control table, to look at.
    pub fn control_table(&self) -> (table: &ControlTable)
        ensures
            table@ == self@.table,
            table.wf() == self@.table.wf(),
    {
        &self.table
    }

    /// The byte at `address`, as a memory read of the machine would see it.
    pub fn read(&self, address: u16) -> (byte: u8)
        requires
            self.wf(),
        ensures
            byte == self@.memory.read(address),
    {
        self.memory.read(address)
    }

    /// The values of all registers, the flags and the sequencer, copied for
    /// a debugger.
    pub fn snapshot(&self) -> (snapshot: Snapshot)
        ensures
            snapshot == self@.snapshot(),
    {
        Snapshot {
            program_counter: self.program_counter.value,
            memory_address_register: self.memory_address_register.value,
            instruction_register: self.instruction_register.value,
            accumulator: self.accumulator.value,
            operand: self.operand.value,
            stack_pointer: self.stack_pointer,
            carry: self.flags.carry,
            zero: self.flags.zero,
            micro_instruction_counter: self.micro_instruction_counter,
            halted: self.halted,
            fault: self.fault,
        }
    }

    /// A window of the RAM, copied for a debugger; see
    /// [`Memory::ram_window`].
    pub fn ram_window(&self, start: usize, length: usize) -> (window: Vec<u8>)
        requires
            self.wf(),
        ensures
            window@ == self@.memory.ram_window(start, length),
    {
        self.memory.ram_window(start, length)
    }

    /// Replaces the control table, and with it the instruction set.
    pub fn load_control_table(&mut self, table: ControlTable)
        requires
            old(self).wf(),
            table.wf(),
        ensures
            final(self).wf(),
            final(self)@ == (MachineState { table: table@, ..old(self)@ }),
    {
        self.table = table;
    }

    /// Moves the boundary between ROM and RAM addresses; see
    /// [`Memory::set_ram_base`].
    pub fn set_ram_base(&mut self, ram_base: u16) -> (accepted: bool)
        requires
            old(self).wf(),
        ensures
            final(self).wf(),
            accepted <==> 1 <= ram_base <= STACK_BASE,
            accepted ==> final(self)@ == (MachineState {
                memory: MemoryState { ram_base, ..old(self)@.memory },
                ..old(self)@
            }),
            !accepted ==> final(self)@ == old(self)@,
    {
        self.memory.set_ram_base(ram_base)
    }

    /// The external reset: everything is as after power-on again, but the
    /// control table and the address split stay.
    pub fn reset(&mut self)
        requires
            old(self).wf(),
        ensures
            final(self).wf(),
            final(self)@ == old(self)@.reset(),
    {
        self.memory.clear_ram();
        self.program_counter = Register::new();
        self.memory_address_register = Register::new();
        self.instruction_register = Register::new();
        self.accumulator = Register::new();
        self.operand = Register::new();
        self.stack_pointer = 0;
        self.flags = CPUFlags::new();
        self.micro_instruction_counter = 0;
        self.control = ControlSignals::idle();
        self.halted = false;
        self.fault = None;
    }

    /// The opcode of the instruction at hand.
    pub fn opcode(&self) -> (opcode: u8)
        ensures
            opcode == self@.opcode(),
    {
        (self.instruction_register.value % 256) as u8
    }

    fn stack_port(&self) -> (port: Register)
        ensures
            port == self@.stack_port(),
    {
        Register {
            value: STACK_BASE + self.stack_pointer as u16,
            value_out: self.control.drive.stack_pointer,
            value_in: self.control.latch.stack_pointer,
        }
    }

    fn memory_port(&self) -> (port: Register)
        requires
            self.wf(),
        ensures
            port == self@.memory_port(),
    {
        Register {
            value: self.memory.read(self.memory_address_register.value) as u16,
            value_out: self.control.drive.memory,
            value_in: self.control.latch.memory,
        }
    }

    /// What the arithmetic unit computes at this pulse, if the step is
    /// tagged with an operation.
    pub fn alu_output(&self) -> (output: Option<AluOutput>)
        ensures
            output == self@.alu_output(),
    {
        match self.control.alu_op {
            Some(op) => Some(op.compute(self.accumulator.value, self.operand.value)),
            None => None,
        }
    }

    fn alu_port(&self) -> (port: Register)
        ensures
            port == self@.alu_port(),
    {
        match self.alu_output() {
            Some(out) => Register { value: out.result, value_out: true, value_in: false },
            None => Register { value: 0, value_out: false, value_in: false },
        }
    }

    /// The value on the bus: the bitwise OR of everything that the driving
    /// units put on it, and 0 while none drives.
    pub fn get_bus_value(&self) -> (bus: u16)
        requires
            self.wf(),
        ensures
            bus == self@.bus(),
    {
        let units = [
            self.program_counter,
            self.memory_address_register,
            self.instruction_register,
            self.accumulator,
            self.operand,
            self.stack_port(),
            self.memory_port(),
            self.alu_port(),
        ];
        assert(units@ =~= self@.units());
        compute(units.as_slice())
    }

    /// Sets the lines of every unit as `signals` says.
    fn assert_signals(&mut self, signals: ControlSignals)
        requires
            old(self).wf(),
        ensures
            final(self).wf(),
            final(self)@ == old(self)@.asserted(signals),
    {
        self.program_counter.value_out = signals.drive.program_counter;
        self.program_counter.value_in = signals.latch.program_counter;
        self.memory_address_register.value_out = signals.drive.memory_address_register;
        self.memory_address_register.value_in = signals.latch.memory_address_register;
        self.instruction_register.value_out = signals.drive.instruction_register;
        self.instruction_register.value_in = signals.latch.instruction_register;
        self.accumulator.value_out = signals.drive.accumulator;
        self.accumulator.value_in = signals.latch.accumulator;
        self.operand.value_out = signals.drive.operand;
        self.operand.value_in = signals.latch.operand;
        self.control = signals;
    }

    /// Lets the bus settle and clocks every unit: those that latch take the
    /// bus value, the counters count.
    pub fn compute_register_values(&mut self)
        requires
            old(self).wf(),
        ensures
            final(self).wf(),
            final(self)@ == old(self)@.clocked(),
    {
        let bus: u16 = self.get_bus_value();
        let enabled: bool = self.control.condition.test(self.flags);
        let address: u16 = self.memory_address_register.value;
        let low_byte: u8 = (bus % 256) as u8;

        if self.control.count_enable {
            self.program_counter.count(bus, enabled);
        } else {
            self.program_counter.latch(bus, enabled);
        }
        self.memory_address_register.latch(bus, enabled);
        self.instruction_register.latch(bus, enabled);
        self.accumulator.latch(bus, enabled);
        self.operand.latch(bus, enabled);

        if self.control.latch.stack_pointer && enabled {
            self.stack_pointer = low_byte;
        } else {
            self.stack_pointer = self.control.stack_step.apply(self.stack_pointer);
        }

        if self.control.latch.memory && enabled {
            match self.memory.write(address, low_byte) {
                Ok(()) => {},
                Err(error) => {
                    self.fault = Some(error);
                },
            }
        }
    }

    /// One clock pulse under the given signals; see [`MachineState::pulse`].
    pub fn cycle_clock(&mut self, signals: ControlSignals)
        requires
            old(self).wf(),
        ensures
            final(self).wf(),
            final(self)@ == old(self)@.pulse(signals),
    {
        if self.halted {
            return;
        }
        self.assert_signals(signals);
        let output: Option<AluOutput> = self.alu_output();
        self.compute_register_values();
        match output {
            Some(out) => {
                self.flags.update(out.result, out.carry);
            },
            None => {},
        }
        if signals.halt {
            self.halted = true;
        } else if signals.is_last {
            self.micro_instruction_counter = 0;
        } else {
            let counter: u8 = self.micro_instruction_counter;
            self.micro_instruction_counter = if counter == 255 {
                0
            } else {
                counter + 1
            };
        }
    }

    /// The fetch step.
    fn fetch(&mut self)
        requires
            old(self).wf(),
        ensures
            final(self).wf(),
            final(self)@ == old(self)@.fetched(),
    {
        let address: u16 = self.program_counter.value;
        let byte: u8 = self.memory.read(address);
        self.assert_signals(ControlSignals::idle());
        self.memory_address_register.value = address;
        self.instruction_register.value = byte as u16;
        self.program_counter.value = if address == 0xFFFF {
            0
        } else {
            address + 1
        };
        self.micro_instruction_counter = 1;
    }

    /// The decode step.
    fn decode(&mut self)
        requires
            old(self).wf(),
        ensures
            final(self).wf(),
            final(self)@ == old(self)@.decoded(),
    {
        let known: bool = self.table.defines(self.opcode());
        self.assert_signals(ControlSignals::idle());
        if known {
            self.micro_instruction_counter = FIRST_TABLE_STEP;
        } else {
            self.fault = Some(VmError::UnknownOpcode);
            self.halted = true;
        }
    }

    /// Advances the machine by exactly one clock pulse; see
    /// [`MachineState::step`].
    pub fn step(&mut self)
        requires
            old(self).wf(),
        ensures
            final(self).wf(),
            final(self)@ == old(self)@.step(),
    {
        if self.halted {
            return;
        }
        if self.micro_instruction_counter == 0 {
            self.fetch();
        } else if self.micro_instruction_counter == 1 {
            self.decode();
        } else {
            match self.table.lookup(self.opcode(), self.micro_instruction_counter) {
                Some(signals) => {
                    self.cycle_clock(signals);
                },
                None => {
                    self.fault = Some(VmError::UnknownOpcode);
                    self.halted = true;
                },
            }
        }
    }

    /// Runs until the machine halts, but for no more than `limit` pulses,
    /// and tells how many pulses there were.
    pub fn run(&mut self, limit: u64) -> (pulses: u64)
        requires
            old(self).wf(),
        ensures
            final(self).wf(),
            pulses <= limit,
            final(self)@ == old(self)@.run(pulses as nat),
            final(self)@.halted || pulses == limit,
            forall|earlier: nat| earlier < pulses ==> !(#[trigger] old(self)@.run(earlier)).halted,
    {
        let mut pulses: u64 = 0;
        while pulses < limit && !self.halted
            invariant
                self.wf(),
                pulses <= limit,
                self@ == old(self)@.run(pulses as nat),
                forall|earlier: nat|
                    earlier < pulses ==> !(#[trigger] old(self)@.run(earlier)).halted,
            decreases limit - pulses,
        {
            self.step();
            pulses = pulses + 1;
        }
        pulses
    }
}

} // verus!
