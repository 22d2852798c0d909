//! Control signals and the control table that defines an instruction set.

use vstd::prelude::*;
use crate::alu::AluOp;
use crate::flags::CPUFlags;

verus! {

/// The number of the first step whose signals come from the control table.
/// Step 0 fetches and step 1 decodes, whatever the instruction.
pub const FIRST_TABLE_STEP: u8 = 2;

/// The largest number of table steps that one instruction can have, so that
/// the 8-bit step counter reaches every one of them.
pub const MAX_TABLE_STEPS: usize = 254;

/// The number of opcodes.
pub const OPCODES: usize = 256;

/// A set of the units that are connected to the bus.
#[derive(Clone, Copy, Debug, PartialEq, Eq)]
pub struct UnitSet {
    pub program_counter: bool,
    pub memory_address_register: bool,
    pub instruction_register: bool,
    pub accumulator: bool,
    pub operand: bool,
    pub stack_pointer: bool,
    pub memory: bool,
}

impl UnitSet {
    /// The empty set.
    pub open spec fn empty() -> UnitSet {
        UnitSet {
            program_counter: false,
            memory_address_register: false,
            instruction_register: false,
            accumulator: false,
            operand: false,
            stack_pointer: false,
            memory: false,
        }
    }

    /// The set with no unit in it.
    pub fn none() -> (set: UnitSet)
        ensures
            set == UnitSet::empty(),
    {
        UnitSet {
            program_counter: false,
            memory_address_register: false,
            instruction_register: false,
            accumulator: false,
            operand: false,
            stack_pointer: false,
            memory: false,
        }
    }
}

/// The flag condition under which the latching units of a step take the bus
/// value. Conditional jumps are steps that latch the program counter under
/// a condition.
#[derive(Clone, Copy, Debug, PartialEq, Eq)]
pub enum Condition {
    Always,
    IfCarry,
    IfNotCarry,
    IfZero,
    IfNotZero,
}

impl Condition {
    /// Whether the condition is met by `flags`.
    pub open spec fn holds(self, flags: CPUFlags) -> bool {
        match self {
            Condition::Always => true,
            Condition::IfCarry => flags.carry,
            Condition::IfNotCarry => !flags.carry,
            Condition::IfZero => flags.zero,
            Condition::IfNotZero => !flags.zero,
        }
    }

    /// Tests the condition against `flags`.
    pub fn test(self, flags: CPUFlags) -> (met: bool)
        ensures
            met == self.holds(flags),
    {
        match self {
            Condition::Always => true,
            Condition::IfCarry => flags.carry,
            Condition::IfNotCarry => !flags.carry,
            Condition::IfZero => flags.zero,
            Condition::IfNotZero => !flags.zero,
        }
    }
}

/// What the stack pointer does at a pulse when it does not latch.
#[derive(Clone, Copy, Debug, PartialEq, Eq)]
pub enum StackStep {
    Hold,
    Increment,
    Decrement,
}

impl StackStep {
    /// The stack pointer after the pulse. It counts modulo 256.
    pub open spec fn applied(self, stack_pointer: u8) -> u8 {
        match self {
            StackStep::Hold => stack_pointer,
            StackStep::Increment => ((stack_pointer + 1) % 256) as u8,
            StackStep::Decrement => ((stack_pointer - 1) % 256) as u8,
        }
    }

    /// Moves a stack pointer.
    pub fn apply(self, stack_pointer: u8) -> (moved: u8)
        ensures
            moved == self.applied(stack_pointer),
    {
        match self {
            StackStep::Hold => stack_pointer,
            StackStep::Increment => if stack_pointer == 255 {
                0
            } else {
                stack_pointer + 1
            },
            StackStep::Decrement => if stack_pointer == 0 {
                255
            } else {
                stack_pointer - 1
            },
        }
    }
}

/// The control signals of one step of one instruction.
#[derive(Clone, Copy, Debug, PartialEq, Eq)]
pub struct ControlSignals {
    /// The units that put their value on the bus.
    pub drive: UnitSet,
    /// The units that take the bus value.
    pub latch: UnitSet,
    /// The operation of the arithmetic unit, if this is an arithmetic step.
    /// On such a step the unit drives its result onto the bus and the flags
    /// follow the result.
    pub alu_op: Option<AluOp>,
    /// The condition under which the units in `latch` take the bus value.
    pub condition: Condition,
    /// The program counter counts up, unless it latches.
    pub count_enable: bool,
    /// The stack pointer counts, unless it latches.
    pub stack_step: StackStep,
    /// The instruction ends with this step: the next pulse fetches.
    pub is_last: bool,
    /// The sequencer stops after this step.
    pub halt: bool,
}

impl ControlSignals {
    /// The signals of a step on which nothing happens but the step itself.
    pub open spec fn quiet() -> ControlSignals {
        ControlSignals {
            drive: UnitSet::empty(),
            latch: UnitSet::empty(),
            alu_op: None,
            condition: Condition::Always,
            count_enable: false,
            stack_step: StackStep::Hold,
            is_last: false,
            halt: false,
        }
    }

    /// Whether the instruction is over after this step.
    pub open spec fn terminates(self) -> bool {
        self.is_last || self.halt
    }

    /// Signals with every line down. A table row is written by taking these
    /// and raising lines.
    pub fn idle() -> (signals: ControlSignals)
        ensures
            signals == ControlSignals::quiet(),
    {
        ControlSignals {
            drive: UnitSet::none(),
            latch: UnitSet::none(),
            alu_op: None,
            condition: Condition::Always,
            count_enable: false,
            stack_step: StackStep::Hold,
            is_last: false,
            halt: false,
        }
    }
}

/// A control table as a mathematical object: for each of the 256 opcodes the
/// signals of its table steps, in order. An opcode without steps is not an
/// instruction of the set.
#[verifier::ext_equal]
pub struct TableState {
    pub rows: Seq<Seq<ControlSignals>>,
}

impl TableState {
    /// A row is acceptable if the step counter can reach each step and the
    /// last step ends the instruction.
    pub open spec fn row_ok(row: Seq<ControlSignals>) -> bool {
        &&& row.len() <= MAX_TABLE_STEPS
        &&& row.len() > 0 ==> row.last().terminates()
    }

    /// There is a row for each opcode, and each row is acceptable.
    pub open spec fn wf(self) -> bool {
        &&& self.rows.len() == OPCODES
        &&& forall|opcode: int| 0 <= opcode < OPCODES ==> Self::row_ok(#[trigger] self.rows[opcode])
    }

    /// The table of the empty instruction set.
    pub open spec fn empty() -> TableState {
        TableState { rows: Seq::new(OPCODES as nat, |opcode: int| Seq::<ControlSignals>::empty()) }
    }

    /// Whether `opcode` is an instruction of the set.
    pub open spec fn defines(self, opcode: u8) -> bool {
        self.rows[opcode as int].len() > 0
    }

    /// The signals for `step` of the instruction `opcode`, where the table
    /// holds any.
    pub open spec fn lookup(self, opcode: u8, step: u8) -> Option<ControlSignals> {
        let row = self.rows[opcode as int];
        if FIRST_TABLE_STEP <= step && step - FIRST_TABLE_STEP < row.len() {
            Some(row[step - FIRST_TABLE_STEP])
        } else {
            None
        }
    }

    /// The table with the steps of `opcode` replaced.
    pub open spec fn with_row(self, opcode: u8, steps: Seq<ControlSignals>) -> TableState {
        TableState { rows: self.rows.update(opcode as int, steps) }
    }
}

/// The control table: for every opcode and step the signals to assert.
#[derive(Debug)]
pub struct ControlTable {
    rows: Vec<Vec<ControlSignals>>,
}

impl View for ControlTable {
    type V = TableState;

    closed spec fn view(&self) -> TableState {
        TableState { rows: Seq::new(self.rows@.len(), |opcode: int| self.rows@[opcode]@) }
    }
}

impl ControlTable {
    /// What every table that this module hands out satisfies.
    pub open spec fn wf(&self) -> bool {
        self@.wf()
    }

    /// The table of the empty instruction set: it defines no opcode.
    pub fn new() -> (table: ControlTable)
        ensures
            table.wf(),
            table@ == TableState::empty(),
    {
        let mut rows: Vec<Vec<ControlSignals>> = Vec::new();
        let mut opcode: usize = 0;
        while opcode < OPCODES
            invariant
                opcode <= OPCODES,
                rows@.len() == opcode,
                forall|i: int| 0 <= i < opcode ==> (#[trigger] rows@[i])@.len() == 0,
            decreases OPCODES - opcode,
        {
            rows.push(Vec::new());
            opcode = opcode + 1;
        }
        let table = ControlTable { rows };
        assert(table@.rows =~~= TableState::empty().rows);
        table
    }

    /// Makes `opcode` an instruction with the given steps, in the order in
    /// which they run after fetch and decode.
    ///
    /// The steps are taken if there is at least one, there are no more than
    /// the step counter can reach, and the last one ends the instruction
    /// or halts the machine. Otherwise the table stays as it is.
    pub fn define(&mut self, opcode: u8, steps: Vec<ControlSignals>) -> (accepted: bool)
        requires
            old(self).wf(),
        ensures
            final(self).wf(),
            accepted <==> steps@.len() > 0 && TableState::row_ok(steps@),
            accepted ==> final(self)@ == old(self)@.with_row(opcode, steps@),
            !accepted ==> final(self)@ == old(self)@,
    {
        let count: usize = steps.len();
        if count == 0 || count > MAX_TABLE_STEPS {
            return false;
        }
        let last: ControlSignals = steps[count - 1];
        if !(last.is_last || last.halt) {
            return false;
        }
        let ghost row = steps@;
        self.rows.set(opcode as usize, steps);
        assert(self@.rows =~~= old(self)@.with_row(opcode, row).rows);
        assert forall|other: int| 0 <= other < OPCODES implies TableState::row_ok(
            #[trigger] self@.rows[other],
        ) by {
            if other != opcode {
                assert(self@.rows[other] == old(self)@.rows[other]);
            }
        }
        true
    }

    /// Whether `opcode` is an instruction of the set.
    pub fn defines(&self, opcode: u8) -> (known: bool)
        requires
            self.wf(),
        ensures
            known == self@.defines(opcode),
    {
        self.rows[opcode as usize].len() > 0
    }

    /// The signals for `step` of the instruction `opcode`, or `None` where
    /// the table holds none: for the two fixed steps, for an opcode that is
    /// not defined, and past the last step of an instruction.
    pub fn lookup(&self, opcode: u8, step: u8) -> (signals: Option<ControlSignals>)
        requires
            self.wf(),
        ensures
            signals == self@.lookup(opcode, step),
    {
        if step < FIRST_TABLE_STEP {
            return None;
        }
        let index: usize = (step - FIRST_TABLE_STEP) as usize;
        let row = &self.rows[opcode as usize];
        if index < row.len() {
            Some(row[index])
        } else {
            None
        }
    }
}

} // verus!
