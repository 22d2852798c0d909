use svm::{AluOp, AluOutput, CPUFlags, Condition, ControlSignals, UnitSet, VMOptions, VirtualMachine};

fn machine_with(first_bytes: &[u8]) -> VirtualMachine {
    let mut image = vec![0u8; 0xFFFF];
    image[..first_bytes.len()].copy_from_slice(first_bytes);
    let options = VMOptions { rom_binary: String::from("alu.bin"), debug: false };
    VirtualMachine::new(options, image).expect("a valid image")
}

fn count() -> ControlSignals {
    let mut signals = ControlSignals::idle();
    signals.count_enable = true;
    signals
}

fn move_between(from: UnitSet, to: UnitSet) -> ControlSignals {
    let mut signals = ControlSignals::idle();
    signals.drive = from;
    signals.latch = to;
    signals
}

fn alu_into_accumulator(op: AluOp) -> ControlSignals {
    let mut signals = ControlSignals::idle();
    signals.alu_op = Some(op);
    signals.latch = UnitSet { accumulator: true, ..UnitSet::none() };
    signals
}

/// Puts `a` into the accumulator and `b` into the operand register by
/// letting the program counter count up to each value.
fn machine_holding(a: u16, b: u16) -> VirtualMachine {
    let mut machine = machine_with(&[]);
    let pc = UnitSet { program_counter: true, ..UnitSet::none() };
    let zero_pc = {
        // Nothing drives, so the bus is low and the counter latches 0.
        let mut signals = ControlSignals::idle();
        signals.latch = pc;
        signals
    };
    for _ in 0..a {
        machine.cycle_clock(count());
    }
    machine.cycle_clock(move_between(pc, UnitSet { accumulator: true, ..UnitSet::none() }));
    machine.cycle_clock(zero_pc);
    for _ in 0..b {
        machine.cycle_clock(count());
    }
    machine.cycle_clock(move_between(pc, UnitSet { operand: true, ..UnitSet::none() }));
    assert_eq!(machine.accumulator().read(), a);
    assert_eq!(machine.operand().read(), b);
    machine
}

#[test]
fn addition_without_carry() {
    assert_eq!(AluOp::Add.compute(2, 3), AluOutput { result: 5, carry: false });
    assert_eq!(AluOp::Add.compute(0xFFFE, 1), AluOutput { result: 0xFFFF, carry: false });
    assert_eq!(AluOp::Add.compute(0, 0), AluOutput { result: 0, carry: false });
}

#[test]
fn addition_with_carry_wraps() {
    assert_eq!(AluOp::Add.compute(0xFFFF, 1), AluOutput { result: 0, carry: true });
    assert_eq!(AluOp::Add.compute(0xFFFF, 0xFFFF), AluOutput { result: 0xFFFE, carry: true });
    assert_eq!(AluOp::Add.compute(0x8000, 0x8000), AluOutput { result: 0, carry: true });
}

#[test]
fn subtraction_carries_when_nothing_is_borrowed() {
    assert_eq!(AluOp::Subtract.compute(5, 3), AluOutput { result: 2, carry: true });
    assert_eq!(AluOp::Subtract.compute(7, 7), AluOutput { result: 0, carry: true });
    assert_eq!(AluOp::Subtract.compute(0, 0), AluOutput { result: 0, carry: true });
}

#[test]
fn subtraction_with_borrow_wraps() {
    assert_eq!(AluOp::Subtract.compute(3, 5), AluOutput { result: 0xFFFE, carry: false });
    assert_eq!(AluOp::Subtract.compute(0, 1), AluOutput { result: 0xFFFF, carry: false });
    assert_eq!(AluOp::Subtract.compute(0, 0xFFFF), AluOutput { result: 1, carry: false });
}

#[test]
fn subtraction_agrees_with_the_adder_circuit() {
    let samples: [u16; 7] = [0, 1, 2, 0x00FF, 0x7FFF, 0x8000, 0xFFFF];
    for a in samples {
        for b in samples {
            let wide = a as u32 + (!b) as u32 + 1;
            let expected = AluOutput { result: wide as u16, carry: wide > 0xFFFF };
            assert_eq!(AluOp::Subtract.compute(a, b), expected);
        }
    }
}

#[test]
fn shifts_carry_the_bit_that_leaves() {
    assert_eq!(AluOp::ShiftLeft.compute(0x0001, 0xABCD), AluOutput { result: 0x0002, carry: false });
    assert_eq!(AluOp::ShiftLeft.compute(0x8001, 0), AluOutput { result: 0x0002, carry: true });
    assert_eq!(AluOp::ShiftLeft.compute(0x8000, 0), AluOutput { result: 0, carry: true });
    assert_eq!(AluOp::ShiftLeft.compute(0x7FFF, 0), AluOutput { result: 0xFFFE, carry: false });
    assert_eq!(AluOp::ShiftRight.compute(0x8001, 0xABCD), AluOutput { result: 0x4000, carry: true });
    assert_eq!(AluOp::ShiftRight.compute(0x0001, 0), AluOutput { result: 0, carry: true });
    assert_eq!(AluOp::ShiftRight.compute(0xFFFE, 0), AluOutput { result: 0x7FFF, carry: false });
    assert_eq!(AluOp::ShiftRight.compute(0, 0), AluOutput { result: 0, carry: false });
}

#[test]
fn the_flag_unit_takes_over_result_and_carry() {
    let mut flags = CPUFlags::new();
    flags.update(0, true);
    assert_eq!(flags, CPUFlags { carry: true, zero: true });
    flags.update(1, false);
    assert_eq!(flags, CPUFlags { carry: false, zero: false });
    flags.update(0xFFFF, true);
    assert_eq!(flags, CPUFlags { carry: true, zero: false });
    flags.update(0, false);
    assert_eq!(flags, CPUFlags { carry: false, zero: true });
}

#[test]
fn conditions_read_the_flags() {
    let both = CPUFlags { carry: true, zero: true };
    let none = CPUFlags { carry: false, zero: false };
    assert!(Condition::Always.test(both) && Condition::Always.test(none));
    assert!(Condition::IfCarry.test(both) && !Condition::IfCarry.test(none));
    assert!(!Condition::IfNotCarry.test(both) && Condition::IfNotCarry.test(none));
    assert!(Condition::IfZero.test(both) && !Condition::IfZero.test(none));
    assert!(!Condition::IfNotZero.test(both) && Condition::IfNotZero.test(none));
    let carry_only = CPUFlags { carry: true, zero: false };
    assert!(Condition::IfCarry.test(carry_only) && Condition::IfNotZero.test(carry_only));
    assert!(!Condition::IfZero.test(carry_only) && !Condition::IfNotCarry.test(carry_only));
}

#[test]
fn an_alu_step_with_result_zero_sets_the_zero_flag() {
    let mut machine = machine_holding(7, 7);
    machine.cycle_clock(alu_into_accumulator(AluOp::Subtract));
    assert_eq!(machine.accumulator().read(), 0);
    assert_eq!(machine.flags(), CPUFlags { carry: true, zero: true });
}

#[test]
fn an_alu_step_with_a_nonzero_result_clears_the_zero_flag() {
    let mut machine = machine_holding(7, 7);
    machine.cycle_clock(alu_into_accumulator(AluOp::Subtract));
    assert!(machine.flags().zero);
    // The accumulator is 0 now, the operand still 7.
    machine.cycle_clock(alu_into_accumulator(AluOp::Add));
    assert_eq!(machine.accumulator().read(), 7);
    assert_eq!(machine.flags(), CPUFlags { carry: false, zero: false });
}

#[test]
fn the_flags_follow_the_alu_and_not_the_bus() {
    // The result is 0, but a second driver puts 9 on the bus.
    let mut machine = machine_holding(9, 9);
    let mut signals = alu_into_accumulator(AluOp::Subtract);
    signals.drive = UnitSet { operand: true, ..UnitSet::none() };
    machine.cycle_clock(signals);
    assert_eq!(machine.accumulator().read(), 9);
    assert!(machine.flags().zero);
}

#[test]
fn steps_without_an_alu_operation_keep_the_flags() {
    let mut machine = machine_holding(7, 7);
    machine.cycle_clock(alu_into_accumulator(AluOp::Subtract));
    let flags = machine.flags();
    assert_eq!(flags, CPUFlags { carry: true, zero: true });

    let everything = UnitSet {
        program_counter: true,
        memory_address_register: true,
        instruction_register: true,
        accumulator: true,
        operand: true,
        stack_pointer: true,
        memory: false,
    };
    machine.cycle_clock(count());
    assert_eq!(machine.flags(), flags);
    machine.cycle_clock(move_between(UnitSet { operand: true, ..UnitSet::none() }, everything));
    assert_eq!(machine.flags(), flags);
    machine.cycle_clock(move_between(UnitSet { memory: true, ..UnitSet::none() }, everything));
    assert_eq!(machine.accumulator().read(), 0);
    assert_eq!(machine.flags(), flags);
    machine.cycle_clock(ControlSignals::idle());
    assert_eq!(machine.flags(), flags);
}

#[test]
fn fetch_and_decode_keep_the_flags() {
    let mut machine = machine_holding(0xFFFF, 1);
    machine.cycle_clock({
        let mut signals = alu_into_accumulator(AluOp::Add);
        signals.is_last = true;
        signals
    });
    let flags = machine.flags();
    assert_eq!(flags, CPUFlags { carry: true, zero: true });
    assert!(machine.at_fetch());
    machine.step();
    assert_eq!(machine.micro_instruction_counter(), 1);
    assert_eq!(machine.flags(), flags);
    machine.step();
    assert_eq!(machine.flags(), flags);
}

#[test]
fn a_condition_that_fails_keeps_the_latches_shut() {
    let mut machine = machine_holding(5, 3);
    // 5 - 3 = 2: carry set, zero clear.
    machine.cycle_clock({
        let mut signals = ControlSignals::idle();
        signals.alu_op = Some(AluOp::Subtract);
        signals
    });
    assert_eq!(machine.accumulator().read(), 5);
    assert_eq!(machine.flags(), CPUFlags { carry: true, zero: false });

    let jump = |condition: Condition| {
        let mut signals = ControlSignals::idle();
        signals.drive = UnitSet { accumulator: true, ..UnitSet::none() };
        signals.latch = UnitSet { program_counter: true, ..UnitSet::none() };
        signals.condition = condition;
        signals
    };
    let before = machine.program_counter().read();
    assert_eq!(before, 3);
    machine.cycle_clock(jump(Condition::IfZero));
    assert_eq!(machine.program_counter().read(), 3);
    machine.cycle_clock(jump(Condition::IfNotCarry));
    assert_eq!(machine.program_counter().read(), 3);
    machine.cycle_clock(jump(Condition::IfCarry));
    assert_eq!(machine.program_counter().read(), 5);
}
