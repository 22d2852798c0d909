use svm::bus::compute;
use svm::{ControlSignals, Register, UnitSet, VMOptions, VirtualMachine};

fn driver(value: u16) -> Register {
    Register { value, value_out: true, value_in: false }
}

fn bystander(value: u16) -> Register {
    Register { value, value_out: false, value_in: true }
}

fn machine_with(first_bytes: &[u8]) -> VirtualMachine {
    let mut image = vec![0u8; 0xFFFF];
    image[..first_bytes.len()].copy_from_slice(first_bytes);
    let options = VMOptions { rom_binary: String::from("bus.bin"), debug: false };
    VirtualMachine::new(options, image).expect("a valid image")
}

#[test]
fn a_bus_without_drivers_is_low() {
    assert_eq!(compute(&[]), 0);
    assert_eq!(compute(&[bystander(0xFFFF), bystander(0x1234)]), 0);
}

#[test]
fn a_single_driver_has_the_bus_to_itself() {
    assert_eq!(compute(&[driver(0xBEEF)]), 0xBEEF);
    assert_eq!(compute(&[bystander(0xFFFF), driver(0x00F0), bystander(0x0F00)]), 0x00F0);
}

#[test]
fn two_drivers_give_the_bitwise_or() {
    assert_eq!(compute(&[driver(0x00F0), driver(0x0F0F)]), 0x0FFF);
    assert_eq!(compute(&[driver(0x8001), driver(0x4002)]), 0xC003);
    assert_eq!(compute(&[driver(0), driver(0)]), 0);
    assert_eq!(compute(&[driver(0xFFFF), driver(0x1234)]), 0xFFFF);
    assert_eq!(compute(&[driver(0x1234), driver(0x1234)]), 0x1234);
}

#[test]
fn two_drivers_give_the_bitwise_or_over_many_values() {
    let samples: [u16; 9] = [0, 1, 2, 0x00FF, 0x0F0F, 0x5555, 0xAAAA, 0x8000, 0xFFFF];
    for a in samples {
        for b in samples {
            assert_eq!(compute(&[driver(a), driver(b)]), a | b);
            assert_eq!(compute(&[driver(b), driver(a)]), a | b);
        }
    }
}

#[test]
fn three_drivers_give_the_bitwise_or_of_all() {
    assert_eq!(compute(&[driver(0x0001), driver(0x0020), driver(0x0400)]), 0x0421);
}

#[test]
fn the_machine_ors_two_driving_registers() {
    let mut machine = machine_with(&[0x55]);

    // The memory address register points at byte 0; the accumulator takes it.
    let mut load = ControlSignals::idle();
    load.drive = UnitSet { memory: true, ..UnitSet::none() };
    load.latch = UnitSet { accumulator: true, ..UnitSet::none() };
    machine.cycle_clock(load);
    assert_eq!(machine.accumulator().read(), 0x55);

    // The program counter counts to 0x000A.
    let mut count = ControlSignals::idle();
    count.count_enable = true;
    for _ in 0..10 {
        machine.cycle_clock(count);
    }
    assert_eq!(machine.program_counter().read(), 0x000A);

    // Both drive, the operand register latches.
    let mut clash = ControlSignals::idle();
    clash.drive = UnitSet { program_counter: true, accumulator: true, ..UnitSet::none() };
    clash.latch = UnitSet { operand: true, ..UnitSet::none() };
    machine.cycle_clock(clash);

    assert_eq!(machine.get_bus_value(), 0x55 | 0x0A);
    assert_eq!(machine.operand().read(), 0x5F);
    assert!(machine.program_counter().value_out);
    assert!(machine.accumulator().value_out);
    assert!(machine.operand().value_in);
    assert_eq!(machine.control(), clash);
}

#[test]
fn the_machine_bus_is_low_while_nothing_drives() {
    let mut machine = machine_with(&[0x55]);
    let mut latch_only = ControlSignals::idle();
    latch_only.latch = UnitSet { accumulator: true, ..UnitSet::none() };
    machine.cycle_clock(latch_only);
    assert_eq!(machine.get_bus_value(), 0);
    assert_eq!(machine.accumulator().read(), 0);
}
