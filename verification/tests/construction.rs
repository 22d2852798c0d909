use svm::{CPUFlags, Register, VMOptions, VirtualMachine, VmError};

fn options(debug: bool) -> VMOptions {
    VMOptions { rom_binary: String::from("program.bin"), debug }
}

fn image_of(first_bytes: &[u8]) -> Vec<u8> {
    let mut image = vec![0u8; 0xFFFF];
    image[..first_bytes.len()].copy_from_slice(first_bytes);
    image
}

#[test]
fn a_register_starts_at_zero_with_both_lines_down() {
    let register = Register::new();
    assert_eq!(register.read(), 0);
    assert!(!register.value_out);
    assert!(!register.value_in);
}

#[test]
fn the_flags_start_clear() {
    assert_eq!(CPUFlags::new(), CPUFlags { carry: false, zero: false });
}

#[test]
fn a_full_size_image_always_builds_a_zeroed_machine() {
    let image = image_of(&[0xAB, 0xCD, 0xEF]);
    let machine = VirtualMachine::new(options(true), image.clone()).expect("a valid image");

    let zero = Register { value: 0, value_out: false, value_in: false };
    assert_eq!(machine.program_counter(), zero);
    assert_eq!(machine.memory_address_register(), zero);
    assert_eq!(machine.instruction_register(), zero);
    assert_eq!(machine.accumulator(), zero);
    assert_eq!(machine.operand(), zero);
    assert_eq!(machine.stack_pointer(), 0);
    assert_eq!(machine.flags(), CPUFlags { carry: false, zero: false });
    assert_eq!(machine.micro_instruction_counter(), 0);
    assert!(machine.at_fetch());
    assert!(!machine.is_halted());
    assert_eq!(machine.fault(), None);
    assert!(machine.debug());
    assert_eq!(machine.options().rom_binary, "program.bin");

    assert_eq!(machine.memory().rom(), &image);
    assert_eq!(machine.memory().ram().len(), 0xFFFF);
    assert!(machine.memory().ram().iter().all(|byte| *byte == 0));
    assert_eq!(machine.memory().ram_base(), 0x8000);
}

#[test]
fn an_image_of_all_ones_is_as_valid_as_any() {
    let machine = VirtualMachine::new(options(false), vec![0xFF; 0xFFFF]).expect("a valid image");
    assert_eq!(machine.read(0), 0xFF);
    assert_eq!(machine.read(0x7FFF), 0xFF);
    assert_eq!(machine.read(0x8000), 0);
    assert!(!machine.debug());
}

#[test]
fn a_short_image_is_refused() {
    let built = VirtualMachine::new(options(false), vec![0u8; 0xFFFE]);
    assert_eq!(built.err(), Some(VmError::InvalidImageSize));
}

#[test]
fn a_long_image_is_refused() {
    let built = VirtualMachine::new(options(false), vec![0u8; 0x1_0000]);
    assert_eq!(built.err(), Some(VmError::InvalidImageSize));
}

#[test]
fn an_empty_image_is_refused() {
    let built = VirtualMachine::new(options(false), Vec::new());
    assert_eq!(built.err(), Some(VmError::InvalidImageSize));
}

#[test]
fn every_fault_has_its_message() {
    assert_eq!(
        VmError::InvalidImageSize.message(),
        "ROM image must be exactly 65535 (0xFFFF) bytes!"
    );
    assert_eq!(VmError::IllegalWrite.message(), "Illegal write to a ROM address!");
    assert_eq!(
        VmError::UnknownOpcode.message(),
        "Unknown opcode: the control table has no entry for it!"
    );
}

#[test]
fn a_reset_brings_the_power_on_state_back() {
    let mut machine = VirtualMachine::new(options(false), image_of(&[0x42])).expect("a valid image");
    assert!(machine.set_ram_base(0x4000));
    machine.step();
    machine.step();
    assert!(machine.is_halted());
    assert_eq!(machine.fault(), Some(VmError::UnknownOpcode));
    assert_eq!(machine.program_counter().read(), 1);

    machine.reset();

    assert!(!machine.is_halted());
    assert_eq!(machine.fault(), None);
    assert_eq!(machine.program_counter(), Register::new());
    assert_eq!(machine.instruction_register(), Register::new());
    assert_eq!(machine.micro_instruction_counter(), 0);
    assert_eq!(machine.read(0), 0x42);
    assert_eq!(machine.memory().ram_base(), 0x4000);
}
