use picsim::Memory;

#[test]
fn test_program_memory() {
    let mut mem = Memory::new();

    // Write and read program memory
    mem.write_program(0x100, 0x3FFF);
    assert_eq!(mem.read_program(0x100), 0x3FFF);

    // Test masking to 14 bits
    mem.write_program(0x200, 0xFFFF);
    assert_eq!(mem.read_program(0x200), 0x3FFF);
}

#[test]
fn test_data_memory() {
    let mut mem = Memory::new();

    // Write and read data memory
    mem.write_data(0x20, 0xAB);
    assert_eq!(mem.read_data(0x20), 0xAB);
}

#[test]
fn memory_test_stack_operations() {
    let mut mem = Memory::new();

    // Test push and pop
    mem.push_stack(0x100);
    mem.push_stack(0x200);
    mem.push_stack(0x300);

    assert_eq!(mem.stack_depth(), 3);
    assert_eq!(mem.pop_stack(), 0x300);
    assert_eq!(mem.pop_stack(), 0x200);
    assert_eq!(mem.pop_stack(), 0x100);
    assert_eq!(mem.stack_depth(), 0);
    assert!(mem.is_stack_empty());
}

#[test]
fn test_stack_overflow() {
    let mut mem = Memory::new();

    // Fill the stack
    for i in 0..10 {
        mem.push_stack(i * 0x100);
    }

    // Stack should be full
    assert!(mem.is_stack_full());
    assert_eq!(mem.stack_depth(), 8);
}

#[test]
fn test_stack_underflow() {
    let mut mem = Memory::new();

    // Pop from empty stack should return 0
    assert_eq!(mem.pop_stack(), 0);
}

#[test]
fn test_eeprom() {
    let mut mem = Memory::new();

    mem.write_eeprom(0x10, 0x55);
    assert_eq!(mem.read_eeprom(0x10), 0x55);
}

#[test]
fn test_stack_overflow_discards_oldest() {
    let mut mem = Memory::new();

    for i in 0..8 {
        mem.push_stack(i + 1);
    }
    // Depth 8: the ninth push discards the oldest entry (1)
    mem.push_stack(9);
    assert_eq!(mem.stack_depth(), 8);

    // A matching number of returns drains the stack without underflow
    for expect in [9u16, 8, 7, 6, 5, 4, 3, 2] {
        assert_eq!(mem.pop_stack(), expect);
    }
    assert!(mem.is_stack_empty());
}

#[test]
fn test_push_masks_to_13_bits() {
    let mut mem = Memory::new();
    mem.push_stack(0xFFFF);
    assert_eq!(mem.pop_stack(), 0x1FFF);
}

#[test]
fn test_reset_keeps_program_and_eeprom() {
    let mut mem = Memory::new();
    mem.write_program(1, 0x3055);
    mem.write_eeprom(1, 0x42);
    mem.write_data(0x20, 0x99);
    mem.push_stack(0x123);
    mem.reset();
    assert_eq!(mem.read_program(1), 0x3055);
    assert_eq!(mem.read_eeprom(1), 0x42);
    assert_eq!(mem.read_data(0x20), 0);
    assert_eq!(mem.stack_depth(), 0);
}

#[test]
fn test_banked_access_folds_bank1() {
    let mut mem = Memory::new();
    // Addresses below 0x0C are common to both banks
    mem.write_data_banked(0x03, 0x18, 1);
    assert_eq!(mem.read_data_banked(0x03, 0), 0x18);
    // A Bank 1 access folds through (addr | 0x80) & 0x7F
    mem.write_data_banked(0x85, 0x5A, 1);
    assert_eq!(mem.read_data(0x05), 0x5A);
}
