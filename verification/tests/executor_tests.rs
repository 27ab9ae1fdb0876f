use picsim::{Cpu, Executor, Instruction};
use picsim::cpu::{registers, status_bits};

#[test]
fn test_movlw() {
    let mut cpu = Cpu::new();
    cpu.reset();
    Executor::execute(&mut cpu, Instruction::MOVLW { k: 0x42 });
    assert_eq!(cpu.read_w(), 0x42);
}

#[test]
fn test_addwf() {
    let mut cpu = Cpu::new();
    cpu.reset();
    cpu.write_w(0x10);
    cpu.write_register(0x20, 0x25);
    Executor::execute(&mut cpu, Instruction::ADDWF { f: 0x20, d: 0 });
    assert_eq!(cpu.read_w(), 0x35);
}

#[test]
fn test_addwf_carry_and_digit_carry() {
    let mut cpu = Cpu::new();
    cpu.reset();
    cpu.write_w(0xF8);
    cpu.write_register(0x20, 0x0A);
    Executor::execute(&mut cpu, Instruction::ADDWF { f: 0x20, d: 0 });
    assert_eq!(cpu.read_w(), 0x02);
    assert!(cpu.test_status_bit(status_bits::C));
    assert!(cpu.test_status_bit(status_bits::DC));
    assert!(!cpu.test_status_bit(status_bits::Z));
}

#[test]
fn test_subwf_no_borrow_sets_carry() {
    let mut cpu = Cpu::new();
    cpu.reset();
    // SUBWF computes f - W; C = 1 means no borrow (f >= W)
    cpu.write_w(0x10);
    cpu.write_register(0x20, 0x30);
    Executor::execute(&mut cpu, Instruction::SUBWF { f: 0x20, d: 0 });
    assert_eq!(cpu.read_w(), 0x20);
    assert!(cpu.test_status_bit(status_bits::C));

    // Borrow: f < W clears C
    cpu.write_w(0x40);
    cpu.write_register(0x21, 0x30);
    Executor::execute(&mut cpu, Instruction::SUBWF { f: 0x21, d: 0 });
    assert_eq!(cpu.read_w(), 0xF0);
    assert!(!cpu.test_status_bit(status_bits::C));
}

#[test]
fn test_sublw() {
    let mut cpu = Cpu::new();
    cpu.reset();
    // SUBLW computes k - W
    cpu.write_w(0x01);
    Executor::execute(&mut cpu, Instruction::SUBLW { k: 0x03 });
    assert_eq!(cpu.read_w(), 0x02);
    assert!(cpu.test_status_bit(status_bits::C));
}

#[test]
fn test_rlf_rotates_through_carry() {
    let mut cpu = Cpu::new();
    cpu.reset();
    cpu.update_carry_flag(true);
    cpu.write_register(0x20, 0x80);
    Executor::execute(&mut cpu, Instruction::RLF { f: 0x20, d: 1 });
    // Old C enters bit 0, old bit 7 becomes the new C
    assert_eq!(cpu.read_register(0x20), 0x01);
    assert!(cpu.test_status_bit(status_bits::C));
}

#[test]
fn test_rrf_rotates_through_carry() {
    let mut cpu = Cpu::new();
    cpu.reset();
    cpu.update_carry_flag(true);
    cpu.write_register(0x20, 0x01);
    Executor::execute(&mut cpu, Instruction::RRF { f: 0x20, d: 1 });
    // Old C enters bit 7, old bit 0 becomes the new C
    assert_eq!(cpu.read_register(0x20), 0x80);
    assert!(cpu.test_status_bit(status_bits::C));
}

#[test]
fn test_swapf() {
    let mut cpu = Cpu::new();
    cpu.reset();
    cpu.write_register(0x20, 0xA5);
    Executor::execute(&mut cpu, Instruction::SWAPF { f: 0x20, d: 0 });
    assert_eq!(cpu.read_w(), 0x5A);
}

#[test]
fn test_logic_ops_update_zero() {
    let mut cpu = Cpu::new();
    cpu.reset();
    cpu.write_w(0x0F);
    Executor::execute(&mut cpu, Instruction::ANDLW { k: 0xF0 });
    assert_eq!(cpu.read_w(), 0x00);
    assert!(cpu.test_status_bit(status_bits::Z));

    Executor::execute(&mut cpu, Instruction::IORLW { k: 0x21 });
    assert_eq!(cpu.read_w(), 0x21);
    assert!(!cpu.test_status_bit(status_bits::Z));

    Executor::execute(&mut cpu, Instruction::XORLW { k: 0x21 });
    assert_eq!(cpu.read_w(), 0x00);
    assert!(cpu.test_status_bit(status_bits::Z));
}

#[test]
fn test_decfsz_skips_on_zero() {
    let mut cpu = Cpu::new();
    cpu.reset();
    cpu.set_pc(0x10);
    cpu.write_register(0x20, 0x01);
    let cycles = Executor::execute(&mut cpu, Instruction::DECFSZ { f: 0x20, d: 1 });
    // Result 0: the next instruction is skipped and 2 cycles consumed
    assert_eq!(cpu.read_register(0x20), 0x00);
    assert_eq!(cpu.get_pc(), 0x11);
    assert_eq!(cycles, 2);

    // Result nonzero: no skip, 1 cycle
    cpu.write_register(0x20, 0x05);
    let cycles = Executor::execute(&mut cpu, Instruction::DECFSZ { f: 0x20, d: 1 });
    assert_eq!(cpu.read_register(0x20), 0x04);
    assert_eq!(cpu.get_pc(), 0x11);
    assert_eq!(cycles, 1);
}

#[test]
fn test_btfsc_btfss() {
    let mut cpu = Cpu::new();
    cpu.reset();
    cpu.write_register(0x20, 0x04);

    cpu.set_pc(0x10);
    assert_eq!(Executor::execute(&mut cpu, Instruction::BTFSC { f: 0x20, b: 2 }), 1);
    assert_eq!(cpu.get_pc(), 0x10);
    assert_eq!(Executor::execute(&mut cpu, Instruction::BTFSC { f: 0x20, b: 0 }), 2);
    assert_eq!(cpu.get_pc(), 0x11);

    assert_eq!(Executor::execute(&mut cpu, Instruction::BTFSS { f: 0x20, b: 2 }), 2);
    assert_eq!(cpu.get_pc(), 0x12);
    assert_eq!(Executor::execute(&mut cpu, Instruction::BTFSS { f: 0x20, b: 0 }), 1);
    assert_eq!(cpu.get_pc(), 0x12);
}

#[test]
fn test_call_and_return() {
    let mut cpu = Cpu::new();
    cpu.reset();
    cpu.set_pc(0x005);
    let cycles = Executor::execute(&mut cpu, Instruction::CALL { k: 0x123 });
    assert_eq!(cycles, 2);
    assert_eq!(cpu.get_pc(), 0x123);

    let cycles = Executor::execute(&mut cpu, Instruction::RETURN);
    assert_eq!(cycles, 2);
    assert_eq!(cpu.get_pc(), 0x005);
}

#[test]
fn test_retlw_loads_w() {
    let mut cpu = Cpu::new();
    cpu.reset();
    cpu.set_pc(0x007);
    Executor::execute(&mut cpu, Instruction::CALL { k: 0x020 });
    Executor::execute(&mut cpu, Instruction::RETLW { k: 0x99 });
    assert_eq!(cpu.read_w(), 0x99);
    assert_eq!(cpu.get_pc(), 0x007);
}

#[test]
fn test_goto_call_use_pclath_bits() {
    let mut cpu = Cpu::new();
    cpu.reset();
    // With PCLATH & 0x18 = 0x18, the upper PC bits come along
    cpu.write_register(registers::PCLATH, 0x18);
    Executor::execute(&mut cpu, Instruction::GOTO { k: 0x005 });
    assert_eq!(cpu.get_pc(), 0x1805);

    Executor::execute(&mut cpu, Instruction::CALL { k: 0x7FF });
    assert_eq!(cpu.get_pc(), 0x1FFF);
}

#[test]
fn test_clrwdt_sets_to_pd() {
    let mut cpu = Cpu::new();
    cpu.reset();
    cpu.wdt_mut().tick();
    assert!(cpu.wdt().get_counter() > 0);
    cpu.clear_status_bit(status_bits::TO);
    cpu.clear_status_bit(status_bits::PD);

    Executor::execute(&mut cpu, Instruction::CLRWDT);
    assert_eq!(cpu.wdt().get_counter(), 0);
    assert!(cpu.test_status_bit(status_bits::TO));
    assert!(cpu.test_status_bit(status_bits::PD));
}

#[test]
fn test_clrf_clrw_set_zero() {
    let mut cpu = Cpu::new();
    cpu.reset();
    cpu.write_register(0x20, 0x42);
    Executor::execute(&mut cpu, Instruction::CLRF { f: 0x20 });
    assert_eq!(cpu.read_register(0x20), 0);
    assert!(cpu.test_status_bit(status_bits::Z));

    cpu.write_w(0x42);
    Executor::execute(&mut cpu, Instruction::CLRW);
    assert_eq!(cpu.read_w(), 0);
    assert!(cpu.test_status_bit(status_bits::Z));
}

#[test]
fn test_comf_incf_decf() {
    let mut cpu = Cpu::new();
    cpu.reset();
    cpu.write_register(0x20, 0x0F);
    Executor::execute(&mut cpu, Instruction::COMF { f: 0x20, d: 1 });
    assert_eq!(cpu.read_register(0x20), 0xF0);

    Executor::execute(&mut cpu, Instruction::INCF { f: 0x20, d: 1 });
    assert_eq!(cpu.read_register(0x20), 0xF1);

    Executor::execute(&mut cpu, Instruction::DECF { f: 0x20, d: 1 });
    assert_eq!(cpu.read_register(0x20), 0xF0);
}

#[test]
fn test_bcf_bsf() {
    let mut cpu = Cpu::new();
    cpu.reset();
    cpu.write_register(0x20, 0x00);
    Executor::execute(&mut cpu, Instruction::BSF { f: 0x20, b: 5 });
    assert_eq!(cpu.read_register(0x20), 0x20);
    Executor::execute(&mut cpu, Instruction::BCF { f: 0x20, b: 5 });
    assert_eq!(cpu.read_register(0x20), 0x00);
}
