use picsim::Cpu;
use picsim::cpu::{registers, status_bits};

#[test]
fn test_cpu_creation() {
    let cpu = Cpu::new();
    assert_eq!(cpu.get_pc(), 0);
    assert_eq!(cpu.read_w(), 0);
}

#[test]
fn test_register_access() {
    let mut cpu = Cpu::new();

    cpu.write_register(registers::GPIO, 0x3F);
    // GPIO read might differ based on pin states
    let gpio_val = cpu.read_register(registers::GPIO);
    assert!(gpio_val <= 0x3F); // Should be valid 6-bit value
}

#[test]
fn test_w_register() {
    let mut cpu = Cpu::new();

    cpu.write_w(0xAB);
    assert_eq!(cpu.read_w(), 0xAB);
}

#[test]
fn test_status_flags() {
    let mut cpu = Cpu::new();

    // Test Zero flag
    cpu.update_zero_flag(0);
    assert!(cpu.test_status_bit(status_bits::Z));

    cpu.update_zero_flag(1);
    assert!(!cpu.test_status_bit(status_bits::Z));

    // Test Carry flag
    cpu.update_carry_flag(true);
    assert!(cpu.test_status_bit(status_bits::C));
}

#[test]
fn test_pc_operations() {
    let mut cpu = Cpu::new();

    cpu.set_pc(0x100);
    assert_eq!(cpu.get_pc(), 0x100);

    cpu.increment_pc();
    assert_eq!(cpu.get_pc(), 0x101);
}

#[test]
fn cpu_test_stack_operations() {
    let mut cpu = Cpu::new();

    cpu.push_pc();
    cpu.set_pc(0x200);
    cpu.push_pc();

    assert_eq!(cpu.pop_pc(), 0x200);
    assert_eq!(cpu.pop_pc(), 0x000);
}

#[test]
fn test_banking() {
    let mut cpu = Cpu::new();

    // Default is Bank 0
    assert_eq!(cpu.get_bank(), 0);

    // Set RP0 bit to switch to Bank 1
    cpu.set_status_bit(status_bits::RP0);
    assert_eq!(cpu.get_bank(), 1);

    // Clear RP0 to return to Bank 0
    cpu.clear_status_bit(status_bits::RP0);
    assert_eq!(cpu.get_bank(), 0);
}

#[test]
fn test_gpio_integration() {
    let mut cpu = Cpu::new();
    cpu.reset();

    // Test setting TRISIO (configure GP0 as output, others as input)
    cpu.write_register(registers::TRISIO, 0x3E); // Try to set GP0 = output

    // GP3 should be forced to input (bit 3 = 1)
    // But we wrote 0x3E which already has bit 3 = 1
    // So we should read back 0x3E
    assert_eq!(cpu.gpio().read_tris(), 0x3E);

    // Verify GP0 is actually configured as output
    assert!(!cpu.gpio().is_input(0));

    // Verify GP3 is forced as input
    assert!(cpu.gpio().is_input(3));

    // Test writing to GPIO
    cpu.write_register(registers::GPIO, 0x01);

    // Test reading GPIO
    let gpio_val = cpu.read_register(registers::GPIO);
    assert_eq!(gpio_val & 0x01, 0x01); // GP0 should be high
}

#[test]
fn test_gpio_weak_pullup() {
    let mut cpu = Cpu::new();
    cpu.reset();

    // Enable weak pull-up on GP0
    cpu.write_register(registers::WPU, 0x01);
    assert_eq!(cpu.gpio().read_wpu(), 0x01);
}

#[test]
fn test_trisio_write_read_roundtrip() {
    let mut cpu = Cpu::new();
    cpu.reset();

    // Write(TRISIO, v) then Read(TRISIO) yields (v & 0x3F) | 0x08
    cpu.write_register(registers::TRISIO, 0x00);
    assert_eq!(cpu.read_register(registers::TRISIO), 0x08);
    cpu.write_register(registers::TRISIO, 0xF6);
    assert_eq!(cpu.read_register(registers::TRISIO), 0x3E);
}

#[test]
fn test_wpu_write_read_roundtrip() {
    let mut cpu = Cpu::new();
    cpu.reset();

    // Write(WPU, v) then Read(WPU) yields v & 0x37
    cpu.write_register(registers::WPU, 0xFF);
    assert_eq!(cpu.read_register(registers::WPU), 0x37);
    cpu.write_register(registers::WPU, 0x2F);
    assert_eq!(cpu.read_register(registers::WPU), 0x27);
}

#[test]
fn test_tmr0_write_clears_prescaler() {
    let mut cpu = Cpu::new();
    cpu.reset();

    // Give Timer0 the prescaler (PSA = 0, rate 1:4) and accumulate a bit
    cpu.set_status_bit(status_bits::RP0);
    cpu.write_register(registers::TMR0, 0x01); // OPTION_REG through Bank 1
    cpu.clear_status_bit(status_bits::RP0);
    cpu.timers_mut().timer0.tick();
    assert!(cpu.timers().timer0.get_prescaler() > 0);

    // A TMR0 write loads the counter and clears the prescaler
    cpu.write_register(registers::TMR0, 0x42);
    assert_eq!(cpu.read_register(registers::TMR0), 0x42);
    assert_eq!(cpu.timers().timer0.get_prescaler(), 0);
}

#[test]
fn test_pcl_write_loads_pc_from_pclath() {
    let mut cpu = Cpu::new();
    cpu.reset();

    cpu.write_register(registers::PCLATH, 0x01);
    cpu.write_register(registers::PCL, 0x34);
    assert_eq!(cpu.get_pc(), 0x0134);
    assert_eq!(cpu.read_register(registers::PCL), 0x34);
}

#[test]
fn test_indf_indirect_addressing() {
    let mut cpu = Cpu::new();
    cpu.reset();

    cpu.write_register(registers::FSR, 0x20);
    cpu.write_register(registers::INDF, 0x77);
    assert_eq!(cpu.read_register(0x20), 0x77);
    assert_eq!(cpu.read_register(registers::INDF), 0x77);
}

#[test]
fn test_sleep_and_wake_status_bits() {
    let mut cpu = Cpu::new();
    cpu.reset();

    cpu.enter_sleep();
    assert!(cpu.is_sleeping());
    // Sleeping: TO = 0, PD = 0
    assert!(!cpu.test_status_bit(status_bits::TO));
    assert!(!cpu.test_status_bit(status_bits::PD));

    // Wake by WDT: TO = 0, PD = 1
    cpu.wake_up(false);
    assert!(!cpu.is_sleeping());
    assert!(!cpu.test_status_bit(status_bits::TO));
    assert!(cpu.test_status_bit(status_bits::PD));

    // Wake by interrupt: TO = 1, PD = 0
    cpu.enter_sleep();
    cpu.wake_up(true);
    assert!(cpu.test_status_bit(status_bits::TO));
    assert!(!cpu.test_status_bit(status_bits::PD));
}

#[test]
fn test_reset_register_values() {
    let mut cpu = Cpu::new();
    cpu.write_w(0x55);
    cpu.set_pc(0x123);
    cpu.reset();

    assert_eq!(cpu.get_pc(), 0);
    assert_eq!(cpu.read_w(), 0);
    // STATUS reset value: TO = 1, PD = 1
    assert_eq!(cpu.read_register(registers::STATUS), 0x18);
    assert_eq!(cpu.read_register(registers::TRISIO), 0x3F);
    assert_eq!(cpu.read_register(registers::INTCON), 0x00);
}
