use picsim::{InterruptController, InterruptSource};

#[test]
fn test_interrupt_controller_creation() {
    let ic = InterruptController::new();
    assert!(!ic.in_isr());
    assert_eq!(ic.get_vector(), 0x0004);
}

#[test]
fn test_no_interrupt_when_gie_disabled() {
    let ic = InterruptController::new();

    // GIE=0, T0IE=1, T0IF=1
    let intcon = 0x24; // GIE=0, T0IE=1, T0IF=1
    let pie1 = 0x00;
    let pir1 = 0x00;

    let (should_int, _) = ic.check_interrupts(intcon, pie1, pir1);
    assert!(!should_int);
}

#[test]
fn test_tmr0_interrupt() {
    let ic = InterruptController::new();

    // GIE=1, T0IE=1, T0IF=1
    let intcon = 0xA4; // GIE=1, T0IE=1, T0IF=1
    let pie1 = 0x00;
    let pir1 = 0x00;

    let (should_int, vec) = ic.check_interrupts(intcon, pie1, pir1);
    assert!(should_int);
    assert_eq!(vec, 0x0004);
}

#[test]
fn test_tmr1_interrupt() {
    let ic = InterruptController::new();

    // GIE=1, PEIE=1, TMR1IE=1, TMR1IF=1
    let intcon = 0xC0; // GIE=1, PEIE=1
    let pie1 = 0x01; // TMR1IE=1
    let pir1 = 0x01; // TMR1IF=1

    let (should_int, vec) = ic.check_interrupts(intcon, pie1, pir1);
    assert!(should_int);
    assert_eq!(vec, 0x0004);
}

#[test]
fn test_interrupt_disabled_when_ie_cleared() {
    let ic = InterruptController::new();

    // GIE=1, T0IE=0, T0IF=1 (flag set but interrupt disabled)
    let intcon = 0x84; // GIE=1, T0IE=0, T0IF=1
    let pie1 = 0x00;
    let pir1 = 0x00;

    let (should_int, _) = ic.check_interrupts(intcon, pie1, pir1);
    assert!(!should_int);
}

#[test]
fn test_isr_state() {
    let mut ic = InterruptController::new();

    assert!(!ic.in_isr());

    ic.enter_isr();
    assert!(ic.in_isr());

    ic.exit_isr();
    assert!(!ic.in_isr());
}

#[test]
fn test_peripheral_interrupts_need_peie() {
    let ic = InterruptController::new();

    // GIE=1 but PEIE=0: a flagged, enabled Timer1 interrupt stays quiet
    let (should_int, _) = ic.check_interrupts(0x80, 0x01, 0x01);
    assert!(!should_int);

    // Comparator, ADC and EEPROM pairs fire under PEIE
    assert!(ic.check_interrupts(0xC0, 0x08, 0x08).0);
    assert!(ic.check_interrupts(0xC0, 0x40, 0x40).0);
    assert!(ic.check_interrupts(0xC0, 0x80, 0x80).0);
}

#[test]
fn test_interrupt_source_names() {
    assert_eq!(InterruptSource::Timer0Overflow.name(), "TMR0 Overflow");
    assert_eq!(InterruptSource::Timer1Overflow.name(), "Timer1 Overflow");
    assert_eq!(InterruptSource::EepromWrite.name(), "EEPROM Write");
}
