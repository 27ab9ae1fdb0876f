use picsim::{Timer0, Timer1};

#[test]
fn test_timer0_basic() {
    let mut tmr0 = Timer0::new();

    // Write value
    tmr0.write_counter(0x10);
    assert_eq!(tmr0.read_counter(), 0x10);
}

#[test]
fn test_timer0_prescaler_1_2() {
    let mut tmr0 = Timer0::new();

    // Configure prescaler to 1:2
    let option_reg = 0x00; // PS=000 (1:2), PSA=0 (assigned to TMR0)
    tmr0.configure_from_option(option_reg);

    tmr0.write_counter(0xFE);

    // First tick: prescaler 0->1, counter stays at 0xFE
    assert!(!tmr0.tick());
    assert_eq!(tmr0.read_counter(), 0xFE);

    // Second tick: prescaler 1->0, counter 0xFE->0xFF
    assert!(!tmr0.tick());
    assert_eq!(tmr0.read_counter(), 0xFF);

    // Third tick: prescaler 0->1, counter stays at 0xFF
    assert!(!tmr0.tick());
    assert_eq!(tmr0.read_counter(), 0xFF);

    // Fourth tick: prescaler 1->0, counter 0xFF->0x00 (overflow!)
    assert!(tmr0.tick());
    assert_eq!(tmr0.read_counter(), 0x00);
}

#[test]
fn test_timer0_no_prescaler() {
    let mut tmr0 = Timer0::new();

    // Assign prescaler to WDT (no prescaler for Timer0)
    let option_reg = 0x08; // PSA=1
    tmr0.configure_from_option(option_reg);

    tmr0.write_counter(0xFF);

    // Each tick increments counter directly
    assert!(tmr0.tick());
    assert_eq!(tmr0.read_counter(), 0x00);
}

#[test]
fn test_timer1_basic() {
    let mut tmr1 = Timer1::new();

    // Write low and high bytes
    tmr1.write_low(0x34);
    tmr1.write_high(0x12);

    assert_eq!(tmr1.get_counter(), 0x1234);
    assert_eq!(tmr1.read_low(), 0x34);
    assert_eq!(tmr1.read_high(), 0x12);
}

#[test]
fn test_timer1_counting() {
    let mut tmr1 = Timer1::new();

    // Enable Timer1 with 1:1 prescaler
    let t1con = 0x01; // TMR1ON=1, others default
    tmr1.configure_from_t1con(t1con);

    tmr1.write_low(0xFE);
    tmr1.write_high(0xFF);

    // Should be at 0xFFFE
    assert_eq!(tmr1.get_counter(), 0xFFFE);

    // Tick once: 0xFFFE -> 0xFFFF
    assert!(!tmr1.tick());
    assert_eq!(tmr1.get_counter(), 0xFFFF);

    // Tick again: 0xFFFF -> 0x0000 (overflow)
    assert!(tmr1.tick());
    assert_eq!(tmr1.get_counter(), 0x0000);
}

#[test]
fn test_timer1_prescaler() {
    let mut tmr1 = Timer1::new();

    // Enable Timer1 with 1:4 prescaler
    let t1con = 0x21; // TMR1ON=1, T1CKPS=10 (1:4)
    tmr1.configure_from_t1con(t1con);

    tmr1.write_low(0x00);
    tmr1.write_high(0x00);

    // Need 4 ticks to increment counter once
    assert!(!tmr1.tick());
    assert_eq!(tmr1.get_counter(), 0x0000);

    assert!(!tmr1.tick());
    assert_eq!(tmr1.get_counter(), 0x0000);

    assert!(!tmr1.tick());
    assert_eq!(tmr1.get_counter(), 0x0000);

    assert!(!tmr1.tick());
    assert_eq!(tmr1.get_counter(), 0x0001);
}

#[test]
fn test_timer1_disabled() {
    let mut tmr1 = Timer1::new();

    // Timer1 disabled (TMR1ON=0)
    let t1con = 0x00;
    tmr1.configure_from_t1con(t1con);

    tmr1.write_low(0x00);

    // Tick should not increment
    assert!(!tmr1.tick());
    assert_eq!(tmr1.get_counter(), 0x0000);
}

#[test]
fn test_timer0_overflow_after_256n_cycles() {
    let mut tmr0 = Timer0::new();

    // Prescaler 1:4 (PS=001), assigned to Timer0
    tmr0.configure_from_option(0x01);
    tmr0.write_counter(0x00);

    // Overflows after exactly 256 x 4 cycles from a write of 0
    for _ in 0..(256 * 4 - 1) {
        assert!(!tmr0.tick());
    }
    assert!(tmr0.tick());
    assert_eq!(tmr0.read_counter(), 0);
}

#[test]
fn test_timer1_overflow_after_65536n_cycles() {
    let mut tmr1 = Timer1::new();

    // Enabled, internal clock, prescaler 1:2 (T1CKPS=01)
    tmr1.configure_from_t1con(0x11);

    // Overflows after exactly 65536 x 2 cycles from 0x0000
    for _ in 0..(65536u32 * 2 - 1) {
        assert!(!tmr1.tick());
    }
    assert!(tmr1.tick());
    assert_eq!(tmr1.get_counter(), 0);
}

#[test]
fn test_timer0_external_clock_does_not_tick() {
    let mut tmr0 = Timer0::new();
    tmr0.configure_from_option(0x20); // T0CS = 1
    tmr0.write_counter(0xFF);
    assert!(!tmr0.tick());
    assert_eq!(tmr0.read_counter(), 0xFF);
}
