use picsim::Wdt;
use picsim::wdt::NOMINAL_PERIOD;

#[test]
fn test_wdt_creation() {
    let wdt = Wdt::new();
    assert!(wdt.is_enabled());
    assert_eq!(wdt.get_counter(), 0);
}

#[test]
fn test_wdt_clear() {
    let mut wdt = Wdt::new();

    // Increment counter
    for _ in 0..100 {
        wdt.tick();
    }

    assert!(wdt.get_counter() > 0);

    // Clear WDT
    wdt.clear();
    assert_eq!(wdt.get_counter(), 0);
}

#[test]
fn test_wdt_timeout() {
    let mut wdt = Wdt::new();

    // Run until just before timeout
    for _ in 0..(NOMINAL_PERIOD - 1) {
        assert!(!wdt.tick());
    }

    // Next tick should cause timeout
    assert!(wdt.tick());

    // Counter should reset
    assert_eq!(wdt.get_counter(), 0);
}

#[test]
fn test_wdt_prescaler() {
    let mut wdt = Wdt::new();

    // Set prescaler to 1:4
    let option_reg = 0x0A; // PSA=1, PS=010 (1:4)
    wdt.configure_prescaler(option_reg);

    assert_eq!(wdt.get_timeout_period(), NOMINAL_PERIOD * 4);
}

#[test]
fn test_wdt_timeout_after_18000n_cycles() {
    let mut wdt = Wdt::new();

    // Prescaler 1:4 assigned to the WDT
    wdt.configure_prescaler(0x0A);

    // Times out after exactly 18000 x 4 cycles from the last clear
    for _ in 0..(NOMINAL_PERIOD * 4 - 1) {
        assert!(!wdt.tick());
    }
    assert!(wdt.tick());
    assert_eq!(wdt.get_counter(), 0);
}

#[test]
fn test_wdt_disabled_never_times_out() {
    let mut wdt = Wdt::new();
    wdt.set_enabled(false);
    for _ in 0..(NOMINAL_PERIOD + 10) {
        assert!(!wdt.tick());
    }
    assert_eq!(wdt.get_counter(), 0);
}
