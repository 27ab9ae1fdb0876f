use picsim::{Gpio, PinState};

#[test]
fn test_gpio_creation() {
    let gpio = Gpio::new();
    assert_eq!(gpio.read_tris(), 0x3F); // All inputs
}

#[test]
fn test_output_mode() {
    let mut gpio = Gpio::new();

    // Set GP0 as output
    gpio.write_tris(0x3E); // GP0 = output, others = input

    // Write 1 to GP0
    gpio.write_gpio(0x01);

    // Should read back as 1
    assert_eq!(gpio.read_gpio() & 0x01, 0x01);
}

#[test]
fn test_input_mode() {
    let mut gpio = Gpio::new();

    // Set GP0 as input (default)
    gpio.write_tris(0x3F);

    // Set external pin high
    gpio.set_external_pin(0, true);

    // Should read high
    assert_eq!(gpio.read_gpio() & 0x01, 0x01);

    // Set external pin low
    gpio.set_external_pin(0, false);

    // Should read low
    assert_eq!(gpio.read_gpio() & 0x01, 0x00);
}

#[test]
fn test_weak_pullup() {
    let mut gpio = Gpio::new();

    // Set GP0 as input
    gpio.write_tris(0x3F);

    // Enable weak pull-up on GP0
    gpio.write_wpu(0x01);

    // External pin floating (high-Z) should read as high
    gpio.set_external_pin(0, true);
    assert_eq!(gpio.read_gpio() & 0x01, 0x01);
}

#[test]
fn test_gp3_always_input() {
    let mut gpio = Gpio::new();

    // Try to set GP3 as output
    gpio.write_tris(0x00);

    // GP3 should still be input
    assert!(gpio.is_input(3));
}

#[test]
fn test_pin_state_three_values() {
    let mut gpio = Gpio::new();

    // Inputs are high-impedance
    assert_eq!(gpio.get_pin_state(0), PinState::HighZ);

    // Outputs show the latch
    gpio.write_tris(0x3E);
    gpio.write_gpio(0x01);
    assert_eq!(gpio.get_pin_state(0), PinState::High);
    gpio.write_gpio(0x00);
    assert_eq!(gpio.get_pin_state(0), PinState::Low);

    // Pins above 5 do not exist
    assert_eq!(gpio.get_pin_state(6), PinState::HighZ);
}

#[test]
fn test_peripheral_override_wins() {
    let mut gpio = Gpio::new();

    // GP1 is an input driven low externally, but a peripheral override
    // drives it high
    gpio.set_external_pin(1, false);
    gpio.set_peripheral_control(1, true, true);
    assert_eq!(gpio.get_pin_state(1), PinState::High);
    assert_eq!(gpio.read_gpio() & 0x02, 0x02);

    // Releasing the override returns the pin to the external level
    gpio.set_peripheral_control(1, false, false);
    assert_eq!(gpio.read_gpio() & 0x02, 0x00);
}

#[test]
fn test_wpu_masks_gp3_gp5() {
    let mut gpio = Gpio::new();
    gpio.write_wpu(0xFF);
    assert_eq!(gpio.read_wpu(), 0x37);
}

#[test]
fn test_external_pins_upper_bits_zero() {
    let mut gpio = Gpio::new();
    gpio.set_external_pins(0xFF);
    assert_eq!(gpio.read_gpio(), 0x3F);
    assert!(!gpio.get_external_pin(6));
}
