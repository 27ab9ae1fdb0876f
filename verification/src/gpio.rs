//! PIC12F629/675 GPIO port: a 6-bit bidirectional port with direction
//! control (TRISIO), weak pull-ups (WPU), externally driven pin state,
//! and peripheral overrides. GP3 is input-only; bits 6 and 7 of every
//! port byte are always zero.

use vstd::prelude::*;
use crate::bits::{lemma_port_masks, lemma_port_bit, lemma_or_bound, lemma_reset_constants};

verus! {

/// Observable state of one GPIO pin.
#[derive(Debug, Clone, Copy, PartialEq, Eq, Structural)]
pub enum PinState {
    Low,
    High,
    HighZ,
}

/// GPIO port controller.
#[derive(Debug, Clone, PartialEq, Eq, Structural)]
pub struct Gpio {
    /// Port latch: what was last written to the GPIO register.
    pub port_value: u8,
    /// Direction register (TRISIO): 1 = input, 0 = output; bit 3 forced to 1.
    pub tris: u8,
    /// Weak pull-up enable; GP3 and GP5 have no pull-ups.
    pub weak_pullup: u8,
    /// Externally driven pin levels (the simulated outside world).
    pub external_pins: u8,
    /// Per-pin peripheral override enable.
    pub peripheral_output_enable: u8,
    /// Per-pin peripheral override value.
    pub peripheral_output_value: u8,
}

impl Gpio {
    /// Every port byte keeps its upper two bits clear, TRISIO keeps GP3
    /// as an input, and WPU has no bits for GP3 or GP5.
    pub open spec fn wf(self) -> bool {
        &&& self.port_value < 0x40
        &&& self.tris < 0x40
        &&& self.tris & 0x08 == 0x08
        &&& self.weak_pullup & 0x37 == self.weak_pullup
        &&& self.external_pins < 0x40
        &&& self.peripheral_output_enable < 0x40
        &&& self.peripheral_output_value < 0x40
    }

    /// Create a new GPIO controller in its power-on state.
    pub fn new() -> (r: Gpio)
        ensures
            r == spec_gpio_reset(),
            r.wf(),
    {
        let g = Gpio {
            port_value: 0x00,
            tris: 0x3F,
            weak_pullup: 0x00,
            external_pins: 0x3F,
            peripheral_output_enable: 0x00,
            peripheral_output_value: 0x00,
        };
        proof { lemma_reset_constants(); }
        g
    }

    /// Reset to the power-on state: all pins inputs, pull-ups off,
    /// external pins pulled high.
    pub fn reset(&mut self)
        ensures
            *final(self) == spec_gpio_reset(),
            final(self).wf(),
    {
        self.port_value = 0x00;
        self.tris = 0x3F;
        self.weak_pullup = 0x00;
        self.external_pins = 0x3F;
        self.peripheral_output_enable = 0x00;
        self.peripheral_output_value = 0x00;
        proof { lemma_reset_constants(); }
    }

    /// Write the GPIO register: stores the low six bits in the port latch.
    pub fn write_gpio(&mut self, value: u8)
        ensures
            *final(self) == (Gpio { port_value: value & 0x3F, ..*old(self) }),
            old(self).wf() ==> final(self).wf(),
    {
        self.port_value = value & 0x3F;
        proof { lemma_port_masks(value); }
    }

    /// Read the GPIO register: yields the resolved pin states, not the
    /// port latch (see `spec_pin_resolved` for the per-pin priority).
    pub fn read_gpio(&self) -> (r: u8)
        requires
            self.wf(),
        ensures
            r == spec_read_gpio(*self),
            r < 0x40,
    {
        let b0: u8 = if self.pin_high(0) { 0x01 } else { 0 };
        let b1: u8 = if self.pin_high(1) { 0x02 } else { 0 };
        let b2: u8 = if self.pin_high(2) { 0x04 } else { 0 };
        let b3: u8 = if self.pin_high(3) { 0x08 } else { 0 };
        let b4: u8 = if self.pin_high(4) { 0x10 } else { 0 };
        let b5: u8 = if self.pin_high(5) { 0x20 } else { 0 };
        let r = b0 | b1 | b2 | b3 | b4 | b5;
        proof {
            lemma_or_bound(b0, b1);
            lemma_or_bound(b0 | b1, b2);
            lemma_or_bound(b0 | b1 | b2, b3);
            lemma_or_bound(b0 | b1 | b2 | b3, b4);
            lemma_or_bound(b0 | b1 | b2 | b3 | b4, b5);
        }
        r
    }

    /// Resolve one pin to a logic level: a peripheral override wins,
    /// an input pin reads the external level, an output pin reads the latch.
    fn pin_high(&self, pin: u8) -> (r: bool)
        requires
            pin < 6,
        ensures
            r == spec_pin_resolved(*self, pin),
    {
        let mask: u8 = 1u8 << pin;
        if self.peripheral_output_enable & mask != 0 {
            self.peripheral_output_value & mask != 0
        } else if self.tris & mask != 0 {
            self.external_pins & mask != 0
        } else {
            self.port_value & mask != 0
        }
    }

    /// Write the TRISIO register; GP3 is always forced to be an input.
    pub fn write_tris(&mut self, value: u8)
        ensures
            *final(self) == (Gpio { tris: (value & 0x3F) | 0x08, ..*old(self) }),
            old(self).wf() ==> final(self).wf(),
    {
        self.tris = (value & 0x3F) | 0x08;
        proof { lemma_port_masks(value); }
    }

    /// Read the TRISIO register.
    pub fn read_tris(&self) -> (r: u8)
        ensures
            r == self.tris,
    {
        self.tris
    }

    /// Write the WPU register; GP3 and GP5 have no pull-ups, so the
    /// value is masked to 0x37.
    pub fn write_wpu(&mut self, value: u8)
        ensures
            *final(self) == (Gpio { weak_pullup: value & 0x37, ..*old(self) }),
            old(self).wf() ==> final(self).wf(),
    {
        self.weak_pullup = value & 0x37;
        proof { lemma_port_masks(value); }
    }

    /// Read the WPU register.
    pub fn read_wpu(&self) -> (r: u8)
        ensures
            r == self.weak_pullup,
    {
        self.weak_pullup
    }

    /// Set the level an external driver applies to one pin; pins above
    /// 5 do not exist and the call is ignored.
    pub fn set_external_pin(&mut self, pin: u8, state: bool)
        ensures
            pin < 6 && state ==> *final(self) == (Gpio {
                external_pins: old(self).external_pins | (1u8 << pin),
                ..*old(self)
            }),
            pin < 6 && !state ==> *final(self) == (Gpio {
                external_pins: old(self).external_pins & !(1u8 << pin),
                ..*old(self)
            }),
            pin >= 6 ==> *final(self) == *old(self),
            old(self).wf() ==> final(self).wf(),
    {
        if pin < 6 {
            proof {
                if old(self).wf() {
                    lemma_port_bit(old(self).external_pins, pin);
                }
            }
            if state {
                self.external_pins = self.external_pins | (1u8 << pin);
            } else {
                self.external_pins = self.external_pins & !(1u8 << pin);
            }
        }
    }

    /// Get the level an external driver applies to one pin; pins above 5
    /// read as low.
    pub fn get_external_pin(&self, pin: u8) -> (r: bool)
        ensures
            r == (pin < 6 && self.external_pins & (1u8 << pin) != 0),
    {
        if pin < 6 {
            (self.external_pins & (1u8 << pin)) != 0
        } else {
            false
        }
    }

    /// Set all six externally driven pin levels at once.
    pub fn set_external_pins(&mut self, value: u8)
        ensures
            *final(self) == (Gpio { external_pins: value & 0x3F, ..*old(self) }),
            old(self).wf() ==> final(self).wf(),
    {
        self.external_pins = value & 0x3F;
        proof { lemma_port_masks(value); }
    }

    /// Get the port latch: what would be driven on pins configured as outputs.
    pub fn get_output_values(&self) -> (r: u8)
        ensures
            r == self.port_value,
    {
        self.port_value
    }

    /// Whether a pin is configured as an input; pins above 5 report false.
    pub fn is_input(&self, pin: u8) -> (r: bool)
        ensures
            r == (pin < 6 && self.tris & (1u8 << pin) != 0),
    {
        if pin < 6 {
            (self.tris & (1u8 << pin)) != 0
        } else {
            false
        }
    }

    /// Observable three-valued state of one pin: a peripheral override
    /// drives it, an input pin is high-impedance, an output pin shows
    /// the latch.
    pub fn get_pin_state(&self, pin: u8) -> (r: PinState)
        ensures
            r == spec_pin_state(*self, pin),
    {
        if pin >= 6 {
            return PinState::HighZ;
        }

        let mask: u8 = 1u8 << pin;

        if self.peripheral_output_enable & mask != 0 {
            if self.peripheral_output_value & mask != 0 {
                PinState::High
            } else {
                PinState::Low
            }
        } else if self.tris & mask != 0 {
            PinState::HighZ
        } else {
            if self.port_value & mask != 0 {
                PinState::High
            } else {
                PinState::Low
            }
        }
    }

    /// Let a peripheral take over a pin (for example a comparator
    /// output), or release it; pins above 5 are ignored.
    pub fn set_peripheral_control(&mut self, pin: u8, enable: bool, value: bool)
        ensures
            pin >= 6 ==> *final(self) == *old(self),
            pin < 6 && enable && value ==> *final(self) == (Gpio {
                peripheral_output_enable: old(self).peripheral_output_enable | (1u8 << pin),
                peripheral_output_value: old(self).peripheral_output_value | (1u8 << pin),
                ..*old(self)
            }),
            pin < 6 && enable && !value ==> *final(self) == (Gpio {
                peripheral_output_enable: old(self).peripheral_output_enable | (1u8 << pin),
                peripheral_output_value: old(self).peripheral_output_value & !(1u8 << pin),
                ..*old(self)
            }),
            pin < 6 && !enable ==> *final(self) == (Gpio {
                peripheral_output_enable: old(self).peripheral_output_enable & !(1u8 << pin),
                ..*old(self)
            }),
            old(self).wf() ==> final(self).wf(),
    {
        if pin < 6 {
            proof {
                if old(self).wf() {
                    lemma_port_bit(old(self).peripheral_output_enable, pin);
                    lemma_port_bit(old(self).peripheral_output_value, pin);
                }
            }
            let mask: u8 = 1u8 << pin;

            if enable {
                self.peripheral_output_enable = self.peripheral_output_enable | mask;
                if value {
                    self.peripheral_output_value = self.peripheral_output_value | mask;
                } else {
                    self.peripheral_output_value = self.peripheral_output_value & !mask;
                }
            } else {
                self.peripheral_output_enable = self.peripheral_output_enable & !mask;
            }
        }
    }
}

/// The power-on state of the port: all pins inputs, pull-ups disabled,
/// external pins modelled as pulled high.
pub open spec fn spec_gpio_reset() -> Gpio {
    Gpio {
        port_value: 0x00,
        tris: 0x3F,
        weak_pullup: 0x00,
        external_pins: 0x3F,
        peripheral_output_enable: 0x00,
        peripheral_output_value: 0x00,
    }
}

/// The resolved logic level of one pin, by priority: a peripheral
/// override wins; otherwise an input pin (TRIS bit 1) reads the
/// externally driven level; otherwise the port latch drives the pin.
pub open spec fn spec_pin_resolved(g: Gpio, pin: u8) -> bool {
    let mask = 1u8 << pin;
    if g.peripheral_output_enable & mask != 0 {
        g.peripheral_output_value & mask != 0
    } else if g.tris & mask != 0 {
        g.external_pins & mask != 0
    } else {
        g.port_value & mask != 0
    }
}

/// The byte a read of the GPIO register yields: each of the six pins
/// resolved to its logic level.
pub open spec fn spec_read_gpio(g: Gpio) -> u8 {
    (if spec_pin_resolved(g, 0) { 0x01u8 } else { 0u8 })
        | (if spec_pin_resolved(g, 1) { 0x02u8 } else { 0u8 })
        | (if spec_pin_resolved(g, 2) { 0x04u8 } else { 0u8 })
        | (if spec_pin_resolved(g, 3) { 0x08u8 } else { 0u8 })
        | (if spec_pin_resolved(g, 4) { 0x10u8 } else { 0u8 })
        | (if spec_pin_resolved(g, 5) { 0x20u8 } else { 0u8 })
}

/// The observable state of one pin: overridden pins show the override,
/// inputs are high-impedance, outputs show the latch; pins above 5 do
/// not exist and read as high-impedance.
pub open spec fn spec_pin_state(g: Gpio, pin: u8) -> PinState {
    let mask = 1u8 << pin;
    if pin >= 6 {
        PinState::HighZ
    } else if g.peripheral_output_enable & mask != 0 {
        if g.peripheral_output_value & mask != 0 {
            PinState::High
        } else {
            PinState::Low
        }
    } else if g.tris & mask != 0 {
        PinState::HighZ
    } else {
        if g.port_value & mask != 0 {
            PinState::High
        } else {
            PinState::Low
        }
    }
}

} // verus!
