//! PIC12F629/675 timers: Timer0, an 8-bit counter with a prescaler it
//! shares with the watchdog, and Timer1, a 16-bit counter with its own
//! prescaler, enable, and clock-source select.

use vstd::prelude::*;
use crate::bits::lemma_mask_8bit;

verus! {

/// Timer0 configuration and state.
#[derive(Debug, Clone, PartialEq, Eq, Structural)]
pub struct Timer0 {
    /// Counter value (the TMR0 register).
    pub counter: u8,
    /// Prescaler accumulator (shared with the WDT).
    pub prescaler: u16,
    /// Prescaler assignment: false = Timer0, true = WDT.
    pub prescaler_assigned_to_wdt: bool,
    /// Prescaler rate: 1:2, 1:4, ..., 1:256.
    pub prescaler_rate: u16,
    /// Clock source: false = internal, true = external T0CKI pin.
    pub clock_source_external: bool,
    /// Edge select for the external clock.
    pub edge_select: bool,
}

/// The Timer0 prescaler rate selected by the PS bits of OPTION_REG.
pub open spec fn spec_t0_rate(ps_bits: u8) -> u16 {
    if ps_bits == 0 {
        2
    } else if ps_bits == 1 {
        4
    } else if ps_bits == 2 {
        8
    } else if ps_bits == 3 {
        16
    } else if ps_bits == 4 {
        32
    } else if ps_bits == 5 {
        64
    } else if ps_bits == 6 {
        128
    } else {
        256
    }
}

/// An 8-bit counter value after one increment, wrapping at 0xFF.
pub open spec fn spec_inc_u8(c: u8) -> u8 {
    if c == 0xFF {
        0
    } else {
        (c + 1) as u8
    }
}

/// A 16-bit counter value after one increment, wrapping at 0xFFFF.
pub open spec fn spec_inc_u16(c: u16) -> u16 {
    if c == 0xFFFF {
        0
    } else {
        (c + 1) as u16
    }
}

/// Timer0 after the state written by OPTION_REG: clock source, edge
/// select, prescaler assignment and rate; the prescaler accumulator
/// is cleared.
pub open spec fn spec_t0_configure(t: Timer0, option_reg: u8) -> Timer0 {
    Timer0 {
        clock_source_external: option_reg & 0x20 != 0,
        edge_select: option_reg & 0x10 != 0,
        prescaler_assigned_to_wdt: option_reg & 0x08 != 0,
        prescaler_rate: spec_t0_rate(option_reg & 0x07),
        prescaler: 0,
        counter: t.counter,
    }
}

/// One Timer0 tick: nothing on an external clock; a direct increment
/// when the prescaler belongs to the WDT; otherwise the prescaler
/// accumulates and the counter advances when it reaches the rate.
/// The second component reports a wrap from 0xFF to 0x00.
pub open spec fn spec_t0_tick(t: Timer0) -> (Timer0, bool) {
    if t.clock_source_external {
        (t, false)
    } else if t.prescaler_assigned_to_wdt {
        (Timer0 { counter: spec_inc_u8(t.counter), ..t }, t.counter == 0xFF)
    } else if t.prescaler + 1 >= t.prescaler_rate {
        (Timer0 { prescaler: 0, counter: spec_inc_u8(t.counter), ..t }, t.counter == 0xFF)
    } else {
        (Timer0 { prescaler: (t.prescaler + 1) as u16, ..t }, false)
    }
}

impl Timer0 {
    /// The prescaler rate is one of the eight OPTION_REG encodings and
    /// the accumulator stays below it.
    pub open spec fn wf(self) -> bool {
        &&& (self.prescaler_rate == 2 || self.prescaler_rate == 4 || self.prescaler_rate == 8
            || self.prescaler_rate == 16 || self.prescaler_rate == 32 || self.prescaler_rate == 64
            || self.prescaler_rate == 128 || self.prescaler_rate == 256)
        &&& self.prescaler < self.prescaler_rate
    }

    /// Create a Timer0 in its power-on state.
    pub fn new() -> (r: Timer0)
        ensures
            r == spec_t0_reset(),
            r.wf(),
    {
        Timer0 {
            counter: 0,
            prescaler: 0,
            prescaler_assigned_to_wdt: false,
            prescaler_rate: 2,
            clock_source_external: false,
            edge_select: false,
        }
    }

    /// Reset to the power-on state.
    pub fn reset(&mut self)
        ensures
            *final(self) == spec_t0_reset(),
            final(self).wf(),
    {
        self.counter = 0;
        self.prescaler = 0;
        self.prescaler_assigned_to_wdt = false;
        self.prescaler_rate = 2;
        self.clock_source_external = false;
        self.edge_select = false;
    }

    /// Read the TMR0 register.
    pub fn read_counter(&self) -> (r: u8)
        ensures
            r == self.counter,
    {
        self.counter
    }

    /// Write the TMR0 register; any write clears the prescaler accumulator.
    pub fn write_counter(&mut self, value: u8)
        ensures
            *final(self) == (Timer0 { counter: value, prescaler: 0, ..*old(self) }),
            old(self).wf() ==> final(self).wf(),
    {
        self.counter = value;
        self.prescaler = 0;
    }

    /// Configure from the OPTION_REG value: T0CS (bit 5), T0SE (bit 4),
    /// PSA (bit 3) and PS (bits 2-0).
    pub fn configure_from_option(&mut self, option_reg: u8)
        ensures
            *final(self) == spec_t0_configure(*old(self), option_reg),
            final(self).wf(),
    {
        self.clock_source_external = (option_reg & 0x20) != 0;
        self.edge_select = (option_reg & 0x10) != 0;
        self.prescaler_assigned_to_wdt = (option_reg & 0x08) != 0;

        let ps_bits = option_reg & 0x07;
        self.prescaler_rate = if ps_bits == 0 {
            2
        } else if ps_bits == 1 {
            4
        } else if ps_bits == 2 {
            8
        } else if ps_bits == 3 {
            16
        } else if ps_bits == 4 {
            32
        } else if ps_bits == 5 {
            64
        } else if ps_bits == 6 {
            128
        } else {
            256
        };

        self.prescaler = 0;
    }

    /// Advance Timer0 by one instruction cycle; reports true on a wrap
    /// from 0xFF to 0x00.
    pub fn tick(&mut self) -> (overflow: bool)
        requires
            old(self).wf(),
        ensures
            final(self).wf(),
            (*final(self), overflow) == spec_t0_tick(*old(self)),
    {
        if self.clock_source_external {
            return false;
        }

        if self.prescaler_assigned_to_wdt {
            let overflow = self.counter == 0xFF;
            self.counter = if overflow {
                0
            } else {
                self.counter + 1
            };
            overflow
        } else {
            self.prescaler = self.prescaler + 1;
            if self.prescaler >= self.prescaler_rate {
                self.prescaler = 0;
                let overflow = self.counter == 0xFF;
                self.counter = if overflow {
                    0
                } else {
                    self.counter + 1
                };
                overflow
            } else {
                false
            }
        }
    }

    /// Get the current prescaler accumulator (for debugging).
    pub fn get_prescaler(&self) -> (r: u16)
        ensures
            r == self.prescaler,
    {
        self.prescaler
    }
}

/// The power-on state of Timer0.
pub open spec fn spec_t0_reset() -> Timer0 {
    Timer0 {
        counter: 0,
        prescaler: 0,
        prescaler_assigned_to_wdt: false,
        prescaler_rate: 2,
        clock_source_external: false,
        edge_select: false,
    }
}

/// Timer1 configuration and state.
#[derive(Debug, Clone, PartialEq, Eq, Structural)]
pub struct Timer1 {
    /// 16-bit counter value (TMR1H:TMR1L).
    pub counter: u16,
    /// Timer1 enabled (TMR1ON).
    pub enabled: bool,
    /// Clock source: false = internal Fosc/4, true = external.
    pub clock_source_external: bool,
    /// Prescaler rate: 1:1, 1:2, 1:4, or 1:8.
    pub prescaler_rate: u16,
    /// Prescaler accumulator.
    pub prescaler: u16,
    /// Timer1 oscillator enable (T1OSCEN).
    pub oscillator_enabled: bool,
    /// External clock synchronization (inverted T1SYNC).
    pub sync_external_clock: bool,
}

/// The Timer1 prescaler rate selected by the T1CKPS bits of T1CON.
pub open spec fn spec_t1_rate(bits: u8) -> u16 {
    if bits == 0 {
        1
    } else if bits == 1 {
        2
    } else if bits == 2 {
        4
    } else {
        8
    }
}

/// Timer1 after the state written by T1CON: prescaler rate, oscillator
/// enable, synchronization, clock source and enable. The counter and
/// the prescaler accumulator are untouched.
pub open spec fn spec_t1_configure(t: Timer1, t1con: u8) -> Timer1 {
    Timer1 {
        prescaler_rate: spec_t1_rate((t1con >> 4) & 0x03),
        oscillator_enabled: t1con & 0x08 != 0,
        sync_external_clock: t1con & 0x04 == 0,
        clock_source_external: t1con & 0x02 != 0,
        enabled: t1con & 0x01 != 0,
        ..t
    }
}

/// One Timer1 tick: nothing when disabled or externally clocked;
/// otherwise the prescaler accumulates and the counter advances when it
/// reaches the rate. The second component reports a wrap from 0xFFFF to
/// 0x0000.
pub open spec fn spec_t1_tick(t: Timer1) -> (Timer1, bool) {
    if !t.enabled || t.clock_source_external {
        (t, false)
    } else if t.prescaler + 1 >= t.prescaler_rate {
        (Timer1 { prescaler: 0, counter: spec_inc_u16(t.counter), ..t }, t.counter == 0xFFFF)
    } else {
        (Timer1 { prescaler: (t.prescaler + 1) as u16, ..t }, false)
    }
}

impl Timer1 {
    /// The prescaler rate is one of the four T1CON encodings and the
    /// accumulator stays below the largest rate.
    pub open spec fn wf(self) -> bool {
        &&& (self.prescaler_rate == 1 || self.prescaler_rate == 2 || self.prescaler_rate == 4
            || self.prescaler_rate == 8)
        &&& self.prescaler < 8
    }

    /// Create a Timer1 in its power-on state.
    pub fn new() -> (r: Timer1)
        ensures
            r == spec_t1_reset(),
            r.wf(),
    {
        Timer1 {
            counter: 0,
            enabled: false,
            clock_source_external: false,
            prescaler_rate: 1,
            prescaler: 0,
            oscillator_enabled: false,
            sync_external_clock: true,
        }
    }

    /// Reset to the power-on state.
    pub fn reset(&mut self)
        ensures
            *final(self) == spec_t1_reset(),
            final(self).wf(),
    {
        self.counter = 0;
        self.enabled = false;
        self.clock_source_external = false;
        self.prescaler_rate = 1;
        self.prescaler = 0;
        self.oscillator_enabled = false;
        self.sync_external_clock = true;
    }

    /// Read the low byte of the counter (TMR1L).
    pub fn read_low(&self) -> (r: u8)
        ensures
            r == (self.counter & 0xFF) as u8,
    {
        proof { lemma_mask_8bit(self.counter); }
        (self.counter & 0xFF) as u8
    }

    /// Read the high byte of the counter (TMR1H).
    pub fn read_high(&self) -> (r: u8)
        ensures
            r == ((self.counter >> 8) & 0xFF) as u8,
    {
        proof { lemma_mask_8bit(self.counter); }
        ((self.counter >> 8) & 0xFF) as u8
    }

    /// Write the low byte of the counter, leaving the high byte alone.
    pub fn write_low(&mut self, value: u8)
        ensures
            *final(self) == (Timer1 {
                counter: (old(self).counter & 0xFF00) | (value as u16),
                ..*old(self)
            }),
            old(self).wf() ==> final(self).wf(),
    {
        self.counter = (self.counter & 0xFF00) | (value as u16);
    }

    /// Write the high byte of the counter, leaving the low byte alone.
    pub fn write_high(&mut self, value: u8)
        ensures
            *final(self) == (Timer1 {
                counter: (old(self).counter & 0x00FF) | ((value as u16) << 8),
                ..*old(self)
            }),
            old(self).wf() ==> final(self).wf(),
    {
        self.counter = (self.counter & 0x00FF) | ((value as u16) << 8);
    }

    /// Configure from the T1CON value: T1CKPS (bits 5-4), T1OSCEN
    /// (bit 3), T1SYNC (bit 2, inverted), TMR1CS (bit 1), TMR1ON (bit 0).
    pub fn configure_from_t1con(&mut self, t1con: u8)
        requires
            old(self).wf(),
        ensures
            *final(self) == spec_t1_configure(*old(self), t1con),
            final(self).wf(),
    {
        let prescaler_bits = (t1con >> 4) & 0x03;
        self.prescaler_rate = if prescaler_bits == 0 {
            1
        } else if prescaler_bits == 1 {
            2
        } else if prescaler_bits == 2 {
            4
        } else {
            8
        };

        self.oscillator_enabled = (t1con & 0x08) != 0;
        self.sync_external_clock = (t1con & 0x04) == 0;
        self.clock_source_external = (t1con & 0x02) != 0;
        self.enabled = (t1con & 0x01) != 0;
    }

    /// Advance Timer1 by one instruction cycle; reports true on a wrap
    /// from 0xFFFF to 0x0000.
    pub fn tick(&mut self) -> (overflow: bool)
        requires
            old(self).wf(),
        ensures
            final(self).wf(),
            (*final(self), overflow) == spec_t1_tick(*old(self)),
    {
        if !self.enabled {
            return false;
        }

        if self.clock_source_external {
            return false;
        }

        self.prescaler = self.prescaler + 1;
        if self.prescaler >= self.prescaler_rate {
            self.prescaler = 0;
            let overflow = self.counter == 0xFFFF;
            self.counter = if overflow {
                0
            } else {
                self.counter + 1
            };
            overflow
        } else {
            false
        }
    }

    /// Get the current 16-bit counter value (for debugging).
    pub fn get_counter(&self) -> (r: u16)
        ensures
            r == self.counter,
    {
        self.counter
    }

    /// Check if the timer is enabled.
    pub fn is_enabled(&self) -> (r: bool)
        ensures
            r == self.enabled,
    {
        self.enabled
    }
}

/// The power-on state of Timer1.
pub open spec fn spec_t1_reset() -> Timer1 {
    Timer1 {
        counter: 0,
        enabled: false,
        clock_source_external: false,
        prescaler_rate: 1,
        prescaler: 0,
        oscillator_enabled: false,
        sync_external_clock: true,
    }
}

/// Timer controller owning both Timer0 and Timer1.
#[derive(Debug, Clone, PartialEq, Eq, Structural)]
pub struct TimerController {
    pub timer0: Timer0,
    pub timer1: Timer1,
}

impl TimerController {
    /// Both timers are well formed.
    pub open spec fn wf(self) -> bool {
        self.timer0.wf() && self.timer1.wf()
    }

    /// Create both timers in their power-on state.
    pub fn new() -> (r: TimerController)
        ensures
            r == (TimerController { timer0: spec_t0_reset(), timer1: spec_t1_reset() }),
            r.wf(),
    {
        TimerController { timer0: Timer0::new(), timer1: Timer1::new() }
    }

    /// Reset both timers.
    pub fn reset(&mut self)
        ensures
            *final(self) == (TimerController { timer0: spec_t0_reset(), timer1: spec_t1_reset() }),
            final(self).wf(),
    {
        self.timer0.reset();
        self.timer1.reset();
    }

    /// Tick both timers once; returns their overflow reports as
    /// (timer0, timer1).
    pub fn tick(&mut self) -> (r: (bool, bool))
        requires
            old(self).wf(),
        ensures
            final(self).wf(),
            final(self).timer0 == spec_t0_tick(old(self).timer0).0,
            final(self).timer1 == spec_t1_tick(old(self).timer1).0,
            r.0 == spec_t0_tick(old(self).timer0).1,
            r.1 == spec_t1_tick(old(self).timer1).1,
    {
        let tmr0_overflow = self.timer0.tick();
        let tmr1_overflow = self.timer1.tick();
        (tmr0_overflow, tmr1_overflow)
    }
}

} // verus!
