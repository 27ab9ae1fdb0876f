//! PIC12F629/675 watchdog timer: a free-running counter that, when the
//! shared prescaler is assigned to it, advances once every N instruction
//! cycles and signals a timeout after a nominal 18000-count period, so a
//! 1:N prescaler times out after exactly 18000 x N cycles.

use vstd::prelude::*;

verus! {

/// Nominal WDT period without prescaler, in instruction cycles
/// (about 18 ms at a 4 MHz oscillator).
pub const NOMINAL_PERIOD: u32 = 18000;

/// Watchdog timer controller.
#[derive(Debug, Clone, PartialEq, Eq, Structural)]
pub struct Wdt {
    /// Timeout accumulator; advances once per (prescaled) cycle.
    pub counter: u32,
    /// WDT enabled (it is enabled by default).
    pub enabled: bool,
    /// Prescaler accumulator (shared with Timer0).
    pub prescaler: u16,
    /// Prescaler rate: 1:1, 1:2, ..., 1:128.
    pub prescaler_rate: u16,
    /// Prescaler assigned to the WDT rather than Timer0 (PSA bit).
    pub prescaler_assigned: bool,
    /// Timeout period in instruction cycles: the nominal period scaled
    /// by the prescaler rate.
    pub timeout_period: u32,
}

/// The WDT prescaler rate selected by the PS bits of OPTION_REG.
pub open spec fn spec_wdt_rate(ps_bits: u8) -> u16 {
    if ps_bits == 0 {
        1
    } else if ps_bits == 1 {
        2
    } else if ps_bits == 2 {
        4
    } else if ps_bits == 3 {
        8
    } else if ps_bits == 4 {
        16
    } else if ps_bits == 5 {
        32
    } else if ps_bits == 6 {
        64
    } else {
        128
    }
}

/// The WDT after the state written by OPTION_REG: when PSA assigns the
/// prescaler to the WDT, the rate follows the PS bits and the period in
/// cycles scales with it; otherwise the rate is 1:1. The prescaler
/// accumulator is cleared either way.
pub open spec fn spec_wdt_configure(w: Wdt, option_reg: u8) -> Wdt {
    let assigned = option_reg & 0x08 != 0;
    let rate: u16 = if assigned {
        spec_wdt_rate(option_reg & 0x07)
    } else {
        1
    };
    Wdt {
        prescaler_assigned: assigned,
        prescaler_rate: rate,
        timeout_period: (NOMINAL_PERIOD * rate as u32) as u32,
        prescaler: 0,
        ..w
    }
}

/// One WDT tick: nothing when disabled. With the prescaler assigned and
/// a rate above 1:1, the prescaler accumulates and the counter advances
/// once per rate; otherwise the counter advances every cycle. Reaching
/// the nominal count signals a timeout and clears both accumulators.
pub open spec fn spec_wdt_tick(w: Wdt) -> (Wdt, bool) {
    if !w.enabled {
        (w, false)
    } else {
        let stepped = if w.prescaler_assigned && w.prescaler_rate > 1 {
            if w.prescaler + 1 >= w.prescaler_rate {
                Wdt { prescaler: 0, counter: (w.counter + 1) as u32, ..w }
            } else {
                Wdt { prescaler: (w.prescaler + 1) as u16, ..w }
            }
        } else {
            Wdt { counter: (w.counter + 1) as u32, ..w }
        };
        if stepped.counter >= NOMINAL_PERIOD {
            (Wdt { counter: 0, prescaler: 0, ..stepped }, true)
        } else {
            (stepped, false)
        }
    }
}

/// The power-on state of the WDT: enabled, 1:1 rate, nominal period.
pub open spec fn spec_wdt_reset() -> Wdt {
    Wdt {
        counter: 0,
        enabled: true,
        prescaler: 0,
        prescaler_rate: 1,
        prescaler_assigned: false,
        timeout_period: NOMINAL_PERIOD,
    }
}

impl Wdt {
    /// The rate is one of the eight encodings, the accumulators stay in
    /// range, and the reported period is the nominal period scaled by
    /// the rate.
    pub open spec fn wf(self) -> bool {
        &&& (self.prescaler_rate == 1 || self.prescaler_rate == 2 || self.prescaler_rate == 4
            || self.prescaler_rate == 8 || self.prescaler_rate == 16 || self.prescaler_rate == 32
            || self.prescaler_rate == 64 || self.prescaler_rate == 128)
        &&& self.prescaler < 128
        &&& self.counter < NOMINAL_PERIOD
        &&& self.timeout_period == NOMINAL_PERIOD * self.prescaler_rate as u32
    }

    /// Create a WDT in its power-on state; the WDT is enabled by default.
    pub fn new() -> (r: Wdt)
        ensures
            r == spec_wdt_reset(),
            r.wf(),
    {
        Wdt {
            counter: 0,
            enabled: true,
            prescaler: 0,
            prescaler_rate: 1,
            prescaler_assigned: false,
            timeout_period: NOMINAL_PERIOD,
        }
    }

    /// Reset to the power-on state.
    pub fn reset(&mut self)
        ensures
            *final(self) == spec_wdt_reset(),
            final(self).wf(),
    {
        self.counter = 0;
        self.enabled = true;
        self.prescaler = 0;
        self.prescaler_rate = 1;
        self.prescaler_assigned = false;
        self.timeout_period = NOMINAL_PERIOD;
    }

    /// Clear the timeout accumulator and the prescaler accumulator
    /// (the CLRWDT instruction).
    pub fn clear(&mut self)
        ensures
            *final(self) == (Wdt { counter: 0, prescaler: 0, ..*old(self) }),
            old(self).wf() ==> final(self).wf(),
    {
        self.counter = 0;
        self.prescaler = 0;
    }

    /// Configure the prescaler from the OPTION_REG value: PSA (bit 3)
    /// and PS (bits 2-0).
    pub fn configure_prescaler(&mut self, option_reg: u8)
        requires
            old(self).wf(),
        ensures
            *final(self) == spec_wdt_configure(*old(self), option_reg),
            final(self).wf(),
    {
        self.prescaler_assigned = (option_reg & 0x08) != 0;

        if self.prescaler_assigned {
            let ps_bits = option_reg & 0x07;
            self.prescaler_rate = if ps_bits == 0 {
                1
            } else if ps_bits == 1 {
                2
            } else if ps_bits == 2 {
                4
            } else if ps_bits == 3 {
                8
            } else if ps_bits == 4 {
                16
            } else if ps_bits == 5 {
                32
            } else if ps_bits == 6 {
                64
            } else {
                128
            };

            self.timeout_period = NOMINAL_PERIOD * (self.prescaler_rate as u32);
        } else {
            self.prescaler_rate = 1;
            self.timeout_period = NOMINAL_PERIOD;
        }

        self.prescaler = 0;
    }

    /// Enable or disable the WDT.
    pub fn set_enabled(&mut self, enabled: bool)
        ensures
            *final(self) == (Wdt { enabled, ..*old(self) }),
            old(self).wf() ==> final(self).wf(),
    {
        self.enabled = enabled;
    }

    /// Check if the WDT is enabled.
    pub fn is_enabled(&self) -> (r: bool)
        ensures
            r == self.enabled,
    {
        self.enabled
    }

    /// Advance the WDT by one instruction cycle; reports true on timeout.
    pub fn tick(&mut self) -> (timeout: bool)
        requires
            old(self).wf(),
        ensures
            final(self).wf(),
            (*final(self), timeout) == spec_wdt_tick(*old(self)),
    {
        if !self.enabled {
            return false;
        }

        if self.prescaler_assigned && self.prescaler_rate > 1 {
            self.prescaler = self.prescaler + 1;
            if self.prescaler >= self.prescaler_rate {
                self.prescaler = 0;
                self.counter = self.counter + 1;
            }
        } else {
            self.counter = self.counter + 1;
        }

        if self.counter >= NOMINAL_PERIOD {
            self.counter = 0;
            self.prescaler = 0;
            true
        } else {
            false
        }
    }

    /// Get the current timeout accumulator (for debugging).
    pub fn get_counter(&self) -> (r: u32)
        ensures
            r == self.counter,
    {
        self.counter
    }

    /// Get the timeout period in instruction cycles.
    pub fn get_timeout_period(&self) -> (r: u32)
        ensures
            r == self.timeout_period,
    {
        self.timeout_period
    }
}

} // verus!
