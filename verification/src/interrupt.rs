//! PIC12F629/675 interrupt system: a pure check over INTCON, PIE1 and
//! PIR1, the fixed vector 0x0004, and the in-ISR latch that suppresses
//! re-entry until RETFIE.

use vstd::prelude::*;

verus! {

/// Whether any enabled interrupt source is flagged, given the three
/// interrupt registers: GIE gates everything; T0IE/T0IF, INTE/INTF and
/// GPIE/GPIF live in INTCON; with PEIE set, the peripheral pairs
/// TMR1IE/TMR1IF, CMIE/CMIF, ADIE/ADIF and EEIE/EEIF are checked
/// across PIE1 and PIR1.
pub open spec fn spec_should_interrupt(intcon: u8, pie1: u8, pir1: u8) -> bool {
    &&& intcon & 0x80 != 0
    &&& {
        ||| (intcon & 0x20 != 0 && intcon & 0x04 != 0)
        ||| (intcon & 0x10 != 0 && intcon & 0x02 != 0)
        ||| (intcon & 0x08 != 0 && intcon & 0x01 != 0)
        ||| (intcon & 0x40 != 0 && {
            ||| (pie1 & 0x01 != 0 && pir1 & 0x01 != 0)
            ||| (pie1 & 0x08 != 0 && pir1 & 0x08 != 0)
            ||| (pie1 & 0x40 != 0 && pir1 & 0x40 != 0)
            ||| (pie1 & 0x80 != 0 && pir1 & 0x80 != 0)
        })
    }
}

/// Interrupt controller.
#[derive(Debug, Clone, PartialEq, Eq, Structural)]
pub struct InterruptController {
    /// GIE was saved on entering the service routine.
    pub gie_saved: bool,
    /// In-ISR latch: set while servicing, cleared by RETFIE.
    pub interrupt_triggered: bool,
    /// Interrupt vector; always 0x0004 on this device family.
    pub interrupt_vector: u16,
}

impl InterruptController {
    /// The vector is the fixed hardware entry point.
    pub open spec fn wf(self) -> bool {
        self.interrupt_vector == 0x0004
    }

    /// Create an interrupt controller in its power-on state.
    pub fn new() -> (r: InterruptController)
        ensures
            r == spec_intc_reset(),
            r.wf(),
    {
        InterruptController { gie_saved: false, interrupt_triggered: false, interrupt_vector: 0x0004 }
    }

    /// Reset: clear the latches; the vector is fixed in hardware.
    pub fn reset(&mut self)
        ensures
            *final(self) == (InterruptController {
                gie_saved: false,
                interrupt_triggered: false,
                ..*old(self)
            }),
            old(self).wf() ==> final(self).wf(),
    {
        self.gie_saved = false;
        self.interrupt_triggered = false;
    }

    /// Check whether an interrupt should be serviced. Returns the pair
    /// (should_interrupt, vector); the vector is 0 when no interrupt is due.
    pub fn check_interrupts(&self, intcon: u8, pie1: u8, pir1: u8) -> (r: (bool, u16))
        ensures
            r.0 == spec_should_interrupt(intcon, pie1, pir1),
            r.1 == if r.0 {
                self.interrupt_vector
            } else {
                0u16
            },
    {
        let gie = (intcon & 0x80) != 0;
        if !gie {
            return (false, 0);
        }

        let t0ie = (intcon & 0x20) != 0;
        let t0if = (intcon & 0x04) != 0;
        if t0ie && t0if {
            return (true, self.interrupt_vector);
        }

        let inte = (intcon & 0x10) != 0;
        let intf = (intcon & 0x02) != 0;
        if inte && intf {
            return (true, self.interrupt_vector);
        }

        let gpie = (intcon & 0x08) != 0;
        let gpif = (intcon & 0x01) != 0;
        if gpie && gpif {
            return (true, self.interrupt_vector);
        }

        let peie = (intcon & 0x40) != 0;
        if peie {
            let tmr1ie = (pie1 & 0x01) != 0;
            let tmr1if = (pir1 & 0x01) != 0;
            if tmr1ie && tmr1if {
                return (true, self.interrupt_vector);
            }

            let cmie = (pie1 & 0x08) != 0;
            let cmif = (pir1 & 0x08) != 0;
            if cmie && cmif {
                return (true, self.interrupt_vector);
            }

            let adie = (pie1 & 0x40) != 0;
            let adif = (pir1 & 0x40) != 0;
            if adie && adif {
                return (true, self.interrupt_vector);
            }

            let eeie = (pie1 & 0x80) != 0;
            let eeif = (pir1 & 0x80) != 0;
            if eeie && eeif {
                return (true, self.interrupt_vector);
            }
        }

        (false, 0)
    }

    /// Enter the interrupt service routine: set the in-ISR latch.
    pub fn enter_isr(&mut self)
        ensures
            *final(self) == (InterruptController {
                gie_saved: true,
                interrupt_triggered: true,
                ..*old(self)
            }),
            old(self).wf() ==> final(self).wf(),
    {
        self.gie_saved = true;
        self.interrupt_triggered = true;
    }

    /// Exit the interrupt service routine (RETFIE): clear the latch.
    pub fn exit_isr(&mut self)
        ensures
            *final(self) == (InterruptController { interrupt_triggered: false, ..*old(self) }),
            old(self).wf() ==> final(self).wf(),
    {
        self.interrupt_triggered = false;
    }

    /// Whether the CPU is currently inside an interrupt service routine.
    pub fn in_isr(&self) -> (r: bool)
        ensures
            r == self.interrupt_triggered,
    {
        self.interrupt_triggered
    }

    /// Get the interrupt vector address.
    pub fn get_vector(&self) -> (r: u16)
        ensures
            r == self.interrupt_vector,
    {
        self.interrupt_vector
    }
}

/// The power-on state of the interrupt controller.
pub open spec fn spec_intc_reset() -> InterruptController {
    InterruptController { gie_saved: false, interrupt_triggered: false, interrupt_vector: 0x0004 }
}

/// Interrupt source enumeration (for debugging and logging).
#[derive(Debug, Clone, Copy, PartialEq, Eq, Structural)]
pub enum InterruptSource {
    Timer0Overflow,
    ExternalInt,
    GpioChange,
    Timer1Overflow,
    Comparator,
    AdConverter,
    EepromWrite,
}

impl InterruptSource {
    /// A human-readable name for the source.
    pub fn name(&self) -> (r: &'static str)
        ensures
            *self == InterruptSource::Timer0Overflow ==> r@ == "TMR0 Overflow"@,
            *self == InterruptSource::ExternalInt ==> r@ == "External INT"@,
            *self == InterruptSource::GpioChange ==> r@ == "GPIO Change"@,
            *self == InterruptSource::Timer1Overflow ==> r@ == "Timer1 Overflow"@,
            *self == InterruptSource::Comparator ==> r@ == "Comparator"@,
            *self == InterruptSource::AdConverter ==> r@ == "A/D Converter"@,
            *self == InterruptSource::EepromWrite ==> r@ == "EEPROM Write"@,
    {
        match self {
            InterruptSource::Timer0Overflow => "TMR0 Overflow",
            InterruptSource::ExternalInt => "External INT",
            InterruptSource::GpioChange => "GPIO Change",
            InterruptSource::Timer1Overflow => "Timer1 Overflow",
            InterruptSource::Comparator => "Comparator",
            InterruptSource::AdConverter => "A/D Converter",
            InterruptSource::EepromWrite => "EEPROM Write",
        }
    }
}

} // verus!
