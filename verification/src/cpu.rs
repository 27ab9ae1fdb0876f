//! PIC12F629/675 CPU core: the W register, the 13-bit program counter,
//! the banked register file with its read/write dispatcher, the status
//! flags, the hardware stack, and ownership of the peripherals.
//!
//! `spec_read_register` and `spec_write_register` are the mathematical
//! model of the dispatcher; every register access is proved against them.

pub mod registers;
pub mod status_bits;

use vstd::prelude::*;
use crate::memory::{Memory, MemView, spec_banked_index, spec_push_stack, spec_pop_stack,
    PROGRAM_MEMORY_SIZE, DATA_MEMORY_SIZE, STACK_DEPTH, EEPROM_SIZE};
use crate::gpio::{Gpio, spec_gpio_reset, spec_read_gpio};
use crate::timer::{TimerController, Timer0, spec_t0_configure, spec_t1_configure, spec_t0_reset,
    spec_t1_reset};
use crate::interrupt::{InterruptController, spec_should_interrupt, spec_intc_reset};
use crate::wdt::{Wdt, spec_wdt_configure, spec_wdt_reset};
use crate::bits::{lemma_mask_13bit, lemma_mask_8bit, lemma_mask_7bit};

verus! {

/// Mathematical model of the whole CPU: the memory model plus the
/// plain-data registers and peripherals.
#[verifier::ext_equal]
pub ghost struct CpuView {
    pub mem: MemView,
    pub w: u8,
    pub pc: u16,
    pub cycles: u64,
    pub gpio: Gpio,
    pub timers: TimerController,
    pub interrupts: InterruptController,
    pub wdt: Wdt,
    pub sleeping: bool,
}

impl CpuView {
    /// The memory model, the program counter and every peripheral are
    /// well formed.
    pub open spec fn wf(self) -> bool {
        &&& self.mem.wf()
        &&& self.pc < 0x2000
        &&& self.gpio.wf()
        &&& self.timers.wf()
        &&& self.interrupts.wf()
        &&& self.wdt.wf()
    }
}

/// PIC12F629/675 CPU.
pub struct Cpu {
    /// Memory system.
    pub memory: Memory,
    /// Working register (W), the accumulator.
    pub w: u8,
    /// Program counter, 13 bits, masked on every write.
    pub pc: u16,
    /// Cycle counter, monotonically increasing (saturating at the top).
    pub cycles: u64,
    /// GPIO controller.
    pub gpio: Gpio,
    /// Timer0 and Timer1.
    pub timers: TimerController,
    /// Interrupt controller.
    pub interrupts: InterruptController,
    /// Watchdog timer.
    pub wdt: Wdt,
    /// Sleep flag, set by the SLEEP instruction.
    pub sleeping: bool,
}

impl View for Cpu {
    type V = CpuView;

    open spec fn view(&self) -> CpuView {
        CpuView {
            mem: self.memory@,
            w: self.w,
            pc: self.pc,
            cycles: self.cycles,
            gpio: self.gpio,
            timers: self.timers,
            interrupts: self.interrupts,
            wdt: self.wdt,
            sleeping: self.sleeping,
        }
    }
}

/// The bank selected by the RP0 bit of STATUS: 1 when set, else 0.
pub open spec fn bank_of(c: CpuView) -> u8 {
    if c.mem.data[registers::STATUS as int] & 0x20 != 0 {
        1u8
    } else {
        0u8
    }
}

/// The STATUS register byte.
pub open spec fn spec_status(c: CpuView) -> u8 {
    c.mem.data[registers::STATUS as int]
}

/// What a read of a register through the dispatcher yields: INDF reads
/// through FSR, TMR0 in Bank 0 reads the timer counter, PCL reads the
/// low byte of PC, GPIO reads the resolved pin states, TRISIO, WPU and
/// the Timer1 bytes read the owning component, and everything else is a
/// banked data-memory read.
pub open spec fn spec_read_register(c: CpuView, address: u8) -> u8 {
    let bank = bank_of(c);
    if address == registers::INDF {
        c.mem.data[(c.mem.data[registers::FSR as int] as usize & 0x7F) as int]
    } else if address == registers::TMR0 && bank == 0 {
        c.timers.timer0.counter
    } else if address == registers::PCL {
        (c.pc & 0xFF) as u8
    } else if address == registers::GPIO {
        spec_read_gpio(c.gpio)
    } else if address == registers::TRISIO {
        c.gpio.tris
    } else if address == registers::WPU {
        c.gpio.weak_pullup
    } else if address == registers::TMR1L {
        (c.timers.timer1.counter & 0xFF) as u8
    } else if address == registers::TMR1H {
        ((c.timers.timer1.counter >> 8) & 0xFF) as u8
    } else {
        c.mem.data[spec_banked_index(address, bank)]
    }
}

/// The CPU after a write of OPTION_REG: Timer0 and the WDT take their
/// shared prescaler configuration from it, and the backing byte is kept
/// coherent.
pub open spec fn spec_write_option(c: CpuView, address: u8, value: u8, bank: u8) -> CpuView {
    CpuView {
        timers: TimerController {
            timer0: spec_t0_configure(c.timers.timer0, value),
            ..c.timers
        },
        wdt: spec_wdt_configure(c.wdt, value),
        mem: MemView {
            data: c.mem.data.update(spec_banked_index(address, bank), value),
            ..c.mem
        },
        ..c
    }
}

/// What a write of a register through the dispatcher does: INDF writes
/// through FSR; PCL loads PC from PCLATH and the value (masked to 13
/// bits); TMR0 writes the counter in Bank 0 and OPTION_REG in Bank 1;
/// GPIO writes the port latch in Bank 0 and TRISIO in Bank 1; TRISIO
/// forces bit 3; WPU is masked to 0x37; the Timer1 bytes and T1CON and
/// OPTION_REG reconfigure the owning components. The backing byte in
/// data memory is kept coherent where the device register has one.
pub open spec fn spec_write_register(c: CpuView, address: u8, value: u8) -> CpuView {
    let bank = bank_of(c);
    if address == registers::INDF {
        let fsr = c.mem.data[registers::FSR as int];
        CpuView {
            mem: MemView {
                data: c.mem.data.update((fsr as usize & 0x7F) as int, value),
                ..c.mem
            },
            ..c
        }
    } else if address == registers::PCL {
        let pclath = c.mem.data[registers::PCLATH as int];
        CpuView { pc: (((pclath as u16) << 8) | (value as u16)) & 0x1FFF, ..c }
    } else if address == registers::TMR0 {
        if bank == 0 {
            CpuView {
                timers: TimerController {
                    timer0: Timer0 { counter: value, prescaler: 0, ..c.timers.timer0 },
                    ..c.timers
                },
                mem: MemView {
                    data: c.mem.data.update(spec_banked_index(address, bank), value),
                    ..c.mem
                },
                ..c
            }
        } else {
            spec_write_option(c, address, value, bank)
        }
    } else if address == registers::GPIO {
        if bank == 0 {
            CpuView {
                gpio: Gpio { port_value: value & 0x3F, ..c.gpio },
                mem: MemView {
                    data: c.mem.data.update((address as usize & 0x7F) as int, value),
                    ..c.mem
                },
                ..c
            }
        } else {
            CpuView {
                gpio: Gpio { tris: (value & 0x3F) | 0x08, ..c.gpio },
                mem: MemView {
                    data: c.mem.data.update(spec_banked_index(address, bank), value),
                    ..c.mem
                },
                ..c
            }
        }
    } else if address == registers::TRISIO {
        CpuView {
            gpio: Gpio { tris: (value & 0x3F) | 0x08, ..c.gpio },
            mem: MemView {
                data: c.mem.data.update(spec_banked_index(address, bank), value),
                ..c.mem
            },
            ..c
        }
    } else if address == registers::WPU {
        CpuView {
            gpio: Gpio { weak_pullup: value & 0x37, ..c.gpio },
            mem: MemView {
                data: c.mem.data.update(spec_banked_index(address, bank), value),
                ..c.mem
            },
            ..c
        }
    } else if address == registers::TMR1L {
        CpuView {
            timers: TimerController {
                timer1: crate::timer::Timer1 {
                    counter: (c.timers.timer1.counter & 0xFF00) | (value as u16),
                    ..c.timers.timer1
                },
                ..c.timers
            },
            ..c
        }
    } else if address == registers::TMR1H {
        CpuView {
            timers: TimerController {
                timer1: crate::timer::Timer1 {
                    counter: (c.timers.timer1.counter & 0x00FF) | ((value as u16) << 8),
                    ..c.timers.timer1
                },
                ..c.timers
            },
            ..c
        }
    } else if address == registers::T1CON {
        CpuView {
            timers: TimerController {
                timer1: spec_t1_configure(c.timers.timer1, value),
                ..c.timers
            },
            mem: MemView {
                data: c.mem.data.update((address as usize & 0x7F) as int, value),
                ..c.mem
            },
            ..c
        }
    } else if address == registers::OPTION_REG {
        spec_write_option(c, address, value, bank)
    } else {
        CpuView {
            mem: MemView {
                data: c.mem.data.update(spec_banked_index(address, bank), value),
                ..c.mem
            },
            ..c
        }
    }
}

/// The CPU after setting a STATUS bit through the dispatcher.
pub open spec fn spec_set_status_bit(c: CpuView, bit: u8) -> CpuView {
    spec_write_register(
        c,
        registers::STATUS,
        spec_read_register(c, registers::STATUS) | (1u8 << bit),
    )
}

/// The CPU after clearing a STATUS bit through the dispatcher.
pub open spec fn spec_clear_status_bit(c: CpuView, bit: u8) -> CpuView {
    spec_write_register(
        c,
        registers::STATUS,
        spec_read_register(c, registers::STATUS) & !(1u8 << bit),
    )
}

/// The CPU after updating the Z flag from a result byte.
pub open spec fn spec_update_zero(c: CpuView, result: u8) -> CpuView {
    if result == 0 {
        spec_set_status_bit(c, status_bits::Z)
    } else {
        spec_clear_status_bit(c, status_bits::Z)
    }
}

/// The CPU after updating the C flag.
pub open spec fn spec_update_carry(c: CpuView, carry: bool) -> CpuView {
    if carry {
        spec_set_status_bit(c, status_bits::C)
    } else {
        spec_clear_status_bit(c, status_bits::C)
    }
}

/// The CPU after updating the DC flag.
pub open spec fn spec_update_digit_carry(c: CpuView, dc: bool) -> CpuView {
    if dc {
        spec_set_status_bit(c, status_bits::DC)
    } else {
        spec_clear_status_bit(c, status_bits::DC)
    }
}

/// The CPU after the normal post-fetch program counter increment,
/// masked to 13 bits.
pub open spec fn spec_inc_pc(c: CpuView) -> CpuView {
    CpuView {
        pc: if c.pc == 0xFFFF {
            0u16
        } else {
            ((c.pc + 1) as u16) & 0x1FFF
        },
        ..c
    }
}

/// The freshly constructed CPU: everything zeroed, peripherals in their
/// power-on state.
pub open spec fn spec_cpu_new() -> CpuView {
    CpuView {
        mem: MemView {
            program: Seq::new(PROGRAM_MEMORY_SIZE as nat, |i: int| 0u16),
            data: Seq::new(DATA_MEMORY_SIZE as nat, |i: int| 0u8),
            stack: Seq::new(STACK_DEPTH as nat, |i: int| 0u16),
            sp: 0,
            eeprom: Seq::new(EEPROM_SIZE as nat, |i: int| 0u8),
        },
        w: 0,
        pc: 0,
        cycles: 0,
        gpio: spec_gpio_reset(),
        timers: TimerController { timer0: spec_t0_reset(), timer1: spec_t1_reset() },
        interrupts: spec_intc_reset(),
        wdt: spec_wdt_reset(),
        sleeping: false,
    }
}

/// The CPU after a device reset: data memory and the stack are cleared,
/// the peripherals return to power-on state, program memory and EEPROM
/// survive, and the reset values of STATUS, PCLATH, INTCON, TRISIO,
/// PIE1 and PIR1 are written through the dispatcher.
pub open spec fn spec_cpu_reset(c: CpuView) -> CpuView {
    let c0 = CpuView {
        mem: MemView {
            data: Seq::new(DATA_MEMORY_SIZE as nat, |i: int| 0u8),
            sp: 0,
            ..c.mem
        },
        w: 0,
        pc: 0,
        cycles: 0,
        gpio: spec_gpio_reset(),
        timers: TimerController { timer0: spec_t0_reset(), timer1: spec_t1_reset() },
        interrupts: InterruptController {
            gie_saved: false,
            interrupt_triggered: false,
            ..c.interrupts
        },
        wdt: spec_wdt_reset(),
        sleeping: false,
    };
    let c1 = spec_write_register(c0, registers::STATUS, 0x18);
    let c2 = spec_write_register(c1, registers::PCLATH, 0x00);
    let c3 = spec_write_register(c2, registers::INTCON, 0x00);
    let c4 = spec_write_register(c3, registers::TRISIO, 0x3F);
    let c5 = spec_write_register(c4, registers::PIE1, 0x00);
    spec_write_register(c5, registers::PIR1, 0x00)
}

/// The CPU after servicing an interrupt: the return address is pushed,
/// GIE is cleared, PC jumps to the vector, and the in-ISR latch is set.
/// No interrupt flag is cleared; that is the service routine's job.
pub open spec fn spec_service_interrupt(c: CpuView) -> CpuView {
    let c1 = CpuView { mem: spec_push_stack(c.mem, c.pc), ..c };
    let c2 = spec_write_register(
        c1,
        registers::INTCON,
        spec_read_register(c1, registers::INTCON) & !0x80u8,
    );
    let c3 = CpuView { pc: c.interrupts.interrupt_vector & 0x1FFF, ..c2 };
    CpuView {
        interrupts: InterruptController {
            gie_saved: true,
            interrupt_triggered: true,
            ..c3.interrupts
        },
        ..c3
    }
}

/// The CPU after the SLEEP instruction takes effect: the sleeping flag
/// is set and STATUS.TO and STATUS.PD are cleared.
pub open spec fn spec_enter_sleep(c: CpuView) -> CpuView {
    let c1 = CpuView { sleeping: true, ..c };
    spec_write_register(
        c1,
        registers::STATUS,
        spec_read_register(c1, registers::STATUS) & !0x18u8,
    )
}

/// The CPU after waking from sleep: an interrupt wake sets TO and
/// clears PD; a watchdog wake sets PD and clears TO.
pub open spec fn spec_wake_up(c: CpuView, by_interrupt: bool) -> CpuView {
    let c1 = CpuView { sleeping: false, ..c };
    let status = spec_read_register(c1, registers::STATUS);
    if by_interrupt {
        spec_write_register(c1, registers::STATUS, (status | 0x10) & !0x08u8)
    } else {
        spec_write_register(c1, registers::STATUS, (status | 0x08) & !0x10u8)
    }
}

/// Saturating 64-bit addition for the cycle counters.
pub open spec fn spec_sat_add64(a: u64, b: u64) -> u64 {
    if a + b <= u64::MAX {
        (a + b) as u64
    } else {
        u64::MAX
    }
}

impl Cpu {
    /// The view is well formed.
    pub open spec fn wf(self) -> bool {
        self@.wf()
    }

    /// Create a new CPU instance with everything in its power-on state.
    pub fn new() -> (r: Cpu)
        ensures
            r@ == spec_cpu_new(),
            r.wf(),
    {
        let cpu = Cpu {
            memory: Memory::new(),
            w: 0,
            pc: 0,
            cycles: 0,
            gpio: Gpio::new(),
            timers: TimerController::new(),
            interrupts: InterruptController::new(),
            wdt: Wdt::new(),
            sleeping: false,
        };
        proof {
            assert(cpu@ =~= spec_cpu_new());
        }
        cpu
    }

    /// Reset the CPU to its power-on state; program memory and EEPROM
    /// survive.
    pub fn reset(&mut self)
        requires
            old(self).wf(),
        ensures
            final(self)@ == spec_cpu_reset(old(self)@),
            final(self).wf(),
    {
        self.pc = 0;
        self.w = 0;
        self.cycles = 0;
        self.memory.reset();
        self.gpio.reset();
        self.timers.reset();
        self.interrupts.reset();
        self.wdt.reset();
        self.sleeping = false;

        self.write_register(registers::STATUS, 0x18);
        self.write_register(registers::PCLATH, 0x00);
        self.write_register(registers::INTCON, 0x00);
        self.write_register(registers::TRISIO, 0x3F);
        self.write_register(registers::PIE1, 0x00);
        self.write_register(registers::PIR1, 0x00);
        proof {
            assert(self@ =~= spec_cpu_reset(old(self)@));
        }
    }

    /// Get a reference to the GPIO controller.
    pub fn gpio(&self) -> (r: &Gpio)
        ensures
            *r == self.gpio,
    {
        &self.gpio
    }

    /// Get a mutable reference to the GPIO controller.
    pub fn gpio_mut(&mut self) -> (r: &mut Gpio)
        ensures
            *r == old(self).gpio,
            final(self)@ == (CpuView { gpio: *final(r), ..old(self)@ }),
    {
        &mut self.gpio
    }

    /// Get a reference to the timer controller.
    pub fn timers(&self) -> (r: &TimerController)
        ensures
            *r == self.timers,
    {
        &self.timers
    }

    /// Get a mutable reference to the timer controller.
    pub fn timers_mut(&mut self) -> (r: &mut TimerController)
        ensures
            *r == old(self).timers,
            final(self)@ == (CpuView { timers: *final(r), ..old(self)@ }),
    {
        &mut self.timers
    }

    /// Get a reference to the interrupt controller.
    pub fn interrupts(&self) -> (r: &InterruptController)
        ensures
            *r == self.interrupts,
    {
        &self.interrupts
    }

    /// Get a mutable reference to the interrupt controller.
    pub fn interrupts_mut(&mut self) -> (r: &mut InterruptController)
        ensures
            *r == old(self).interrupts,
            final(self)@ == (CpuView { interrupts: *final(r), ..old(self)@ }),
    {
        &mut self.interrupts
    }

    /// Get a reference to the watchdog timer.
    pub fn wdt(&self) -> (r: &Wdt)
        ensures
            *r == self.wdt,
    {
        &self.wdt
    }

    /// Get a mutable reference to the watchdog timer.
    pub fn wdt_mut(&mut self) -> (r: &mut Wdt)
        ensures
            *r == old(self).wdt,
            final(self)@ == (CpuView { wdt: *final(r), ..old(self)@ }),
    {
        &mut self.wdt
    }

    /// Check for a pending enabled interrupt and service it: push the
    /// return address, clear GIE, jump to the vector and set the in-ISR
    /// latch. Returns true if an interrupt was serviced; the in-ISR
    /// latch suppresses re-entry.
    pub fn check_and_handle_interrupts(&mut self) -> (serviced: bool)
        requires
            old(self).wf(),
        ensures
            final(self).wf(),
            serviced == (spec_should_interrupt(
                spec_read_register(old(self)@, registers::INTCON),
                spec_read_register(old(self)@, registers::PIE1),
                spec_read_register(old(self)@, registers::PIR1),
            ) && !old(self).interrupts.interrupt_triggered),
            serviced ==> final(self)@ == spec_service_interrupt(old(self)@),
            !serviced ==> final(self)@ == old(self)@,
            serviced ==> spec_status(final(self)@) == spec_status(old(self)@),
    {
        let intcon = self.read_register(registers::INTCON);
        let pie1 = self.read_register(registers::PIE1);
        let pir1 = self.read_register(registers::PIR1);

        let (should_interrupt, vector) = self.interrupts.check_interrupts(intcon, pie1, pir1);

        if should_interrupt && !self.interrupts.in_isr() {
            self.push_pc();

            let intcon = self.read_register(registers::INTCON);
            self.write_register(registers::INTCON, intcon & !0x80);

            self.set_pc(vector);

            self.interrupts.enter_isr();

            proof {
                assert(self@ =~= spec_service_interrupt(old(self)@));
            }
            return true;
        }

        false
    }

    /// Enter sleep mode: set the sleeping flag and clear STATUS.TO and
    /// STATUS.PD.
    pub fn enter_sleep(&mut self)
        requires
            old(self).wf(),
        ensures
            final(self).wf(),
            final(self)@ == spec_enter_sleep(old(self)@),
            final(self).sleeping,
    {
        self.sleeping = true;

        let status = self.read_register(registers::STATUS);
        self.write_register(registers::STATUS, status & !0x18);
    }

    /// Wake up from sleep. An interrupt wake leaves TO = 1, PD = 0; a
    /// watchdog wake leaves TO = 0, PD = 1.
    pub fn wake_up(&mut self, by_interrupt: bool)
        requires
            old(self).wf(),
        ensures
            final(self).wf(),
            final(self)@ == spec_wake_up(old(self)@, by_interrupt),
            !final(self).sleeping,
    {
        self.sleeping = false;

        let status = self.read_register(registers::STATUS);

        if by_interrupt {
            self.write_register(registers::STATUS, (status | 0x10) & !0x08);
        } else {
            self.write_register(registers::STATUS, (status | 0x08) & !0x10);
        }
    }

    /// Whether the CPU is sleeping.
    pub fn is_sleeping(&self) -> (r: bool)
        ensures
            r == self.sleeping,
    {
        self.sleeping
    }

    /// Read a register through the dispatcher, with banking.
    pub fn read_register(&self, address: u8) -> (r: u8)
        requires
            self.wf(),
        ensures
            r == spec_read_register(self@, address),
    {
        if address == registers::INDF {
            proof { lemma_mask_7bit(registers::FSR as usize); }
            let fsr = self.memory.read_data(registers::FSR);
            self.memory.read_data(fsr)
        } else if address == registers::TMR0 && self.get_bank() == 0 {
            self.timers.timer0.read_counter()
        } else if address == registers::PCL {
            proof { lemma_mask_8bit(self.pc); }
            (self.pc & 0xFF) as u8
        } else if address == registers::GPIO {
            self.gpio.read_gpio()
        } else if address == registers::TRISIO {
            self.gpio.read_tris()
        } else if address == registers::WPU {
            self.gpio.read_wpu()
        } else if address == registers::TMR1L {
            self.timers.timer1.read_low()
        } else if address == registers::TMR1H {
            self.timers.timer1.read_high()
        } else {
            let bank = self.get_bank();
            self.memory.read_data_banked(address, bank)
        }
    }

    /// Write a register through the dispatcher, with banking; the
    /// owning component and the backing byte are both updated.
    #[verifier::rlimit(60)]
    pub fn write_register(&mut self, address: u8, value: u8)
        requires
            old(self).wf(),
        ensures
            final(self).wf(),
            final(self)@ == spec_write_register(old(self)@, address, value),
    {
        let bank = self.get_bank();

        if address == registers::INDF {
            proof { lemma_mask_7bit(registers::FSR as usize); }
            let fsr = self.memory.read_data(registers::FSR);
            self.memory.write_data(fsr, value);
        } else if address == registers::PCL {
            proof { lemma_mask_7bit(registers::PCLATH as usize); }
            let pclath = self.memory.read_data(registers::PCLATH);
            proof { lemma_mask_13bit(((pclath as u16) << 8) | (value as u16)); }
            self.pc = (((pclath as u16) << 8) | (value as u16)) & 0x1FFF;
        } else if address == registers::TMR0 {
            if bank == 0 {
                self.timers.timer0.write_counter(value);
                self.memory.write_data_banked(address, value, bank);
            } else {
                self.timers.timer0.configure_from_option(value);
                self.wdt.configure_prescaler(value);
                self.memory.write_data_banked(address, value, bank);
            }
        } else if address == registers::GPIO {
            if bank == 0 {
                self.gpio.write_gpio(value);
                self.memory.write_data(address, value);
            } else {
                self.gpio.write_tris(value);
                self.memory.write_data_banked(address, value, bank);
            }
        } else if address == registers::TRISIO {
            self.gpio.write_tris(value);
            self.memory.write_data_banked(address, value, bank);
        } else if address == registers::WPU {
            self.gpio.write_wpu(value);
            self.memory.write_data_banked(address, value, bank);
        } else if address == registers::TMR1L {
            self.timers.timer1.write_low(value);
        } else if address == registers::TMR1H {
            self.timers.timer1.write_high(value);
        } else if address == registers::T1CON {
            self.timers.timer1.configure_from_t1con(value);
            self.memory.write_data(address, value);
        } else if address == registers::OPTION_REG {
            self.timers.timer0.configure_from_option(value);
            self.wdt.configure_prescaler(value);
            self.memory.write_data_banked(address, value, bank);
        } else {
            self.memory.write_data_banked(address, value, bank);
        }
        proof {
            assert(self@ =~= spec_write_register(old(self)@, address, value));
        }
    }

    /// The bank currently selected by the RP0 bit of STATUS.
    pub fn get_bank(&self) -> (r: u8)
        ensures
            r == bank_of(self@),
    {
        proof { lemma_mask_7bit(registers::STATUS as usize); }
        let status = self.memory.read_data(registers::STATUS);
        if status & 0x20 != 0 {
            1
        } else {
            0
        }
    }

    /// Set a bit in the STATUS register.
    pub fn set_status_bit(&mut self, bit: u8)
        requires
            old(self).wf(),
            bit < 8,
        ensures
            final(self).wf(),
            final(self)@ == spec_set_status_bit(old(self)@, bit),
    {
        let status = self.read_register(registers::STATUS);
        self.write_register(registers::STATUS, status | (1u8 << bit));
    }

    /// Clear a bit in the STATUS register.
    pub fn clear_status_bit(&mut self, bit: u8)
        requires
            old(self).wf(),
            bit < 8,
        ensures
            final(self).wf(),
            final(self)@ == spec_clear_status_bit(old(self)@, bit),
    {
        let status = self.read_register(registers::STATUS);
        self.write_register(registers::STATUS, status & !(1u8 << bit));
    }

    /// Test a bit in the STATUS register.
    pub fn test_status_bit(&self, bit: u8) -> (r: bool)
        requires
            bit < 8,
        ensures
            r == (spec_status(self@) & (1u8 << bit) != 0),
    {
        proof { lemma_mask_7bit(registers::STATUS as usize); }
        let status = self.memory.read_data(registers::STATUS);
        (status & (1u8 << bit)) != 0
    }

    /// Update the Z flag from a result byte.
    pub fn update_zero_flag(&mut self, result: u8)
        requires
            old(self).wf(),
        ensures
            final(self).wf(),
            final(self)@ == spec_update_zero(old(self)@, result),
    {
        if result == 0 {
            self.set_status_bit(status_bits::Z);
        } else {
            self.clear_status_bit(status_bits::Z);
        }
    }

    /// Update the C flag.
    pub fn update_carry_flag(&mut self, carry: bool)
        requires
            old(self).wf(),
        ensures
            final(self).wf(),
            final(self)@ == spec_update_carry(old(self)@, carry),
    {
        if carry {
            self.set_status_bit(status_bits::C);
        } else {
            self.clear_status_bit(status_bits::C);
        }
    }

    /// Update the DC flag (for low-nibble carries and borrows).
    pub fn update_digit_carry_flag(&mut self, dc: bool)
        requires
            old(self).wf(),
        ensures
            final(self).wf(),
            final(self)@ == spec_update_digit_carry(old(self)@, dc),
    {
        if dc {
            self.set_status_bit(status_bits::DC);
        } else {
            self.clear_status_bit(status_bits::DC);
        }
    }

    /// Update Z, C and DC together, in that order.
    pub fn update_arithmetic_flags(&mut self, result: u8, carry: bool, digit_carry: bool)
        requires
            old(self).wf(),
        ensures
            final(self).wf(),
            final(self)@ == spec_update_digit_carry(
                spec_update_carry(spec_update_zero(old(self)@, result), carry),
                digit_carry,
            ),
    {
        self.update_zero_flag(result);
        self.update_carry_flag(carry);
        self.update_digit_carry_flag(digit_carry);
    }

    /// Read the W register.
    pub fn read_w(&self) -> (r: u8)
        ensures
            r == self.w,
    {
        self.w
    }

    /// Write the W register.
    pub fn write_w(&mut self, value: u8)
        ensures
            final(self)@ == (CpuView { w: value, ..old(self)@ }),
            old(self).wf() ==> final(self).wf(),
    {
        self.w = value;
    }

    /// Get the current PC value.
    pub fn get_pc(&self) -> (r: u16)
        ensures
            r == self.pc,
    {
        self.pc
    }

    /// Set the PC, masked to 13 bits.
    pub fn set_pc(&mut self, address: u16)
        ensures
            final(self)@ == (CpuView { pc: address & 0x1FFF, ..old(self)@ }),
            old(self).wf() ==> final(self).wf(),
    {
        proof { lemma_mask_13bit(address); }
        self.pc = address & 0x1FFF;
    }

    /// Increment the PC for normal instruction flow, masked to 13 bits.
    pub fn increment_pc(&mut self)
        requires
            old(self).wf(),
        ensures
            final(self).wf(),
            final(self)@ == spec_inc_pc(old(self)@),
    {
        proof { lemma_mask_13bit((self.pc + 1) as u16); }
        self.pc = (self.pc + 1) & 0x1FFF;
    }

    /// Push the current PC onto the hardware stack (CALL, interrupts).
    pub fn push_pc(&mut self)
        requires
            old(self).wf(),
        ensures
            final(self).wf(),
            final(self)@ == (CpuView {
                mem: spec_push_stack(old(self)@.mem, old(self).pc),
                ..old(self)@
            }),
    {
        self.memory.push_stack(self.pc);
        proof {
            assert(self@ =~= (CpuView {
                mem: spec_push_stack(old(self)@.mem, old(self).pc),
                ..old(self)@
            }));
        }
    }

    /// Pop an address from the hardware stack (RETURN, RETLW, RETFIE).
    pub fn pop_pc(&mut self) -> (r: u16)
        requires
            old(self).wf(),
        ensures
            final(self).wf(),
            final(self)@ == (CpuView { mem: spec_pop_stack(old(self)@.mem).0, ..old(self)@ }),
            r == spec_pop_stack(old(self)@.mem).1,
    {
        let r = self.memory.pop_stack();
        proof {
            assert(self@ =~= (CpuView { mem: spec_pop_stack(old(self)@.mem).0, ..old(self)@ }));
        }
        r
    }

    /// Get a reference to the memory system.
    pub fn memory(&self) -> (r: &Memory)
        ensures
            *r == self.memory,
    {
        &self.memory
    }

    /// Get a mutable reference to the memory system.
    pub fn memory_mut(&mut self) -> (r: &mut Memory)
        ensures
            *r == old(self).memory,
            final(self)@ == (CpuView { mem: final(r)@, ..old(self)@ }),
            final(self).memory == *final(r),
    {
        &mut self.memory
    }

    /// Get the cycle counter.
    pub fn get_cycles(&self) -> (r: u64)
        ensures
            r == self.cycles,
    {
        self.cycles
    }

    /// Add to the cycle counter, saturating at the top of the range.
    pub fn add_cycles(&mut self, cycles: u64)
        ensures
            final(self)@ == (CpuView {
                cycles: spec_sat_add64(old(self).cycles, cycles),
                ..old(self)@
            }),
            old(self).wf() ==> final(self).wf(),
    {
        self.cycles = if self.cycles <= u64::MAX - cycles {
            self.cycles + cycles
        } else {
            u64::MAX
        };
    }

    /// Fetch the instruction word at the current PC.
    pub fn fetch_instruction(&self) -> (r: u16)
        ensures
            r == self@.mem.program[(self.pc as usize & 0x3FF) as int],
    {
        self.memory.read_program(self.pc)
    }
}

} // verus!
