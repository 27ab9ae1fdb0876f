//! PIC12F629/675 simulator outer loop: fetch, decode, execute, tick
//! the peripherals per consumed cycle, latch timer overflow flags,
//! service interrupts with the hardware's one-instruction latency,
//! handle sleep and watchdog resets, and manage breakpoints and
//! execution statistics.

use vstd::prelude::*;
use vstd::string::StringSliceAdditionalSpecFns;
use crate::cpu::{Cpu, CpuView, registers, spec_read_register, spec_write_register,
    spec_service_interrupt, spec_wake_up, spec_cpu_reset, spec_cpu_new, spec_inc_pc,
    spec_sat_add64};
use crate::instruction::{InstructionDecoder, spec_decode};
use crate::executor::{Executor, spec_execute};
use crate::interrupt::spec_should_interrupt;
use crate::timer::{spec_t0_tick, spec_t1_tick};
use crate::wdt::spec_wdt_tick;
use crate::memory::spec_loaded_program;
use crate::hexloader::{HexLoader, HexProgram, HexParseError, HexProgramView, spec_load_hex};

verus! {

/// Execution state of the simulator.
#[derive(Debug, Clone, Copy, PartialEq, Eq, Structural)]
pub enum SimulatorState {
    Running,
    Paused,
    Halted,
    Error,
}

/// Execution statistics.
#[derive(Debug, Clone, Copy, PartialEq, Eq, Structural)]
pub struct SimulatorStats {
    /// Instructions retired since the last reset (saturating).
    pub instructions_executed: u64,
    /// Cycles consumed since the last reset (saturating).
    pub cycles_elapsed: u64,
}

/// An error from a simulation step: the simulator was halted, or the
/// fetched word matches no instruction encoding.
#[derive(Debug, Clone, Copy, PartialEq, Eq, Structural)]
pub enum SimError {
    /// Step was invoked on a halted simulator.
    Halted,
    /// The word at `pc` decodes to no instruction.
    Decode { pc: u16, word: u16 },
}

/// Mathematical model of the simulator.
#[verifier::ext_equal]
pub ghost struct SimView {
    pub cpu: CpuView,
    pub state: SimulatorState,
    pub stats: SimulatorStats,
    pub breakpoints: Seq<u16>,
}

/// The main simulator.
pub struct Simulator {
    /// The CPU with all its peripherals.
    pub cpu: Cpu,
    /// Current execution state.
    pub state: SimulatorState,
    /// Execution statistics.
    pub stats: SimulatorStats,
    /// Breakpoint addresses; `run` pauses when PC reaches one.
    pub breakpoints: Vec<u16>,
}

impl View for Simulator {
    type V = SimView;

    open spec fn view(&self) -> SimView {
        SimView {
            cpu: self.cpu@,
            state: self.state,
            stats: self.stats,
            breakpoints: self.breakpoints@,
        }
    }
}

/// One peripheral iteration of a step: Timer0 and Timer1 tick, then the
/// WDT; a WDT timeout outside sleep resets the whole CPU and ends the
/// step, otherwise a Timer0 overflow ORs T0IF into INTCON and a Timer1
/// overflow ORs TMR1IF into PIR1.
pub open spec fn spec_tick_cycle(c: CpuView) -> (CpuView, bool) {
    let (t0, o0) = spec_t0_tick(c.timers.timer0);
    let (t1, o1) = spec_t1_tick(c.timers.timer1);
    let c1 = CpuView {
        timers: crate::timer::TimerController { timer0: t0, timer1: t1 },
        ..c
    };
    let (w1, timeout) = spec_wdt_tick(c1.wdt);
    let c2 = CpuView { wdt: w1, ..c1 };
    if timeout && !c2.sleeping {
        (spec_cpu_reset(c2), true)
    } else {
        let c3 = if o0 {
            spec_write_register(
                c2,
                registers::INTCON,
                spec_read_register(c2, registers::INTCON) | 0x04,
            )
        } else {
            c2
        };
        let c4 = if o1 {
            spec_write_register(
                c3,
                registers::PIR1,
                spec_read_register(c3, registers::PIR1) | 0x01,
            )
        } else {
            c3
        };
        (c4, false)
    }
}

/// The tail of a committed step: the serviced interrupt adds 2 cycles,
/// and the statistics and the CPU cycle counter advance (saturating).
pub open spec fn spec_step_finish(s: SimView, c: CpuView, serviced: bool, cycles: u8) -> (
    SimView,
    Result<u8, SimError>,
) {
    let total: u8 = if serviced {
        (cycles + 2) as u8
    } else {
        cycles
    };
    let stats = SimulatorStats {
        instructions_executed: spec_sat_add64(s.stats.instructions_executed, 1),
        cycles_elapsed: spec_sat_add64(s.stats.cycles_elapsed, total as u64),
    };
    let cpu = CpuView { cycles: spec_sat_add64(c.cycles, total as u64), ..c };
    (SimView { cpu, stats, ..s }, Ok(total))
}

/// The execution phase of a step, on a CPU that is awake: interrupt
/// check, fetch, decode (a failure commits nothing further), PC
/// increment, execute, then one peripheral iteration per consumed
/// cycle, a watchdog reset cutting the step short.
pub open spec fn spec_step_exec(s: SimView, c: CpuView) -> (SimView, Result<u8, SimError>) {
    let serviced = spec_should_interrupt(
        spec_read_register(c, registers::INTCON),
        spec_read_register(c, registers::PIE1),
        spec_read_register(c, registers::PIR1),
    ) && !c.interrupts.interrupt_triggered;
    let c1 = if serviced {
        spec_service_interrupt(c)
    } else {
        c
    };
    let pc = c1.pc;
    let word = c1.mem.program[(pc as usize & 0x3FF) as int];
    match spec_decode(word) {
        None => (SimView { cpu: c1, ..s }, Err(SimError::Decode { pc, word })),
        Some(instruction) => {
            let c2 = spec_inc_pc(c1);
            let (c3, cycles) = spec_execute(c2, instruction);
            let (c4, reset1) = spec_tick_cycle(c3);
            if reset1 {
                (SimView { cpu: c4, ..s }, Ok(cycles))
            } else if cycles == 2 {
                let (c5, reset2) = spec_tick_cycle(c4);
                if reset2 {
                    (SimView { cpu: c5, ..s }, Ok(cycles))
                } else {
                    spec_step_finish(s, c5, serviced, cycles)
                }
            } else {
                spec_step_finish(s, c4, serviced, cycles)
            }
        },
    }
}

/// One whole simulation step. A halted simulator refuses. A sleeping
/// CPU only ticks the WDT: a timeout wakes it (TO = 0, PD = 1); an
/// already-pending enabled interrupt wakes it (TO = 1, PD = 0) and
/// execution continues; otherwise one cycle passes. An awake CPU runs
/// the execution phase.
#[verifier::opaque]
pub open spec fn spec_step(s: SimView) -> (SimView, Result<u8, SimError>) {
    if s.state == SimulatorState::Halted {
        (s, Err(SimError::Halted))
    } else if s.cpu.sleeping {
        let (w1, timeout) = spec_wdt_tick(s.cpu.wdt);
        let c1 = CpuView { wdt: w1, ..s.cpu };
        if timeout {
            (SimView { cpu: spec_wake_up(c1, false), ..s }, Ok(1))
        } else if spec_should_interrupt(
            spec_read_register(c1, registers::INTCON),
            spec_read_register(c1, registers::PIE1),
            spec_read_register(c1, registers::PIR1),
        ) {
            spec_step_exec(s, spec_wake_up(c1, true))
        } else {
            (
                SimView {
                    cpu: CpuView { cycles: spec_sat_add64(c1.cycles, 1), ..c1 },
                    ..s
                },
                Ok(1),
            )
        }
    } else {
        spec_step_exec(s, s.cpu)
    }
}

/// A fueled unfolding of `run`: pause at a breakpoint; give up (still
/// pausing) when the fuel runs out; stop with the error state on a
/// failing step. The state is `Running` throughout.
pub open spec fn spec_run_bp(s: SimView, fuel: nat) -> (SimView, Result<(), SimError>)
    decreases fuel,
{
    if s.breakpoints.contains(s.cpu.pc) {
        (SimView { state: SimulatorState::Paused, ..s }, Ok(()))
    } else if fuel == 0 {
        (SimView { state: SimulatorState::Paused, ..s }, Ok(()))
    } else {
        let (s1, r) = spec_step(s);
        match r {
            Err(e) => (SimView { state: SimulatorState::Error, ..s1 }, Err(e)),
            Ok(_) => spec_run_bp(s1, (fuel - 1) as nat),
        }
    }
}

/// A fueled unfolding of `run_n_cycles`: step until the cycle counter
/// reaches the target or the fuel runs out, stopping at the first error.
pub open spec fn spec_run_cycles(s: SimView, target: u64, fuel: nat) -> (
    SimView,
    Result<(), SimError>,
)
    decreases fuel,
{
    if s.stats.cycles_elapsed >= target {
        (s, Ok(()))
    } else if fuel == 0 {
        (s, Ok(()))
    } else {
        let (s1, r) = spec_step(s);
        match r {
            Err(e) => (s1, Err(e)),
            Ok(_) => spec_run_cycles(s1, target, (fuel - 1) as nat),
        }
    }
}

/// The simulator after `n` steps, stopping at the first error.
pub open spec fn spec_run_n(s: SimView, n: nat) -> (SimView, Result<(), SimError>)
    decreases n,
{
    if n == 0 {
        (s, Ok(()))
    } else {
        let (s1, r) = spec_step(s);
        match r {
            Err(e) => (s1, Err(e)),
            Ok(_) => spec_run_n(s1, (n - 1) as nat),
        }
    }
}

impl Simulator {
    /// The CPU model is well formed.
    pub open spec fn wf(self) -> bool {
        self.cpu.wf()
    }

    /// Create a new simulator, paused, with no breakpoints.
    pub fn new() -> (r: Simulator)
        ensures
            r.wf(),
            r@.cpu == spec_cpu_new(),
            r@.state == SimulatorState::Paused,
            r@.stats == (SimulatorStats { instructions_executed: 0, cycles_elapsed: 0 }),
            r@.breakpoints == Seq::<u16>::empty(),
    {
        let r = Simulator {
            cpu: Cpu::new(),
            state: SimulatorState::Paused,
            stats: SimulatorStats { instructions_executed: 0, cycles_elapsed: 0 },
            breakpoints: Vec::new(),
        };
        proof {
            assert(r@.breakpoints =~= Seq::<u16>::empty());
        }
        r
    }

    /// Reset the simulator: the CPU resets (program memory and EEPROM
    /// survive), the state returns to paused and the statistics clear.
    /// Breakpoints are kept.
    pub fn reset(&mut self)
        requires
            old(self).wf(),
        ensures
            final(self).wf(),
            final(self)@ == (SimView {
                cpu: spec_cpu_reset(old(self)@.cpu),
                state: SimulatorState::Paused,
                stats: (SimulatorStats { instructions_executed: 0, cycles_elapsed: 0 }),
                ..old(self)@
            }),
    {
        self.cpu.reset();
        self.state = SimulatorState::Paused;
        self.stats = SimulatorStats { instructions_executed: 0, cycles_elapsed: 0 };
    }

    /// Load a program image into program memory: word index = address,
    /// each word masked to 14 bits.
    pub fn load_program(&mut self, program: &[u16])
        requires
            old(self).wf(),
        ensures
            final(self).wf(),
            final(self)@ == (SimView {
                cpu: CpuView {
                    mem: crate::memory::MemView {
                        program: spec_loaded_program(old(self)@.cpu.mem.program, program@),
                        ..old(self)@.cpu.mem
                    },
                    ..old(self)@.cpu
                },
                ..old(self)@
            }),
    {
        self.cpu.memory.load_program(program);
        proof {
            assert(self@ =~= (SimView {
                cpu: CpuView {
                    mem: crate::memory::MemView {
                        program: spec_loaded_program(old(self)@.cpu.mem.program, program@),
                        ..old(self)@.cpu.mem
                    },
                    ..old(self)@.cpu
                },
                ..old(self)@
            }));
        }
    }

    /// One peripheral iteration; reports true when a watchdog timeout
    /// outside sleep has reset the CPU.
    fn tick_once(&mut self) -> (reset: bool)
        requires
            old(self).wf(),
        ensures
            final(self).wf(),
            (final(self)@.cpu, reset) == spec_tick_cycle(old(self)@.cpu),
            final(self).state == old(self).state,
            final(self).stats == old(self).stats,
            final(self).breakpoints@ == old(self).breakpoints@,
    {
        let (tmr0_overflow, tmr1_overflow) = self.cpu.timers.tick();

        let wdt_timeout = self.cpu.wdt.tick();

        if wdt_timeout && !self.cpu.is_sleeping() {
            self.cpu.reset();
            return true;
        }

        if tmr0_overflow {
            let intcon = self.cpu.read_register(registers::INTCON);
            self.cpu.write_register(registers::INTCON, intcon | 0x04);
        }

        if tmr1_overflow {
            let pir1 = self.cpu.read_register(registers::PIR1);
            self.cpu.write_register(registers::PIR1, pir1 | 0x01);
        }

        false
    }

    /// Execute a single instruction; returns the cycles consumed or the
    /// error (halted, or an undecodable word, which commits no state
    /// change beyond a serviced interrupt).
    #[verifier::rlimit(100)]
    pub fn step(&mut self) -> (r: Result<u8, SimError>)
        requires
            old(self).wf(),
        ensures
            final(self).wf(),
            (final(self)@, r) == spec_step(old(self)@),
            final(self).state == old(self).state,
            final(self).breakpoints@ == old(self).breakpoints@,
    {
        proof {
            reveal(spec_step);
        }
        if self.state == SimulatorState::Halted {
            return Err(SimError::Halted);
        }

        if self.cpu.is_sleeping() {
            let wdt_timeout = self.cpu.wdt.tick();

            if wdt_timeout {
                self.cpu.wake_up(false);
                return Ok(1);
            }

            let intcon = self.cpu.read_register(registers::INTCON);
            let pie1 = self.cpu.read_register(registers::PIE1);
            let pir1 = self.cpu.read_register(registers::PIR1);

            let (should_interrupt, _) = self.cpu.interrupts.check_interrupts(intcon, pie1, pir1);

            if should_interrupt {
                self.cpu.wake_up(true);
            } else {
                self.cpu.add_cycles(1);
                return Ok(1);
            }
        }

        let interrupted = self.cpu.check_and_handle_interrupts();

        let pc = self.cpu.get_pc();
        let instruction_word = self.cpu.fetch_instruction();

        let instruction = match InstructionDecoder::decode(instruction_word) {
            Ok(instruction) => instruction,
            Err(_) => {
                return Err(SimError::Decode { pc, word: instruction_word });
            },
        };

        self.cpu.increment_pc();

        let cycles = Executor::execute(&mut self.cpu, instruction);

        let reset1 = self.tick_once();
        if reset1 {
            return Ok(cycles);
        }
        if cycles == 2 {
            let reset2 = self.tick_once();
            if reset2 {
                return Ok(cycles);
            }
        }

        let total_cycles: u8 = if interrupted {
            cycles + 2
        } else {
            cycles
        };

        self.stats.instructions_executed = sat_add_u64(self.stats.instructions_executed, 1);
        self.stats.cycles_elapsed = sat_add_u64(self.stats.cycles_elapsed, total_cycles as u64);
        self.cpu.add_cycles(total_cycles as u64);

        Ok(total_cycles)
    }

    /// Run until a breakpoint pauses the simulator or a step fails.
    /// On success the simulator is paused at a breakpoint; on error the
    /// state is `Error` and the step's error is returned.
    #[verifier::rlimit(100)]
    pub fn run(&mut self) -> (r: Result<(), SimError>)
        requires
            old(self).wf(),
        ensures
            final(self).wf(),
            final(self).breakpoints@ == old(self).breakpoints@,
            (final(self)@, r) == spec_run_bp(
                (SimView { state: SimulatorState::Running, ..old(self)@ }),
                u64::MAX as nat,
            ),
            r matches Ok(_) ==> final(self).state == SimulatorState::Paused,
            r matches Err(e) ==> final(self).state == SimulatorState::Error,
    {
        self.state = SimulatorState::Running;
        let ghost start = self@;

        let mut fuel: u64 = u64::MAX;
        loop
            invariant
                self.wf(),
                self.state == SimulatorState::Running,
                self.breakpoints@ == old(self).breakpoints@,
                start == (SimView { state: SimulatorState::Running, ..old(self)@ }),
                spec_run_bp(start, u64::MAX as nat) == spec_run_bp(self@, fuel as nat),
            decreases fuel,
        {
            let pc = self.cpu.get_pc();

            if self.has_breakpoint(pc) {
                self.state = SimulatorState::Paused;
                return Ok(());
            }

            if fuel == 0 {
                self.state = SimulatorState::Paused;
                return Ok(());
            }

            match self.step() {
                Ok(_) => {},
                Err(e) => {
                    self.state = SimulatorState::Error;
                    return Err(e);
                },
            }
            fuel = fuel - 1;
        }
    }

    /// Run a fixed number of instructions, stopping at the first error.
    #[verifier::rlimit(100)]
    pub fn run_n_instructions(&mut self, n: u64) -> (r: Result<(), SimError>)
        requires
            old(self).wf(),
        ensures
            final(self).wf(),
            (final(self)@, r) == spec_run_n(old(self)@, n as nat),
    {
        let mut i: u64 = 0;
        while i < n
            invariant
                i <= n,
                self.wf(),
                spec_run_n(old(self)@, n as nat) == spec_run_n(self@, (n - i) as nat),
            decreases n - i,
        {
            match self.step() {
                Ok(_) => {},
                Err(e) => {
                    return Err(e);
                },
            }
            i = i + 1;
        }
        Ok(())
    }

    /// Run until at least `n` more cycles have elapsed (by whole steps),
    /// stopping at the first error.
    #[verifier::rlimit(100)]
    pub fn run_n_cycles(&mut self, n: u64) -> (r: Result<(), SimError>)
        requires
            old(self).wf(),
        ensures
            final(self).wf(),
            (final(self)@, r) == spec_run_cycles(
                old(self)@,
                spec_sat_add64(old(self).stats.cycles_elapsed, n),
                u64::MAX as nat,
            ),
    {
        let target = sat_add_u64(self.stats.cycles_elapsed, n);
        let ghost start = self@;

        let mut fuel: u64 = u64::MAX;
        loop
            invariant
                self.wf(),
                start == old(self)@,
                target == spec_sat_add64(old(self).stats.cycles_elapsed, n),
                spec_run_cycles(start, target, u64::MAX as nat) == spec_run_cycles(
                    self@,
                    target,
                    fuel as nat,
                ),
            decreases fuel,
        {
            if !(self.stats.cycles_elapsed < target) {
                return Ok(());
            }
            if fuel == 0 {
                return Ok(());
            }

            match self.step() {
                Ok(_) => {},
                Err(e) => {
                    return Err(e);
                },
            }
            fuel = fuel - 1;
        }
    }

    /// Pause a running simulator; other states are unchanged.
    pub fn pause(&mut self)
        ensures
            old(self).state == SimulatorState::Running ==> final(self)@ == (SimView {
                state: SimulatorState::Paused,
                ..old(self)@
            }),
            old(self).state != SimulatorState::Running ==> final(self)@ == old(self)@,
            old(self).wf() ==> final(self).wf(),
    {
        if self.state == SimulatorState::Running {
            self.state = SimulatorState::Paused;
        }
    }

    /// Halt the simulator; stepping refuses until the next reset.
    pub fn halt(&mut self)
        ensures
            final(self)@ == (SimView { state: SimulatorState::Halted, ..old(self)@ }),
            old(self).wf() ==> final(self).wf(),
    {
        self.state = SimulatorState::Halted;
    }

    /// Get the current execution state.
    pub fn state(&self) -> (r: SimulatorState)
        ensures
            r == self.state,
    {
        self.state
    }

    /// Get a reference to the CPU.
    pub fn cpu(&self) -> (r: &Cpu)
        ensures
            *r == self.cpu,
    {
        &self.cpu
    }

    /// Get a mutable reference to the CPU.
    pub fn cpu_mut(&mut self) -> (r: &mut Cpu)
        ensures
            *r == old(self).cpu,
            final(self)@ == (SimView { cpu: final(r)@, ..old(self)@ }),
            final(self).cpu == *final(r),
    {
        &mut self.cpu
    }

    /// Get the execution statistics.
    pub fn stats(&self) -> (r: &SimulatorStats)
        ensures
            *r == self.stats,
    {
        &self.stats
    }

    /// Whether an address is a breakpoint.
    fn has_breakpoint(&self, address: u16) -> (r: bool)
        ensures
            r == self.breakpoints@.contains(address),
    {
        let mut i: usize = 0;
        while i < self.breakpoints.len()
            invariant
                i <= self.breakpoints@.len(),
                forall|j: int| 0 <= j < i ==> self.breakpoints@[j] != address,
            decreases self.breakpoints@.len() - i,
        {
            if self.breakpoints[i] == address {
                return true;
            }
            i = i + 1;
        }
        false
    }

    /// Add a breakpoint; a duplicate address is not added twice.
    pub fn add_breakpoint(&mut self, address: u16)
        ensures
            old(self).breakpoints@.contains(address) ==> final(self)@ == old(self)@,
            !old(self).breakpoints@.contains(address) ==> final(self)@ == (SimView {
                breakpoints: old(self).breakpoints@.push(address),
                ..old(self)@
            }),
            old(self).wf() ==> final(self).wf(),
    {
        if !self.has_breakpoint(address) {
            self.breakpoints.push(address);
        }
    }

    /// Remove a breakpoint; every occurrence of the address goes away
    /// and the others keep their order.
    pub fn remove_breakpoint(&mut self, address: u16)
        ensures
            final(self)@ == (SimView {
                breakpoints: spec_without_breakpoint(old(self).breakpoints@, address),
                ..old(self)@
            }),
            old(self).wf() ==> final(self).wf(),
    {
        let mut kept: Vec<u16> = Vec::new();
        let mut i: usize = 0;
        while i < self.breakpoints.len()
            invariant
                i <= self.breakpoints@.len(),
                kept@ == spec_without_breakpoint(
                    self.breakpoints@.subrange(0, i as int),
                    address,
                ),
            decreases self.breakpoints@.len() - i,
        {
            let ghost s1 = self.breakpoints@.subrange(0, i as int + 1);
            proof {
                assert(s1.drop_last() =~= self.breakpoints@.subrange(0, i as int));
                assert(s1.last() == self.breakpoints@[i as int]);
            }
            let bp = self.breakpoints[i];
            if bp != address {
                kept.push(bp);
            }
            i = i + 1;
            proof {
                reveal_with_fuel(Seq::filter, 2);
                assert(kept@ == spec_without_breakpoint(s1, address));
            }
        }
        proof {
            assert(self.breakpoints@.subrange(0, self.breakpoints@.len() as int)
                =~= self.breakpoints@);
        }
        self.breakpoints = kept;
    }

    /// Remove all breakpoints.
    pub fn clear_breakpoints(&mut self)
        ensures
            final(self)@ == (SimView { breakpoints: Seq::<u16>::empty(), ..old(self)@ }),
            old(self).wf() ==> final(self).wf(),
    {
        self.breakpoints.clear();
        proof {
            assert(self.breakpoints@ =~= Seq::<u16>::empty());
        }
    }

    /// Get all breakpoints.
    pub fn breakpoints(&self) -> (r: &[u16])
        ensures
            r@ == self.breakpoints@,
    {
        self.breakpoints.as_slice()
    }

    /// Load a program from Intel HEX text: program memory and EEPROM
    /// are filled from the parsed image and PC is set to its start
    /// address. A malformed line leaves the simulator unchanged.
    pub fn load_hex_string(&mut self, content: &str) -> (r: Result<(), HexParseError>)
        requires
            old(self).wf(),
        ensures
            final(self).wf(),
            match spec_load_hex(content.spec_bytes()) {
                Ok(p) => r == Ok::<(), HexParseError>(()) && final(self)@ == spec_load_hex_program(
                    old(self)@,
                    p,
                ),
                Err(e) => r == Err::<(), HexParseError>(e) && final(self)@ == old(self)@,
            },
    {
        let hex_program = match HexLoader::load_from_string(content) {
            Ok(p) => p,
            Err(e) => {
                return Err(e);
            },
        };
        self.load_hex_program(hex_program);
        Ok(())
    }

    /// Install a parsed HEX program: program words, EEPROM bytes (the
    /// first 128), and the start address.
    fn load_hex_program(&mut self, hex_program: HexProgram)
        requires
            old(self).wf(),
        ensures
            final(self).wf(),
            final(self)@ == spec_load_hex_program(old(self)@, hex_program@),
    {
        self.cpu.memory.load_program(self.hex_program_words(&hex_program));

        let mut i: usize = 0;
        while i < hex_program.eeprom.len()
            invariant
                old(self).wf(),
                i <= hex_program.eeprom@.len(),
                self.cpu.wf(),
                self@ == spec_load_eeprom_prefix(
                    (SimView {
                        cpu: CpuView {
                            mem: crate::memory::MemView {
                                program: spec_loaded_program(
                                    old(self)@.cpu.mem.program,
                                    hex_program@.program,
                                ),
                                ..old(self)@.cpu.mem
                            },
                            ..old(self)@.cpu
                        },
                        ..old(self)@
                    }),
                    hex_program@.eeprom,
                    i as int,
                ),
            decreases hex_program.eeprom@.len() - i,
        {
            if i < 128 {
                self.cpu.memory.write_eeprom(i as u8, hex_program.eeprom[i]);
                proof {
                    assert((i as u8) as usize & 0x7F == i) by (bit_vector)
                        requires
                            i < 128,
                    ;
                }
            }
            i = i + 1;
            proof {
                assert(self@ =~= spec_load_eeprom_prefix(
                    (SimView {
                        cpu: CpuView {
                            mem: crate::memory::MemView {
                                program: spec_loaded_program(
                                    old(self)@.cpu.mem.program,
                                    hex_program@.program,
                                ),
                                ..old(self)@.cpu.mem
                            },
                            ..old(self)@.cpu
                        },
                        ..old(self)@
                    }),
                    hex_program@.eeprom,
                    i as int,
                ));
            }
        }

        self.cpu.set_pc(hex_program.start_address);
        proof {
            assert(self@ =~= spec_load_hex_program(old(self)@, hex_program@));
        }
    }

    /// Borrow the program words of a parsed HEX image.
    fn hex_program_words<'a>(&self, hex_program: &'a HexProgram) -> (r: &'a [u16])
        ensures
            r@ == hex_program@.program,
    {
        hex_program.program.as_slice()
    }
}

/// The simulator after installing the first `n` EEPROM bytes of a
/// parsed image (only the first 128 land in the device's EEPROM).
pub open spec fn spec_load_eeprom_prefix(s: SimView, eeprom: Seq<u8>, n: int) -> SimView
    decreases n,
{
    if n <= 0 {
        s
    } else {
        let prev = spec_load_eeprom_prefix(s, eeprom, n - 1);
        if n - 1 < 128 {
            SimView {
                cpu: CpuView {
                    mem: crate::memory::MemView {
                        eeprom: prev.cpu.mem.eeprom.update(n - 1, eeprom[n - 1]),
                        ..prev.cpu.mem
                    },
                    ..prev.cpu
                },
                ..prev
            }
        } else {
            prev
        }
    }
}

/// The simulator after installing a parsed HEX image: the program words
/// land in program memory, the EEPROM bytes in the EEPROM, and PC takes
/// the image's start address.
pub open spec fn spec_load_hex_program(s: SimView, p: crate::hexloader::HexProgramView) -> SimView {
    let s1 = SimView {
        cpu: CpuView {
            mem: crate::memory::MemView {
                program: spec_loaded_program(s.cpu.mem.program, p.program),
                ..s.cpu.mem
            },
            ..s.cpu
        },
        ..s
    };
    let s2 = spec_load_eeprom_prefix(s1, p.eeprom, p.eeprom.len() as int);
    SimView { cpu: CpuView { pc: p.start_address & 0x1FFF, ..s2.cpu }, ..s2 }
}

/// A breakpoint list with every occurrence of one address removed and
/// the order of the rest kept.
pub open spec fn spec_without_breakpoint(s: Seq<u16>, address: u16) -> Seq<u16> {
    s.filter(|bp: u16| bp != address)
}

/// Saturating addition on the 64-bit counters.
fn sat_add_u64(a: u64, b: u64) -> (r: u64)
    ensures
        r == spec_sat_add64(a, b),
{
    if a <= u64::MAX - b {
        a + b
    } else {
        u64::MAX
    }
}

} // verus!
