//! Cycle-accurate simulator of the PIC12F629/675 8-bit microcontroller.
//!
//! The crate models the CPU core (35 instructions, banked register file,
//! 8-level hardware stack), the per-cycle peripherals (Timer0, Timer1,
//! watchdog timer), the GPIO pin-resolution model, the interrupt
//! controller, sleep/wake semantics, and an Intel HEX program loader.
//! Every operation carries a contract that pins down its effect on the
//! machine state.

pub mod bits;
pub mod memory;
pub mod gpio;
pub mod timer;
pub mod wdt;
pub mod interrupt;
pub mod cpu;
pub mod instruction;
pub mod executor;
pub mod simulator;
pub mod hexloader;
pub mod laws;

pub use memory::Memory;
pub use cpu::Cpu;
pub use instruction::{Instruction, InstructionDecoder, DecodeError};
pub use executor::Executor;
pub use simulator::{Simulator, SimulatorState, SimulatorStats, SimError};
pub use hexloader::{HexLoader, HexProgram, HexRecord, RecordType, HexParseError, HexParseErrorKind};
pub use gpio::{Gpio, PinState};
pub use timer::{Timer0, Timer1, TimerController};
pub use wdt::Wdt;
pub use interrupt::{InterruptController, InterruptSource};
