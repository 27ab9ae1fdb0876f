//! Special function register addresses.
//! Addresses below 0x0C are common to both banks; 0x80-0x9F addresses
//! name Bank 1 registers.

use vstd::prelude::*;

verus! {

// Common registers (accessible in both banks)
/// Indirect addressing through FSR (not a physical register).
pub const INDF: u8 = 0x00;

/// Timer0 register.
pub const TMR0: u8 = 0x01;

/// Program counter low byte.
pub const PCL: u8 = 0x02;

/// Status register.
pub const STATUS: u8 = 0x03;

/// File select register (for indirect addressing).
pub const FSR: u8 = 0x04;

/// General purpose I/O port.
pub const GPIO: u8 = 0x05;

/// Program counter latch high.
pub const PCLATH: u8 = 0x0A;

/// Interrupt control register.
pub const INTCON: u8 = 0x0B;

// Bank 0 specific registers
/// Peripheral interrupt request register 1.
pub const PIR1: u8 = 0x0C;

/// Timer1 low byte.
pub const TMR1L: u8 = 0x0E;

/// Timer1 high byte.
pub const TMR1H: u8 = 0x0F;

/// Timer1 control register.
pub const T1CON: u8 = 0x10;

/// Comparator control register.
pub const CMCON: u8 = 0x19;

/// ADC result high byte (12F675 only).
pub const ADRESH: u8 = 0x1E;

/// ADC control register 0 (12F675 only).
pub const ADCON0: u8 = 0x1F;

// Bank 1 specific registers (accessed when RP0 = 1 in STATUS)
/// Option register.
pub const OPTION_REG: u8 = 0x81;

/// GPIO tri-state (direction) register.
pub const TRISIO: u8 = 0x85;

/// Peripheral interrupt enable register 1.
pub const PIE1: u8 = 0x8C;

/// Power control register.
pub const PCON: u8 = 0x8E;

/// Oscillator calibration register.
pub const OSCCAL: u8 = 0x90;

/// Weak pull-up register.
pub const WPU: u8 = 0x95;

/// Interrupt-on-change register.
pub const IOC: u8 = 0x96;

/// Analog select register (12F675 only).
pub const ANSEL: u8 = 0x9F;

} // verus!
