//! STATUS register bit positions.

use vstd::prelude::*;

verus! {

/// Register bank select bit (unused on the 12F629/675).
pub const IRP: u8 = 7;

/// Register bank select bit (unused on the 12F629/675).
pub const RP1: u8 = 6;

/// Register bank select bit: 0 = Bank 0, 1 = Bank 1.
pub const RP0: u8 = 5;

/// Time-out bit.
pub const TO: u8 = 4;

/// Power-down bit.
pub const PD: u8 = 3;

/// Zero flag.
pub const Z: u8 = 2;

/// Digit carry/borrow flag.
pub const DC: u8 = 1;

/// Carry/borrow flag.
pub const C: u8 = 0;

} // verus!
