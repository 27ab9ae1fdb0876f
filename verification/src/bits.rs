//! Small bit-level facts about the masks the simulator applies everywhere:
//! address masks, register-width masks, and the forced bits of TRISIO.

use vstd::prelude::*;

verus! {

/// A 10-bit program address mask stays below the program memory size.
pub proof fn lemma_mask_10bit(a: usize)
    by (bit_vector)
    ensures
        (a & 0x3FF) < 1024,
{
}

/// A 13-bit mask keeps a word inside the program counter's range.
pub proof fn lemma_mask_13bit(a: u16)
    by (bit_vector)
    ensures
        (a & 0x1FFF) < 0x2000,
{
}

/// A 14-bit mask keeps a word inside the instruction-word range.
pub proof fn lemma_mask_14bit(a: u16)
    by (bit_vector)
    ensures
        (a & 0x3FFF) < 0x4000,
{
}

/// A 7-bit mask keeps a byte inside the data memory's flat half.
pub proof fn lemma_mask_7bit(a: usize)
    by (bit_vector)
    ensures
        (a & 0x7F) < 128,
        a < 0x80 ==> (a & 0x7F) == a,
{
}

/// Folding an address into Bank 1 still lands inside the flat store.
pub proof fn lemma_bank_fold(a: usize)
    by (bit_vector)
    ensures
        ((a | 0x80) & 0x7F) < 128,
{
}

/// The 6-bit port masks keep every port byte below 0x40, and a TRISIO
/// write always leaves bit 3 (GP3) set.
pub proof fn lemma_port_masks(v: u8)
    by (bit_vector)
    ensures
        (v & 0x3F) < 0x40,
        ((v & 0x3F) | 0x08) < 0x40,
        (((v & 0x3F) | 0x08) & 0x08) == 0x08,
        ((v & 0x37) & 0x37) == (v & 0x37),
{
}

/// An 8-bit mask keeps a 16-bit word inside the byte range.
pub proof fn lemma_mask_8bit(a: u16)
    by (bit_vector)
    ensures
        (a & 0xFF) < 0x100,
        ((a >> 8) & 0xFF) < 0x100,
{
}

/// Setting or clearing one of the six port bits keeps the byte below 0x40.
pub proof fn lemma_port_bit(a: u8, pin: u8)
    by (bit_vector)
    requires
        a < 0x40,
        pin < 6,
    ensures
        (a | (1u8 << pin)) < 0x40,
        (a & !(1u8 << pin)) < 0x40,
{
}

/// The power-on TRISIO value keeps GP3 an input and no pull-up bits set.
pub proof fn lemma_reset_constants()
    by (bit_vector)
    ensures
        0x3Fu8 & 0x08 == 0x08,
        0u8 & 0x37 == 0u8,
{
}

/// The low nibble of a byte is below 16.
pub proof fn lemma_low_nibble(v: u8)
    by (bit_vector)
    ensures
        (v & 0x0F) < 16,
{
}

/// The bitwise or of two port bytes stays below 0x40.
pub proof fn lemma_or_bound(a: u8, b: u8)
    by (bit_vector)
    requires
        a < 0x40,
        b < 0x40,
    ensures
        (a | b) < 0x40,
{
}

} // verus!
