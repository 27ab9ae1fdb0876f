//! PIC12F629/675 instruction set: the 35 instructions as a tagged sum
//! type, the 14-bit-word decoder, a canonical encoder, and the proof
//! that decoding a canonical encoding gives the instruction back.
//!
//! Instruction formats:
//! - byte-oriented: 6-bit opcode, 1-bit destination d, 7-bit file f
//! - bit-oriented: 4-bit opcode, 3-bit bit index b, 7-bit file f
//! - literal/control: 6-bit opcode with 8-bit literal k, or 3-bit
//!   opcode with 11-bit address k

use vstd::prelude::*;

verus! {

/// One decoded PIC12F629/675 instruction.
#[derive(Debug, Clone, Copy, PartialEq, Eq, Structural)]
#[allow(non_camel_case_types)]
pub enum Instruction {
    // Byte-oriented file register operations
    /// Add W and f; affects C, DC, Z.
    ADDWF { f: u8, d: u8 },
    /// AND W with f; affects Z.
    ANDWF { f: u8, d: u8 },
    /// Clear f; sets Z.
    CLRF { f: u8 },
    /// Clear W; sets Z.
    CLRW,
    /// Complement f; affects Z.
    COMF { f: u8, d: u8 },
    /// Decrement f; affects Z.
    DECF { f: u8, d: u8 },
    /// Decrement f, skip if zero.
    DECFSZ { f: u8, d: u8 },
    /// Increment f; affects Z.
    INCF { f: u8, d: u8 },
    /// Increment f, skip if zero.
    INCFSZ { f: u8, d: u8 },
    /// Inclusive OR W with f; affects Z.
    IORWF { f: u8, d: u8 },
    /// Move f; affects Z.
    MOVF { f: u8, d: u8 },
    /// Move W to f.
    MOVWF { f: u8 },
    /// No operation.
    NOP,
    /// Rotate f left through carry; affects C.
    RLF { f: u8, d: u8 },
    /// Rotate f right through carry; affects C.
    RRF { f: u8, d: u8 },
    /// Subtract W from f; affects C, DC, Z.
    SUBWF { f: u8, d: u8 },
    /// Swap nibbles in f.
    SWAPF { f: u8, d: u8 },
    /// Exclusive OR W with f; affects Z.
    XORWF { f: u8, d: u8 },
    // Bit-oriented file register operations
    /// Clear bit b of f.
    BCF { f: u8, b: u8 },
    /// Set bit b of f.
    BSF { f: u8, b: u8 },
    /// Test bit b of f, skip if clear.
    BTFSC { f: u8, b: u8 },
    /// Test bit b of f, skip if set.
    BTFSS { f: u8, b: u8 },
    // Literal and control operations
    /// Add literal and W; affects C, DC, Z.
    ADDLW { k: u8 },
    /// AND literal with W; affects Z.
    ANDLW { k: u8 },
    /// Call subroutine: push PC + 1, load the 11-bit target.
    CALL { k: u16 },
    /// Clear the watchdog timer; sets TO and PD.
    CLRWDT,
    /// Jump to the 11-bit target.
    GOTO { k: u16 },
    /// Inclusive OR literal with W; affects Z.
    IORLW { k: u8 },
    /// Move literal to W.
    MOVLW { k: u8 },
    /// Return from interrupt: pop PC, set GIE.
    RETFIE,
    /// Return with literal in W.
    RETLW { k: u8 },
    /// Return from subroutine: pop PC.
    RETURN,
    /// Enter standby mode; clears TO and PD.
    SLEEP,
    /// Subtract W from literal; affects C, DC, Z.
    SUBLW { k: u8 },
    /// Exclusive OR literal with W; affects Z.
    XORLW { k: u8 },
}

impl Instruction {
    /// Every operand is inside its field: f is 7 bits, d one bit, b
    /// three bits, and a CALL/GOTO target 11 bits.
    pub open spec fn wf(self) -> bool {
        match self {
            Instruction::ADDWF { f, d } => f < 0x80 && d < 2,
            Instruction::ANDWF { f, d } => f < 0x80 && d < 2,
            Instruction::CLRF { f } => f < 0x80,
            Instruction::CLRW => true,
            Instruction::COMF { f, d } => f < 0x80 && d < 2,
            Instruction::DECF { f, d } => f < 0x80 && d < 2,
            Instruction::DECFSZ { f, d } => f < 0x80 && d < 2,
            Instruction::INCF { f, d } => f < 0x80 && d < 2,
            Instruction::INCFSZ { f, d } => f < 0x80 && d < 2,
            Instruction::IORWF { f, d } => f < 0x80 && d < 2,
            Instruction::MOVF { f, d } => f < 0x80 && d < 2,
            Instruction::MOVWF { f } => f < 0x80,
            Instruction::NOP => true,
            Instruction::RLF { f, d } => f < 0x80 && d < 2,
            Instruction::RRF { f, d } => f < 0x80 && d < 2,
            Instruction::SUBWF { f, d } => f < 0x80 && d < 2,
            Instruction::SWAPF { f, d } => f < 0x80 && d < 2,
            Instruction::XORWF { f, d } => f < 0x80 && d < 2,
            Instruction::BCF { f, b } => f < 0x80 && b < 8,
            Instruction::BSF { f, b } => f < 0x80 && b < 8,
            Instruction::BTFSC { f, b } => f < 0x80 && b < 8,
            Instruction::BTFSS { f, b } => f < 0x80 && b < 8,
            Instruction::CALL { k } => k < 0x800,
            Instruction::GOTO { k } => k < 0x800,
            _ => true,
        }
    }
}

/// The decoding of a 14-bit program word, or None where no encoding
/// matches. Precedence: the four exact control opcodes first, then
/// CALL/GOTO by the top three bits, then the byte-oriented group (with
/// CLRW and NOP as the d = 0, f = 0 sub-encodings of the CLRF and
/// MOVWF rows), then the bit-oriented group, then the 8-bit literals
/// (MOVLW and RETLW each own four opcodes: the low two opcode bits are
/// don't-cares).
pub open spec fn spec_decode(word: u16) -> Option<Instruction> {
    if word == 0x0064 {
        Some(Instruction::CLRWDT)
    } else if word == 0x0009 {
        Some(Instruction::RETFIE)
    } else if word == 0x0008 {
        Some(Instruction::RETURN)
    } else if word == 0x0063 {
        Some(Instruction::SLEEP)
    } else if (word >> 11) & 0x07 == 0b100 {
        Some(Instruction::CALL { k: word & 0x7FF })
    } else if (word >> 11) & 0x07 == 0b101 {
        Some(Instruction::GOTO { k: word & 0x7FF })
    } else {
        let opcode = (word >> 8) & 0x3F;
        if opcode & 0x30 == 0x00 {
            let d = ((word >> 7) & 0x01) as u8;
            let f = (word & 0x7F) as u8;
            if opcode == 0x07 {
                Some(Instruction::ADDWF { f, d })
            } else if opcode == 0x05 {
                Some(Instruction::ANDWF { f, d })
            } else if opcode == 0x01 && d == 1 {
                Some(Instruction::CLRF { f })
            } else if opcode == 0x01 && d == 0 && f == 0 {
                Some(Instruction::CLRW)
            } else if opcode == 0x09 {
                Some(Instruction::COMF { f, d })
            } else if opcode == 0x03 {
                Some(Instruction::DECF { f, d })
            } else if opcode == 0x0B {
                Some(Instruction::DECFSZ { f, d })
            } else if opcode == 0x0A {
                Some(Instruction::INCF { f, d })
            } else if opcode == 0x0F {
                Some(Instruction::INCFSZ { f, d })
            } else if opcode == 0x04 {
                Some(Instruction::IORWF { f, d })
            } else if opcode == 0x08 {
                Some(Instruction::MOVF { f, d })
            } else if opcode == 0x00 && d == 1 {
                Some(Instruction::MOVWF { f })
            } else if opcode == 0x00 && d == 0 && f == 0 {
                Some(Instruction::NOP)
            } else if opcode == 0x0D {
                Some(Instruction::RLF { f, d })
            } else if opcode == 0x0C {
                Some(Instruction::RRF { f, d })
            } else if opcode == 0x02 {
                Some(Instruction::SUBWF { f, d })
            } else if opcode == 0x0E {
                Some(Instruction::SWAPF { f, d })
            } else if opcode == 0x06 {
                Some(Instruction::XORWF { f, d })
            } else {
                None
            }
        } else if opcode & 0x30 == 0x10 {
            let b = ((word >> 7) & 0x07) as u8;
            let f = (word & 0x7F) as u8;
            let sel = (word >> 10) & 0x03;
            if sel == 0x00 {
                Some(Instruction::BCF { f, b })
            } else if sel == 0x01 {
                Some(Instruction::BSF { f, b })
            } else if sel == 0x02 {
                Some(Instruction::BTFSC { f, b })
            } else {
                Some(Instruction::BTFSS { f, b })
            }
        } else {
            let k = (word & 0xFF) as u8;
            if opcode == 0x3E {
                Some(Instruction::ADDLW { k })
            } else if opcode == 0x39 {
                Some(Instruction::ANDLW { k })
            } else if opcode == 0x38 {
                Some(Instruction::IORLW { k })
            } else if 0x30 <= opcode && opcode <= 0x33 {
                Some(Instruction::MOVLW { k })
            } else if opcode == 0x3C {
                Some(Instruction::SUBLW { k })
            } else if opcode == 0x3A {
                Some(Instruction::XORLW { k })
            } else if 0x34 <= opcode && opcode <= 0x37 {
                Some(Instruction::RETLW { k })
            } else {
                None
            }
        }
    }
}

/// The canonical 14-bit encoding of a byte-oriented instruction.
pub open spec fn spec_enc_byte(op: u16, d: u8, f: u8) -> u16 {
    (op << 8) | ((d as u16) << 7) | (f as u16)
}

/// The canonical 14-bit encoding of a bit-oriented instruction; sel
/// picks BCF, BSF, BTFSC or BTFSS.
pub open spec fn spec_enc_bit(sel: u16, b: u8, f: u8) -> u16 {
    0x1000 | (sel << 10) | ((b as u16) << 7) | (f as u16)
}

/// The canonical 14-bit encoding of an 8-bit-literal instruction.
pub open spec fn spec_enc_lit(op: u16, k: u8) -> u16 {
    (op << 8) | (k as u16)
}

/// The canonical encoding of an instruction. MOVLW and RETLW use the
/// first of their four don't-care opcodes.
pub open spec fn spec_encode(i: Instruction) -> u16 {
    match i {
        Instruction::ADDWF { f, d } => spec_enc_byte(0x07, d, f),
        Instruction::ANDWF { f, d } => spec_enc_byte(0x05, d, f),
        Instruction::CLRF { f } => spec_enc_byte(0x01, 1, f),
        Instruction::CLRW => 0x0100,
        Instruction::COMF { f, d } => spec_enc_byte(0x09, d, f),
        Instruction::DECF { f, d } => spec_enc_byte(0x03, d, f),
        Instruction::DECFSZ { f, d } => spec_enc_byte(0x0B, d, f),
        Instruction::INCF { f, d } => spec_enc_byte(0x0A, d, f),
        Instruction::INCFSZ { f, d } => spec_enc_byte(0x0F, d, f),
        Instruction::IORWF { f, d } => spec_enc_byte(0x04, d, f),
        Instruction::MOVF { f, d } => spec_enc_byte(0x08, d, f),
        Instruction::MOVWF { f } => spec_enc_byte(0x00, 1, f),
        Instruction::NOP => 0x0000,
        Instruction::RLF { f, d } => spec_enc_byte(0x0D, d, f),
        Instruction::RRF { f, d } => spec_enc_byte(0x0C, d, f),
        Instruction::SUBWF { f, d } => spec_enc_byte(0x02, d, f),
        Instruction::SWAPF { f, d } => spec_enc_byte(0x0E, d, f),
        Instruction::XORWF { f, d } => spec_enc_byte(0x06, d, f),
        Instruction::BCF { f, b } => spec_enc_bit(0, b, f),
        Instruction::BSF { f, b } => spec_enc_bit(1, b, f),
        Instruction::BTFSC { f, b } => spec_enc_bit(2, b, f),
        Instruction::BTFSS { f, b } => spec_enc_bit(3, b, f),
        Instruction::ADDLW { k } => spec_enc_lit(0x3E, k),
        Instruction::ANDLW { k } => spec_enc_lit(0x39, k),
        Instruction::CALL { k } => 0x2000 | k,
        Instruction::CLRWDT => 0x0064,
        Instruction::GOTO { k } => 0x2800 | k,
        Instruction::IORLW { k } => spec_enc_lit(0x38, k),
        Instruction::MOVLW { k } => spec_enc_lit(0x30, k),
        Instruction::RETFIE => 0x0009,
        Instruction::RETLW { k } => spec_enc_lit(0x34, k),
        Instruction::RETURN => 0x0008,
        Instruction::SLEEP => 0x0063,
        Instruction::SUBLW { k } => spec_enc_lit(0x3C, k),
        Instruction::XORLW { k } => spec_enc_lit(0x3A, k),
    }
}

/// The fields a decode extracts all fit their operand ranges.
proof fn lemma_decode_fields(word: u16)
    by (bit_vector)
    ensures
        (word & 0x7F) < 0x80,
        ((word >> 7) & 0x01) < 2,
        ((word >> 7) & 0x07) < 8,
        (word & 0xFF) < 0x100,
        (word & 0x7FF) < 0x800,
        (word & 0x3FFF) < 0x4000,
{
}

/// Decoding the canonical byte-oriented encoding recovers every field,
/// and the word collides with no control opcode and no other group.
proof fn lemma_enc_byte_fields(op: u16, d: u8, f: u8)
    by (bit_vector)
    requires
        op < 0x10,
        d < 2,
        f < 0x80,
        op >= 1 || d == 1 || f == 0,
    ensures
        spec_enc_byte(op, d, f) != 0x0064,
        spec_enc_byte(op, d, f) != 0x0009,
        spec_enc_byte(op, d, f) != 0x0008,
        spec_enc_byte(op, d, f) != 0x0063,
        ((spec_enc_byte(op, d, f) >> 11) & 0x07) != 0b100,
        ((spec_enc_byte(op, d, f) >> 11) & 0x07) != 0b101,
        ((spec_enc_byte(op, d, f) >> 8) & 0x3F) == op,
        (((spec_enc_byte(op, d, f) >> 8) & 0x3F) & 0x30) == 0x00,
        ((spec_enc_byte(op, d, f) >> 7) & 0x01) == d as u16,
        (spec_enc_byte(op, d, f) & 0x7F) == f as u16,
{
}

/// Decoding the canonical bit-oriented encoding recovers every field.
proof fn lemma_enc_bit_fields(sel: u16, b: u8, f: u8)
    by (bit_vector)
    requires
        sel < 4,
        b < 8,
        f < 0x80,
    ensures
        spec_enc_bit(sel, b, f) != 0x0064,
        spec_enc_bit(sel, b, f) != 0x0009,
        spec_enc_bit(sel, b, f) != 0x0008,
        spec_enc_bit(sel, b, f) != 0x0063,
        ((spec_enc_bit(sel, b, f) >> 11) & 0x07) != 0b100,
        ((spec_enc_bit(sel, b, f) >> 11) & 0x07) != 0b101,
        (((spec_enc_bit(sel, b, f) >> 8) & 0x3F) & 0x30) == 0x10,
        ((spec_enc_bit(sel, b, f) >> 10) & 0x03) == sel,
        ((spec_enc_bit(sel, b, f) >> 7) & 0x07) == b as u16,
        (spec_enc_bit(sel, b, f) & 0x7F) == f as u16,
{
}

/// Decoding the canonical literal encoding recovers the opcode and the
/// literal.
proof fn lemma_enc_lit_fields(op: u16, k: u8)
    by (bit_vector)
    requires
        0x30 <= op < 0x40,
    ensures
        spec_enc_lit(op, k) != 0x0064,
        spec_enc_lit(op, k) != 0x0009,
        spec_enc_lit(op, k) != 0x0008,
        spec_enc_lit(op, k) != 0x0063,
        ((spec_enc_lit(op, k) >> 11) & 0x07) != 0b100,
        ((spec_enc_lit(op, k) >> 11) & 0x07) != 0b101,
        ((spec_enc_lit(op, k) >> 8) & 0x3F) == op,
        (((spec_enc_lit(op, k) >> 8) & 0x3F) & 0x30) == 0x30,
        (spec_enc_lit(op, k) & 0xFF) == k as u16,
{
}

/// Decoding the canonical CALL or GOTO encoding recovers the target.
proof fn lemma_enc_jump_fields(k: u16)
    by (bit_vector)
    requires
        k < 0x800,
    ensures
        (0x2000 | k) != 0x0064 && (0x2800 | k) != 0x0064,
        (0x2000 | k) != 0x0009 && (0x2800 | k) != 0x0009,
        (0x2000 | k) != 0x0008 && (0x2800 | k) != 0x0008,
        (0x2000 | k) != 0x0063 && (0x2800 | k) != 0x0063,
        (((0x2000 | k) >> 11) & 0x07) == 0b100,
        (((0x2800 | k) >> 11) & 0x07) == 0b101,
        ((0x2000 | k) & 0x7FF) == k,
        ((0x2800 | k) & 0x7FF) == k,
{
}

/// The four exact control words decode to themselves under the
/// canonical paths.
proof fn lemma_enc_control()
    by (bit_vector)
    ensures
        ((0x0100u16 >> 11) & 0x07) != 0b100 && ((0x0100u16 >> 11) & 0x07) != 0b101,
        ((0x0100u16 >> 8) & 0x3F) == 0x01,
        (((0x0100u16 >> 8) & 0x3F) & 0x30) == 0x00,
        ((0x0100u16 >> 7) & 0x01) == 0,
        (0x0100u16 & 0x7F) == 0,
        ((0x0000u16 >> 11) & 0x07) != 0b100 && ((0x0000u16 >> 11) & 0x07) != 0b101,
        ((0x0000u16 >> 8) & 0x3F) == 0x00,
        (((0x0000u16 >> 8) & 0x3F) & 0x30) == 0x00,
        ((0x0000u16 >> 7) & 0x01) == 0,
        (0x0000u16 & 0x7F) == 0,
{
}

/// Decode is a left inverse of the canonical encoder: every well-formed
/// instruction decodes from its encoding back to itself. Together with
/// the decoder's contract this gives the round trip: for any word that
/// decodes, encoding the decoded instruction and decoding again yields
/// the same instruction.
pub proof fn lemma_decode_encode(i: Instruction)
    requires
        i.wf(),
    ensures
        spec_decode(spec_encode(i)) == Some(i),
{
    match i {
        Instruction::ADDWF { f, d } => lemma_enc_byte_fields(0x07, d, f),
        Instruction::ANDWF { f, d } => lemma_enc_byte_fields(0x05, d, f),
        Instruction::CLRF { f } => lemma_enc_byte_fields(0x01, 1, f),
        Instruction::CLRW => lemma_enc_control(),
        Instruction::COMF { f, d } => lemma_enc_byte_fields(0x09, d, f),
        Instruction::DECF { f, d } => lemma_enc_byte_fields(0x03, d, f),
        Instruction::DECFSZ { f, d } => lemma_enc_byte_fields(0x0B, d, f),
        Instruction::INCF { f, d } => lemma_enc_byte_fields(0x0A, d, f),
        Instruction::INCFSZ { f, d } => lemma_enc_byte_fields(0x0F, d, f),
        Instruction::IORWF { f, d } => lemma_enc_byte_fields(0x04, d, f),
        Instruction::MOVF { f, d } => lemma_enc_byte_fields(0x08, d, f),
        Instruction::MOVWF { f } => lemma_enc_byte_fields(0x00, 1, f),
        Instruction::NOP => lemma_enc_control(),
        Instruction::RLF { f, d } => lemma_enc_byte_fields(0x0D, d, f),
        Instruction::RRF { f, d } => lemma_enc_byte_fields(0x0C, d, f),
        Instruction::SUBWF { f, d } => lemma_enc_byte_fields(0x02, d, f),
        Instruction::SWAPF { f, d } => lemma_enc_byte_fields(0x0E, d, f),
        Instruction::XORWF { f, d } => lemma_enc_byte_fields(0x06, d, f),
        Instruction::BCF { f, b } => lemma_enc_bit_fields(0, b, f),
        Instruction::BSF { f, b } => lemma_enc_bit_fields(1, b, f),
        Instruction::BTFSC { f, b } => lemma_enc_bit_fields(2, b, f),
        Instruction::BTFSS { f, b } => lemma_enc_bit_fields(3, b, f),
        Instruction::ADDLW { k } => lemma_enc_lit_fields(0x3E, k),
        Instruction::ANDLW { k } => lemma_enc_lit_fields(0x39, k),
        Instruction::CALL { k } => lemma_enc_jump_fields(k),
        Instruction::CLRWDT => {},
        Instruction::GOTO { k } => lemma_enc_jump_fields(k),
        Instruction::IORLW { k } => lemma_enc_lit_fields(0x38, k),
        Instruction::MOVLW { k } => lemma_enc_lit_fields(0x30, k),
        Instruction::RETFIE => {},
        Instruction::RETLW { k } => lemma_enc_lit_fields(0x34, k),
        Instruction::RETURN => {},
        Instruction::SLEEP => {},
        Instruction::SUBLW { k } => lemma_enc_lit_fields(0x3C, k),
        Instruction::XORLW { k } => lemma_enc_lit_fields(0x3A, k),
    }
}

/// Every instruction a word decodes to is well formed.
pub proof fn lemma_decode_wf(word: u16)
    ensures
        spec_decode(word) matches Some(i) ==> i.wf(),
{
    lemma_decode_fields(word);
}

/// An undecodable program word, reported with the raw word.
#[derive(Debug, Clone, Copy, PartialEq, Eq, Structural)]
pub struct DecodeError {
    /// The 14-bit word that matches no instruction encoding.
    pub word: u16,
}

/// The instruction decoder.
pub struct InstructionDecoder;

impl InstructionDecoder {
    /// Decode a 14-bit instruction word. Exactly the words outside the
    /// instruction map are rejected, with the offending word in the error.
    pub fn decode(word: u16) -> (r: Result<Instruction, DecodeError>)
        ensures
            spec_decode(word) matches Some(i) ==> r == Ok::<Instruction, DecodeError>(i),
            spec_decode(word) is None ==> r == Err::<Instruction, DecodeError>(
                DecodeError { word },
            ),
            r matches Ok(i) ==> i.wf(),
    {
        proof {
            lemma_decode_fields(word);
            lemma_decode_wf(word);
        }
        if word == 0x0064 {
            return Ok(Instruction::CLRWDT);
        }
        if word == 0x0009 {
            return Ok(Instruction::RETFIE);
        }
        if word == 0x0008 {
            return Ok(Instruction::RETURN);
        }
        if word == 0x0063 {
            return Ok(Instruction::SLEEP);
        }

        let top3 = (word >> 11) & 0x07;
        if top3 == 0b100 {
            return Ok(Instruction::CALL { k: word & 0x7FF });
        }
        if top3 == 0b101 {
            return Ok(Instruction::GOTO { k: word & 0x7FF });
        }

        let opcode = (word >> 8) & 0x3F;

        if opcode & 0x30 == 0x00 {
            let d = ((word >> 7) & 0x01) as u8;
            let f = (word & 0x7F) as u8;

            if opcode == 0x07 {
                Ok(Instruction::ADDWF { f, d })
            } else if opcode == 0x05 {
                Ok(Instruction::ANDWF { f, d })
            } else if opcode == 0x01 && d == 1 {
                Ok(Instruction::CLRF { f })
            } else if opcode == 0x01 && d == 0 && f == 0 {
                Ok(Instruction::CLRW)
            } else if opcode == 0x09 {
                Ok(Instruction::COMF { f, d })
            } else if opcode == 0x03 {
                Ok(Instruction::DECF { f, d })
            } else if opcode == 0x0B {
                Ok(Instruction::DECFSZ { f, d })
            } else if opcode == 0x0A {
                Ok(Instruction::INCF { f, d })
            } else if opcode == 0x0F {
                Ok(Instruction::INCFSZ { f, d })
            } else if opcode == 0x04 {
                Ok(Instruction::IORWF { f, d })
            } else if opcode == 0x08 {
                Ok(Instruction::MOVF { f, d })
            } else if opcode == 0x00 && d == 1 {
                Ok(Instruction::MOVWF { f })
            } else if opcode == 0x00 && d == 0 && f == 0 {
                Ok(Instruction::NOP)
            } else if opcode == 0x0D {
                Ok(Instruction::RLF { f, d })
            } else if opcode == 0x0C {
                Ok(Instruction::RRF { f, d })
            } else if opcode == 0x02 {
                Ok(Instruction::SUBWF { f, d })
            } else if opcode == 0x0E {
                Ok(Instruction::SWAPF { f, d })
            } else if opcode == 0x06 {
                Ok(Instruction::XORWF { f, d })
            } else {
                Err(DecodeError { word })
            }
        } else if opcode & 0x30 == 0x10 {
            let b = ((word >> 7) & 0x07) as u8;
            let f = (word & 0x7F) as u8;
            let sel = (word >> 10) & 0x03;

            if sel == 0x00 {
                Ok(Instruction::BCF { f, b })
            } else if sel == 0x01 {
                Ok(Instruction::BSF { f, b })
            } else if sel == 0x02 {
                Ok(Instruction::BTFSC { f, b })
            } else {
                Ok(Instruction::BTFSS { f, b })
            }
        } else {
            let k = (word & 0xFF) as u8;

            if opcode == 0x3E {
                Ok(Instruction::ADDLW { k })
            } else if opcode == 0x39 {
                Ok(Instruction::ANDLW { k })
            } else if opcode == 0x38 {
                Ok(Instruction::IORLW { k })
            } else if 0x30 <= opcode && opcode <= 0x33 {
                Ok(Instruction::MOVLW { k })
            } else if opcode == 0x3C {
                Ok(Instruction::SUBLW { k })
            } else if opcode == 0x3A {
                Ok(Instruction::XORLW { k })
            } else if 0x34 <= opcode && opcode <= 0x37 {
                Ok(Instruction::RETLW { k })
            } else {
                Err(DecodeError { word })
            }
        }
    }

    /// Encode an instruction into its canonical 14-bit word. Decoding
    /// the result gives the instruction back.
    pub fn encode(instruction: &Instruction) -> (w: u16)
        requires
            instruction.wf(),
        ensures
            w == spec_encode(*instruction),
            spec_decode(w) == Some(*instruction),
    {
        proof {
            lemma_decode_encode(*instruction);
        }
        match *instruction {
            Instruction::ADDWF { f, d } => (0x07u16 << 8) | ((d as u16) << 7) | (f as u16),
            Instruction::ANDWF { f, d } => (0x05u16 << 8) | ((d as u16) << 7) | (f as u16),
            Instruction::CLRF { f } => (0x01u16 << 8) | (1u16 << 7) | (f as u16),
            Instruction::CLRW => 0x0100,
            Instruction::COMF { f, d } => (0x09u16 << 8) | ((d as u16) << 7) | (f as u16),
            Instruction::DECF { f, d } => (0x03u16 << 8) | ((d as u16) << 7) | (f as u16),
            Instruction::DECFSZ { f, d } => (0x0Bu16 << 8) | ((d as u16) << 7) | (f as u16),
            Instruction::INCF { f, d } => (0x0Au16 << 8) | ((d as u16) << 7) | (f as u16),
            Instruction::INCFSZ { f, d } => (0x0Fu16 << 8) | ((d as u16) << 7) | (f as u16),
            Instruction::IORWF { f, d } => (0x04u16 << 8) | ((d as u16) << 7) | (f as u16),
            Instruction::MOVF { f, d } => (0x08u16 << 8) | ((d as u16) << 7) | (f as u16),
            Instruction::MOVWF { f } => (0x00u16 << 8) | (1u16 << 7) | (f as u16),
            Instruction::NOP => 0x0000,
            Instruction::RLF { f, d } => (0x0Du16 << 8) | ((d as u16) << 7) | (f as u16),
            Instruction::RRF { f, d } => (0x0Cu16 << 8) | ((d as u16) << 7) | (f as u16),
            Instruction::SUBWF { f, d } => (0x02u16 << 8) | ((d as u16) << 7) | (f as u16),
            Instruction::SWAPF { f, d } => (0x0Eu16 << 8) | ((d as u16) << 7) | (f as u16),
            Instruction::XORWF { f, d } => (0x06u16 << 8) | ((d as u16) << 7) | (f as u16),
            Instruction::BCF { f, b } => 0x1000u16 | (0u16 << 10) | ((b as u16) << 7) | (f as u16),
            Instruction::BSF { f, b } => 0x1000u16 | (1u16 << 10) | ((b as u16) << 7) | (f as u16),
            Instruction::BTFSC { f, b } => 0x1000u16 | (2u16 << 10) | ((b as u16) << 7) | (f as u16),
            Instruction::BTFSS { f, b } => 0x1000u16 | (3u16 << 10) | ((b as u16) << 7) | (f as u16),
            Instruction::ADDLW { k } => (0x3Eu16 << 8) | (k as u16),
            Instruction::ANDLW { k } => (0x39u16 << 8) | (k as u16),
            Instruction::CALL { k } => 0x2000 | k,
            Instruction::CLRWDT => 0x0064,
            Instruction::GOTO { k } => 0x2800 | k,
            Instruction::IORLW { k } => (0x38u16 << 8) | (k as u16),
            Instruction::MOVLW { k } => (0x30u16 << 8) | (k as u16),
            Instruction::RETFIE => 0x0009,
            Instruction::RETLW { k } => (0x34u16 << 8) | (k as u16),
            Instruction::RETURN => 0x0008,
            Instruction::SLEEP => 0x0063,
            Instruction::SUBLW { k } => (0x3Cu16 << 8) | (k as u16),
            Instruction::XORLW { k } => (0x3Au16 << 8) | (k as u16),
        }
    }

    /// The base cycle count of an instruction: CALL, GOTO, RETFIE,
    /// RETLW and RETURN take 2 cycles; everything else takes 1 (the
    /// skip instructions take 2 only when the skip is taken, which is
    /// decided during execution).
    pub fn get_cycles(instruction: &Instruction) -> (r: u8)
        ensures
            r == spec_base_cycles(*instruction),
    {
        match instruction {
            Instruction::CALL { .. } | Instruction::GOTO { .. } | Instruction::RETFIE
                | Instruction::RETLW { .. } | Instruction::RETURN => 2,
            _ => 1,
        }
    }

    /// Whether the instruction is one of the four skip instructions.
    pub fn is_skip_instruction(instruction: &Instruction) -> (r: bool)
        ensures
            r == spec_is_skip(*instruction),
    {
        match instruction {
            Instruction::BTFSC { .. } | Instruction::BTFSS { .. } | Instruction::DECFSZ { .. }
                | Instruction::INCFSZ { .. } => true,
            _ => false,
        }
    }
}

/// The base cycle count: 2 for the branch and return instructions,
/// 1 for everything else.
pub open spec fn spec_base_cycles(i: Instruction) -> u8 {
    match i {
        Instruction::CALL { .. } => 2,
        Instruction::GOTO { .. } => 2,
        Instruction::RETFIE => 2,
        Instruction::RETLW { .. } => 2,
        Instruction::RETURN => 2,
        _ => 1,
    }
}

/// Whether the instruction is a skip instruction.
pub open spec fn spec_is_skip(i: Instruction) -> bool {
    match i {
        Instruction::BTFSC { .. } => true,
        Instruction::BTFSS { .. } => true,
        Instruction::DECFSZ { .. } => true,
        Instruction::INCFSZ { .. } => true,
        _ => false,
    }
}

} // verus!
