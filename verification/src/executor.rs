//! PIC12F629/675 instruction executor: one function per instruction,
//! each proved against a spec-level transition on the CPU model, and a
//! dispatcher that executes any decoded instruction and returns the
//! cycles it consumed.

use vstd::prelude::*;
use crate::cpu::{Cpu, CpuView, registers, status_bits, spec_read_register, spec_write_register,
    spec_update_zero, spec_update_carry, spec_update_digit_carry, spec_set_status_bit,
    spec_inc_pc, spec_status, spec_enter_sleep};
use crate::instruction::Instruction;
use crate::memory::{spec_push_stack, spec_pop_stack};
use crate::timer::spec_inc_u8;
use crate::wdt::Wdt;
use crate::interrupt::InterruptController;
use crate::bits::lemma_low_nibble;

verus! {

/// An 8-bit value after one decrement, wrapping at 0.
pub open spec fn spec_dec_u8(v: u8) -> u8 {
    if v == 0 {
        0xFF
    } else {
        (v - 1) as u8
    }
}

/// The sum of two bytes, wrapping at 0xFF.
pub open spec fn spec_add_u8(a: u8, b: u8) -> u8 {
    if a + b < 256 {
        (a + b) as u8
    } else {
        (a + b - 256) as u8
    }
}

/// The difference of two bytes, wrapping below 0.
pub open spec fn spec_sub_u8(a: u8, b: u8) -> u8 {
    if a >= b {
        (a - b) as u8
    } else {
        (a + 256 - b) as u8
    }
}

/// The destination write of a byte-oriented operation: d = 0 stores the
/// result in W, d = 1 writes it back to the file register.
pub open spec fn spec_write_dest(c: CpuView, f: u8, d: u8, result: u8) -> CpuView {
    if d == 0 {
        CpuView { w: result, ..c }
    } else {
        spec_write_register(c, f, result)
    }
}

/// ADDWF: W + f to the destination; C, DC and Z updated from the sum.
pub open spec fn spec_addwf(c: CpuView, f: u8, d: u8) -> CpuView {
    let w = c.w;
    let val = spec_read_register(c, f);
    let result = spec_add_u8(w, val);
    let carry = w + val > 0xFF;
    let dc = (w & 0x0F) + (val & 0x0F) > 0x0F;
    let c1 = spec_update_carry(c, carry);
    let c2 = spec_update_digit_carry(c1, dc);
    let c3 = spec_update_zero(c2, result);
    spec_write_dest(c3, f, d, result)
}

/// ANDWF: W and f to the destination; Z updated.
pub open spec fn spec_andwf(c: CpuView, f: u8, d: u8) -> CpuView {
    let result = c.w & spec_read_register(c, f);
    spec_write_dest(spec_update_zero(c, result), f, d, result)
}

/// CLRF: zero the file register and set Z.
pub open spec fn spec_clrf(c: CpuView, f: u8) -> CpuView {
    spec_set_status_bit(spec_write_register(c, f, 0), status_bits::Z)
}

/// CLRW: zero W and set Z.
pub open spec fn spec_clrw(c: CpuView) -> CpuView {
    spec_set_status_bit(CpuView { w: 0, ..c }, status_bits::Z)
}

/// COMF: bitwise complement of f to the destination; Z updated.
pub open spec fn spec_comf(c: CpuView, f: u8, d: u8) -> CpuView {
    let result = !spec_read_register(c, f);
    spec_write_dest(spec_update_zero(c, result), f, d, result)
}

/// DECF: f - 1 to the destination; Z updated.
pub open spec fn spec_decf(c: CpuView, f: u8, d: u8) -> CpuView {
    let result = spec_dec_u8(spec_read_register(c, f));
    spec_write_dest(spec_update_zero(c, result), f, d, result)
}

/// DECFSZ: f - 1 to the destination; a zero result skips the next
/// instruction and costs 2 cycles. No flags are touched.
pub open spec fn spec_decfsz(c: CpuView, f: u8, d: u8) -> (CpuView, u8) {
    let result = spec_dec_u8(spec_read_register(c, f));
    let c1 = spec_write_dest(c, f, d, result);
    if result == 0 {
        (spec_inc_pc(c1), 2)
    } else {
        (c1, 1)
    }
}

/// INCF: f + 1 to the destination; Z updated.
pub open spec fn spec_incf(c: CpuView, f: u8, d: u8) -> CpuView {
    let result = spec_inc_u8(spec_read_register(c, f));
    spec_write_dest(spec_update_zero(c, result), f, d, result)
}

/// INCFSZ: f + 1 to the destination; a zero result skips the next
/// instruction and costs 2 cycles. No flags are touched.
pub open spec fn spec_incfsz(c: CpuView, f: u8, d: u8) -> (CpuView, u8) {
    let result = spec_inc_u8(spec_read_register(c, f));
    let c1 = spec_write_dest(c, f, d, result);
    if result == 0 {
        (spec_inc_pc(c1), 2)
    } else {
        (c1, 1)
    }
}

/// IORWF: W or f to the destination; Z updated.
pub open spec fn spec_iorwf(c: CpuView, f: u8, d: u8) -> CpuView {
    let result = c.w | spec_read_register(c, f);
    spec_write_dest(spec_update_zero(c, result), f, d, result)
}

/// MOVF: f to the destination; Z updated.
pub open spec fn spec_movf(c: CpuView, f: u8, d: u8) -> CpuView {
    let val = spec_read_register(c, f);
    spec_write_dest(spec_update_zero(c, val), f, d, val)
}

/// MOVWF: W to the file register; no flags.
pub open spec fn spec_movwf(c: CpuView, f: u8) -> CpuView {
    spec_write_register(c, f, c.w)
}

/// RLF: rotate f left through carry: the old C becomes the new bit 0
/// and the old bit 7 becomes the new C.
pub open spec fn spec_rlf(c: CpuView, f: u8, d: u8) -> CpuView {
    let val = spec_read_register(c, f);
    let old_carry: u8 = if spec_status(c) & (1u8 << status_bits::C) != 0 {
        1
    } else {
        0
    };
    let result = (val << 1) | old_carry;
    let c1 = spec_update_carry(c, val & 0x80 != 0);
    spec_write_dest(c1, f, d, result)
}

/// RRF: rotate f right through carry: the old C becomes the new bit 7
/// and the old bit 0 becomes the new C.
pub open spec fn spec_rrf(c: CpuView, f: u8, d: u8) -> CpuView {
    let val = spec_read_register(c, f);
    let old_carry: u8 = if spec_status(c) & (1u8 << status_bits::C) != 0 {
        0x80
    } else {
        0
    };
    let result = (val >> 1) | old_carry;
    let c1 = spec_update_carry(c, val & 0x01 != 0);
    spec_write_dest(c1, f, d, result)
}

/// SUBWF: f - W to the destination; C set exactly when no borrow
/// occurs (f >= W), DC set when no low-nibble borrow occurs, Z updated.
pub open spec fn spec_subwf(c: CpuView, f: u8, d: u8) -> CpuView {
    let w = c.w;
    let val = spec_read_register(c, f);
    let result = spec_sub_u8(val, w);
    let c1 = spec_update_carry(c, val >= w);
    let c2 = spec_update_digit_carry(c1, (val & 0x0F) >= (w & 0x0F));
    let c3 = spec_update_zero(c2, result);
    spec_write_dest(c3, f, d, result)
}

/// SWAPF: exchange the nibbles of f; no flags.
pub open spec fn spec_swapf(c: CpuView, f: u8, d: u8) -> CpuView {
    let val = spec_read_register(c, f);
    spec_write_dest(c, f, d, (val << 4) | (val >> 4))
}

/// XORWF: W xor f to the destination; Z updated.
pub open spec fn spec_xorwf(c: CpuView, f: u8, d: u8) -> CpuView {
    let result = c.w ^ spec_read_register(c, f);
    spec_write_dest(spec_update_zero(c, result), f, d, result)
}

/// BCF: clear bit b of f.
pub open spec fn spec_bcf(c: CpuView, f: u8, b: u8) -> CpuView {
    spec_write_register(c, f, spec_read_register(c, f) & !(1u8 << b))
}

/// BSF: set bit b of f.
pub open spec fn spec_bsf(c: CpuView, f: u8, b: u8) -> CpuView {
    spec_write_register(c, f, spec_read_register(c, f) | (1u8 << b))
}

/// BTFSC: skip the next instruction (2 cycles) when bit b of f is clear.
pub open spec fn spec_btfsc(c: CpuView, f: u8, b: u8) -> (CpuView, u8) {
    if spec_read_register(c, f) & (1u8 << b) == 0 {
        (spec_inc_pc(c), 2)
    } else {
        (c, 1)
    }
}

/// BTFSS: skip the next instruction (2 cycles) when bit b of f is set.
pub open spec fn spec_btfss(c: CpuView, f: u8, b: u8) -> (CpuView, u8) {
    if spec_read_register(c, f) & (1u8 << b) != 0 {
        (spec_inc_pc(c), 2)
    } else {
        (c, 1)
    }
}

/// ADDLW: W + k to W; C, DC and Z updated from the sum.
pub open spec fn spec_addlw(c: CpuView, k: u8) -> CpuView {
    let w = c.w;
    let result = spec_add_u8(w, k);
    let c1 = spec_update_carry(c, w + k > 0xFF);
    let c2 = spec_update_digit_carry(c1, (w & 0x0F) + (k & 0x0F) > 0x0F);
    let c3 = spec_update_zero(c2, result);
    CpuView { w: result, ..c3 }
}

/// ANDLW: W and k to W; Z updated.
pub open spec fn spec_andlw(c: CpuView, k: u8) -> CpuView {
    let result = c.w & k;
    CpuView { w: result, ..spec_update_zero(c, result) }
}

/// CALL: push the post-increment PC, then load PC from bits 4-3 of
/// PCLATH and the 11-bit target.
pub open spec fn spec_call(c: CpuView, k: u16) -> CpuView {
    let c1 = CpuView { mem: spec_push_stack(c.mem, c.pc), ..c };
    let pclath = spec_read_register(c1, registers::PCLATH);
    let addr = (((pclath as u16) & 0x18) << 8) | k;
    CpuView { pc: addr & 0x1FFF, ..c1 }
}

/// CLRWDT: zero the WDT accumulator and prescaler and set STATUS.TO
/// and STATUS.PD.
pub open spec fn spec_clrwdt(c: CpuView) -> CpuView {
    let c1 = CpuView { wdt: Wdt { counter: 0, prescaler: 0, ..c.wdt }, ..c };
    spec_write_register(c1, registers::STATUS, spec_read_register(c1, registers::STATUS) | 0x18)
}

/// GOTO: load PC from bits 4-3 of PCLATH and the 11-bit target.
pub open spec fn spec_goto(c: CpuView, k: u16) -> CpuView {
    let pclath = spec_read_register(c, registers::PCLATH);
    let addr = (((pclath as u16) & 0x18) << 8) | k;
    CpuView { pc: addr & 0x1FFF, ..c }
}

/// IORLW: W or k to W; Z updated.
pub open spec fn spec_iorlw(c: CpuView, k: u8) -> CpuView {
    let result = c.w | k;
    CpuView { w: result, ..spec_update_zero(c, result) }
}

/// MOVLW: k to W; no flags.
pub open spec fn spec_movlw(c: CpuView, k: u8) -> CpuView {
    CpuView { w: k, ..c }
}

/// RETFIE: pop PC, set GIE, and clear the in-ISR latch.
pub open spec fn spec_retfie(c: CpuView) -> CpuView {
    let (m1, addr) = spec_pop_stack(c.mem);
    let c1 = CpuView { mem: m1, pc: addr & 0x1FFF, ..c };
    let c2 = spec_write_register(
        c1,
        registers::INTCON,
        spec_read_register(c1, registers::INTCON) | 0x80,
    );
    CpuView {
        interrupts: InterruptController { interrupt_triggered: false, ..c2.interrupts },
        ..c2
    }
}

/// RETLW: k to W, then pop PC.
pub open spec fn spec_retlw(c: CpuView, k: u8) -> CpuView {
    let c1 = CpuView { w: k, ..c };
    let (m1, addr) = spec_pop_stack(c1.mem);
    CpuView { mem: m1, pc: addr & 0x1FFF, ..c1 }
}

/// RETURN: pop PC.
pub open spec fn spec_return(c: CpuView) -> CpuView {
    let (m1, addr) = spec_pop_stack(c.mem);
    CpuView { mem: m1, pc: addr & 0x1FFF, ..c }
}

/// SUBLW: k - W to W; C set exactly when no borrow occurs (k >= W),
/// DC set when no low-nibble borrow occurs, Z updated.
pub open spec fn spec_sublw(c: CpuView, k: u8) -> CpuView {
    let w = c.w;
    let result = spec_sub_u8(k, w);
    let c1 = spec_update_carry(c, k >= w);
    let c2 = spec_update_digit_carry(c1, (k & 0x0F) >= (w & 0x0F));
    let c3 = spec_update_zero(c2, result);
    CpuView { w: result, ..c3 }
}

/// XORLW: W xor k to W; Z updated.
pub open spec fn spec_xorlw(c: CpuView, k: u8) -> CpuView {
    let result = c.w ^ k;
    CpuView { w: result, ..spec_update_zero(c, result) }
}

/// The machine transition of one instruction, with the cycles it
/// consumes: every instruction is 1 cycle, except CALL, GOTO and the
/// returns (2 cycles) and the four skip instructions when the skip is
/// taken (2 cycles).
pub open spec fn spec_execute(c: CpuView, i: Instruction) -> (CpuView, u8) {
    match i {
        Instruction::ADDWF { f, d } => (spec_addwf(c, f, d), 1),
        Instruction::ANDWF { f, d } => (spec_andwf(c, f, d), 1),
        Instruction::CLRF { f } => (spec_clrf(c, f), 1),
        Instruction::CLRW => (spec_clrw(c), 1),
        Instruction::COMF { f, d } => (spec_comf(c, f, d), 1),
        Instruction::DECF { f, d } => (spec_decf(c, f, d), 1),
        Instruction::DECFSZ { f, d } => spec_decfsz(c, f, d),
        Instruction::INCF { f, d } => (spec_incf(c, f, d), 1),
        Instruction::INCFSZ { f, d } => spec_incfsz(c, f, d),
        Instruction::IORWF { f, d } => (spec_iorwf(c, f, d), 1),
        Instruction::MOVF { f, d } => (spec_movf(c, f, d), 1),
        Instruction::MOVWF { f } => (spec_movwf(c, f), 1),
        Instruction::NOP => (c, 1),
        Instruction::RLF { f, d } => (spec_rlf(c, f, d), 1),
        Instruction::RRF { f, d } => (spec_rrf(c, f, d), 1),
        Instruction::SUBWF { f, d } => (spec_subwf(c, f, d), 1),
        Instruction::SWAPF { f, d } => (spec_swapf(c, f, d), 1),
        Instruction::XORWF { f, d } => (spec_xorwf(c, f, d), 1),
        Instruction::BCF { f, b } => (spec_bcf(c, f, b), 1),
        Instruction::BSF { f, b } => (spec_bsf(c, f, b), 1),
        Instruction::BTFSC { f, b } => spec_btfsc(c, f, b),
        Instruction::BTFSS { f, b } => spec_btfss(c, f, b),
        Instruction::ADDLW { k } => (spec_addlw(c, k), 1),
        Instruction::ANDLW { k } => (spec_andlw(c, k), 1),
        Instruction::CALL { k } => (spec_call(c, k), 2),
        Instruction::CLRWDT => (spec_clrwdt(c), 1),
        Instruction::GOTO { k } => (spec_goto(c, k), 2),
        Instruction::IORLW { k } => (spec_iorlw(c, k), 1),
        Instruction::MOVLW { k } => (spec_movlw(c, k), 1),
        Instruction::RETFIE => (spec_retfie(c), 2),
        Instruction::RETLW { k } => (spec_retlw(c, k), 2),
        Instruction::RETURN => (spec_return(c), 2),
        Instruction::SLEEP => (spec_enter_sleep(c), 1),
        Instruction::SUBLW { k } => (spec_sublw(c, k), 1),
        Instruction::XORLW { k } => (spec_xorlw(c, k), 1),
    }
}

/// The instruction executor.
pub struct Executor;

impl Executor {
    /// Execute one decoded instruction against the CPU; returns the
    /// cycles consumed (1 or 2).
    pub fn execute(cpu: &mut Cpu, instruction: Instruction) -> (cycles: u8)
        requires
            old(cpu).wf(),
            instruction.wf(),
        ensures
            final(cpu).wf(),
            (final(cpu)@, cycles) == spec_execute(old(cpu)@, instruction),
            1 <= cycles <= 2,
    {
        match instruction {
            Instruction::ADDWF { f, d } => Self::addwf(cpu, f, d),
            Instruction::ANDWF { f, d } => Self::andwf(cpu, f, d),
            Instruction::CLRF { f } => Self::clrf(cpu, f),
            Instruction::CLRW => Self::clrw(cpu),
            Instruction::COMF { f, d } => Self::comf(cpu, f, d),
            Instruction::DECF { f, d } => Self::decf(cpu, f, d),
            Instruction::DECFSZ { f, d } => Self::decfsz(cpu, f, d),
            Instruction::INCF { f, d } => Self::incf(cpu, f, d),
            Instruction::INCFSZ { f, d } => Self::incfsz(cpu, f, d),
            Instruction::IORWF { f, d } => Self::iorwf(cpu, f, d),
            Instruction::MOVF { f, d } => Self::movf(cpu, f, d),
            Instruction::MOVWF { f } => Self::movwf(cpu, f),
            Instruction::NOP => 1,
            Instruction::RLF { f, d } => Self::rlf(cpu, f, d),
            Instruction::RRF { f, d } => Self::rrf(cpu, f, d),
            Instruction::SUBWF { f, d } => Self::subwf(cpu, f, d),
            Instruction::SWAPF { f, d } => Self::swapf(cpu, f, d),
            Instruction::XORWF { f, d } => Self::xorwf(cpu, f, d),
            Instruction::BCF { f, b } => Self::bcf(cpu, f, b),
            Instruction::BSF { f, b } => Self::bsf(cpu, f, b),
            Instruction::BTFSC { f, b } => Self::btfsc(cpu, f, b),
            Instruction::BTFSS { f, b } => Self::btfss(cpu, f, b),
            Instruction::ADDLW { k } => Self::addlw(cpu, k),
            Instruction::ANDLW { k } => Self::andlw(cpu, k),
            Instruction::CALL { k } => Self::call(cpu, k),
            Instruction::CLRWDT => Self::clrwdt(cpu),
            Instruction::GOTO { k } => Self::goto(cpu, k),
            Instruction::IORLW { k } => Self::iorlw(cpu, k),
            Instruction::MOVLW { k } => Self::movlw(cpu, k),
            Instruction::RETFIE => Self::retfie(cpu),
            Instruction::RETLW { k } => Self::retlw(cpu, k),
            Instruction::RETURN => Self::ret(cpu),
            Instruction::SLEEP => Self::sleep(cpu),
            Instruction::SUBLW { k } => Self::sublw(cpu, k),
            Instruction::XORLW { k } => Self::xorlw(cpu, k),
        }
    }

    fn addwf(cpu: &mut Cpu, f: u8, d: u8) -> (cycles: u8)
        requires
            old(cpu).wf(),
        ensures
            final(cpu).wf(),
            final(cpu)@ == spec_addwf(old(cpu)@, f, d),
            cycles == 1,
    {
        let w = cpu.read_w();
        let val = cpu.read_register(f);
        proof {
            lemma_low_nibble(w);
            lemma_low_nibble(val);
        }
        let result: u8 = if (w as u16) + (val as u16) < 256 {
            w + val
        } else {
            ((w as u16 + val as u16) - 256) as u8
        };

        let carry = (w as u16 + val as u16) > 0xFF;
        cpu.update_carry_flag(carry);

        let dc = ((w & 0x0F) + (val & 0x0F)) > 0x0F;
        cpu.update_digit_carry_flag(dc);

        cpu.update_zero_flag(result);

        if d == 0 {
            cpu.write_w(result);
        } else {
            cpu.write_register(f, result);
        }
        1
    }

    fn andwf(cpu: &mut Cpu, f: u8, d: u8) -> (cycles: u8)
        requires
            old(cpu).wf(),
        ensures
            final(cpu).wf(),
            final(cpu)@ == spec_andwf(old(cpu)@, f, d),
            cycles == 1,
    {
        let w = cpu.read_w();
        let val = cpu.read_register(f);
        let result = w & val;
        cpu.update_zero_flag(result);

        if d == 0 {
            cpu.write_w(result);
        } else {
            cpu.write_register(f, result);
        }
        1
    }

    fn clrf(cpu: &mut Cpu, f: u8) -> (cycles: u8)
        requires
            old(cpu).wf(),
        ensures
            final(cpu).wf(),
            final(cpu)@ == spec_clrf(old(cpu)@, f),
            cycles == 1,
    {
        cpu.write_register(f, 0);
        cpu.set_status_bit(status_bits::Z);
        1
    }

    fn clrw(cpu: &mut Cpu) -> (cycles: u8)
        requires
            old(cpu).wf(),
        ensures
            final(cpu).wf(),
            final(cpu)@ == spec_clrw(old(cpu)@),
            cycles == 1,
    {
        cpu.write_w(0);
        cpu.set_status_bit(status_bits::Z);
        1
    }

    fn comf(cpu: &mut Cpu, f: u8, d: u8) -> (cycles: u8)
        requires
            old(cpu).wf(),
        ensures
            final(cpu).wf(),
            final(cpu)@ == spec_comf(old(cpu)@, f, d),
            cycles == 1,
    {
        let val = cpu.read_register(f);
        let result = !val;
        cpu.update_zero_flag(result);

        if d == 0 {
            cpu.write_w(result);
        } else {
            cpu.write_register(f, result);
        }
        1
    }

    fn decf(cpu: &mut Cpu, f: u8, d: u8) -> (cycles: u8)
        requires
            old(cpu).wf(),
        ensures
            final(cpu).wf(),
            final(cpu)@ == spec_decf(old(cpu)@, f, d),
            cycles == 1,
    {
        let val = cpu.read_register(f);
        let result = if val == 0 {
            0xFF
        } else {
            val - 1
        };
        cpu.update_zero_flag(result);

        if d == 0 {
            cpu.write_w(result);
        } else {
            cpu.write_register(f, result);
        }
        1
    }

    fn decfsz(cpu: &mut Cpu, f: u8, d: u8) -> (cycles: u8)
        requires
            old(cpu).wf(),
        ensures
            final(cpu).wf(),
            (final(cpu)@, cycles) == spec_decfsz(old(cpu)@, f, d),
    {
        let val = cpu.read_register(f);
        let result = if val == 0 {
            0xFF
        } else {
            val - 1
        };

        if d == 0 {
            cpu.write_w(result);
        } else {
            cpu.write_register(f, result);
        }

        if result == 0 {
            cpu.increment_pc();
            2
        } else {
            1
        }
    }

    fn incf(cpu: &mut Cpu, f: u8, d: u8) -> (cycles: u8)
        requires
            old(cpu).wf(),
        ensures
            final(cpu).wf(),
            final(cpu)@ == spec_incf(old(cpu)@, f, d),
            cycles == 1,
    {
        let val = cpu.read_register(f);
        let result = if val == 0xFF {
            0
        } else {
            val + 1
        };
        cpu.update_zero_flag(result);

        if d == 0 {
            cpu.write_w(result);
        } else {
            cpu.write_register(f, result);
        }
        1
    }

    fn incfsz(cpu: &mut Cpu, f: u8, d: u8) -> (cycles: u8)
        requires
            old(cpu).wf(),
        ensures
            final(cpu).wf(),
            (final(cpu)@, cycles) == spec_incfsz(old(cpu)@, f, d),
    {
        let val = cpu.read_register(f);
        let result = if val == 0xFF {
            0
        } else {
            val + 1
        };

        if d == 0 {
            cpu.write_w(result);
        } else {
            cpu.write_register(f, result);
        }

        if result == 0 {
            cpu.increment_pc();
            2
        } else {
            1
        }
    }

    fn iorwf(cpu: &mut Cpu, f: u8, d: u8) -> (cycles: u8)
        requires
            old(cpu).wf(),
        ensures
            final(cpu).wf(),
            final(cpu)@ == spec_iorwf(old(cpu)@, f, d),
            cycles == 1,
    {
        let w = cpu.read_w();
        let val = cpu.read_register(f);
        let result = w | val;
        cpu.update_zero_flag(result);

        if d == 0 {
            cpu.write_w(result);
        } else {
            cpu.write_register(f, result);
        }
        1
    }

    fn movf(cpu: &mut Cpu, f: u8, d: u8) -> (cycles: u8)
        requires
            old(cpu).wf(),
        ensures
            final(cpu).wf(),
            final(cpu)@ == spec_movf(old(cpu)@, f, d),
            cycles == 1,
    {
        let val = cpu.read_register(f);
        cpu.update_zero_flag(val);

        if d == 0 {
            cpu.write_w(val);
        } else {
            cpu.write_register(f, val);
        }
        1
    }

    fn movwf(cpu: &mut Cpu, f: u8) -> (cycles: u8)
        requires
            old(cpu).wf(),
        ensures
            final(cpu).wf(),
            final(cpu)@ == spec_movwf(old(cpu)@, f),
            cycles == 1,
    {
        let w = cpu.read_w();
        cpu.write_register(f, w);
        1
    }

    fn rlf(cpu: &mut Cpu, f: u8, d: u8) -> (cycles: u8)
        requires
            old(cpu).wf(),
        ensures
            final(cpu).wf(),
            final(cpu)@ == spec_rlf(old(cpu)@, f, d),
            cycles == 1,
    {
        let val = cpu.read_register(f);
        let old_carry: u8 = if cpu.test_status_bit(status_bits::C) {
            1
        } else {
            0
        };
        let result = (val << 1u8) | old_carry;
        let new_carry = (val & 0x80) != 0;

        cpu.update_carry_flag(new_carry);

        if d == 0 {
            cpu.write_w(result);
        } else {
            cpu.write_register(f, result);
        }
        1
    }

    fn rrf(cpu: &mut Cpu, f: u8, d: u8) -> (cycles: u8)
        requires
            old(cpu).wf(),
        ensures
            final(cpu).wf(),
            final(cpu)@ == spec_rrf(old(cpu)@, f, d),
            cycles == 1,
    {
        let val = cpu.read_register(f);
        let old_carry: u8 = if cpu.test_status_bit(status_bits::C) {
            0x80
        } else {
            0
        };
        let result = (val >> 1u8) | old_carry;
        let new_carry = (val & 0x01) != 0;

        cpu.update_carry_flag(new_carry);

        if d == 0 {
            cpu.write_w(result);
        } else {
            cpu.write_register(f, result);
        }
        1
    }

    fn subwf(cpu: &mut Cpu, f: u8, d: u8) -> (cycles: u8)
        requires
            old(cpu).wf(),
        ensures
            final(cpu).wf(),
            final(cpu)@ == spec_subwf(old(cpu)@, f, d),
            cycles == 1,
    {
        let w = cpu.read_w();
        let val = cpu.read_register(f);
        let result: u8 = if val >= w {
            val - w
        } else {
            ((val as u16 + 256) - w as u16) as u8
        };

        cpu.update_carry_flag(val >= w);
        cpu.update_digit_carry_flag((val & 0x0F) >= (w & 0x0F));
        cpu.update_zero_flag(result);

        if d == 0 {
            cpu.write_w(result);
        } else {
            cpu.write_register(f, result);
        }
        1
    }

    fn swapf(cpu: &mut Cpu, f: u8, d: u8) -> (cycles: u8)
        requires
            old(cpu).wf(),
        ensures
            final(cpu).wf(),
            final(cpu)@ == spec_swapf(old(cpu)@, f, d),
            cycles == 1,
    {
        let val = cpu.read_register(f);
        let result = (val << 4u8) | (val >> 4u8);

        if d == 0 {
            cpu.write_w(result);
        } else {
            cpu.write_register(f, result);
        }
        1
    }

    fn xorwf(cpu: &mut Cpu, f: u8, d: u8) -> (cycles: u8)
        requires
            old(cpu).wf(),
        ensures
            final(cpu).wf(),
            final(cpu)@ == spec_xorwf(old(cpu)@, f, d),
            cycles == 1,
    {
        let w = cpu.read_w();
        let val = cpu.read_register(f);
        let result = w ^ val;
        cpu.update_zero_flag(result);

        if d == 0 {
            cpu.write_w(result);
        } else {
            cpu.write_register(f, result);
        }
        1
    }

    fn bcf(cpu: &mut Cpu, f: u8, b: u8) -> (cycles: u8)
        requires
            old(cpu).wf(),
            b < 8,
        ensures
            final(cpu).wf(),
            final(cpu)@ == spec_bcf(old(cpu)@, f, b),
            cycles == 1,
    {
        let val = cpu.read_register(f);
        cpu.write_register(f, val & !(1u8 << b));
        1
    }

    fn bsf(cpu: &mut Cpu, f: u8, b: u8) -> (cycles: u8)
        requires
            old(cpu).wf(),
            b < 8,
        ensures
            final(cpu).wf(),
            final(cpu)@ == spec_bsf(old(cpu)@, f, b),
            cycles == 1,
    {
        let val = cpu.read_register(f);
        cpu.write_register(f, val | (1u8 << b));
        1
    }

    fn btfsc(cpu: &mut Cpu, f: u8, b: u8) -> (cycles: u8)
        requires
            old(cpu).wf(),
            b < 8,
        ensures
            final(cpu).wf(),
            (final(cpu)@, cycles) == spec_btfsc(old(cpu)@, f, b),
    {
        let val = cpu.read_register(f);
        if (val & (1u8 << b)) == 0 {
            cpu.increment_pc();
            2
        } else {
            1
        }
    }

    fn btfss(cpu: &mut Cpu, f: u8, b: u8) -> (cycles: u8)
        requires
            old(cpu).wf(),
            b < 8,
        ensures
            final(cpu).wf(),
            (final(cpu)@, cycles) == spec_btfss(old(cpu)@, f, b),
    {
        let val = cpu.read_register(f);
        if (val & (1u8 << b)) != 0 {
            cpu.increment_pc();
            2
        } else {
            1
        }
    }

    fn addlw(cpu: &mut Cpu, k: u8) -> (cycles: u8)
        requires
            old(cpu).wf(),
        ensures
            final(cpu).wf(),
            final(cpu)@ == spec_addlw(old(cpu)@, k),
            cycles == 1,
    {
        let w = cpu.read_w();
        proof {
            lemma_low_nibble(w);
            lemma_low_nibble(k);
        }
        let result: u8 = if (w as u16) + (k as u16) < 256 {
            w + k
        } else {
            ((w as u16 + k as u16) - 256) as u8
        };

        cpu.update_carry_flag((w as u16 + k as u16) > 0xFF);
        cpu.update_digit_carry_flag(((w & 0x0F) + (k & 0x0F)) > 0x0F);
        cpu.update_zero_flag(result);

        cpu.write_w(result);
        1
    }

    fn andlw(cpu: &mut Cpu, k: u8) -> (cycles: u8)
        requires
            old(cpu).wf(),
        ensures
            final(cpu).wf(),
            final(cpu)@ == spec_andlw(old(cpu)@, k),
            cycles == 1,
    {
        let result = cpu.read_w() & k;
        cpu.update_zero_flag(result);
        cpu.write_w(result);
        1
    }

    fn call(cpu: &mut Cpu, k: u16) -> (cycles: u8)
        requires
            old(cpu).wf(),
        ensures
            final(cpu).wf(),
            final(cpu)@ == spec_call(old(cpu)@, k),
            cycles == 2,
    {
        cpu.push_pc();
        let pclath = cpu.read_register(registers::PCLATH);
        let addr = ((pclath as u16 & 0x18) << 8) | k;
        cpu.set_pc(addr);
        2
    }

    fn clrwdt(cpu: &mut Cpu) -> (cycles: u8)
        requires
            old(cpu).wf(),
        ensures
            final(cpu).wf(),
            final(cpu)@ == spec_clrwdt(old(cpu)@),
            cycles == 1,
    {
        cpu.wdt.clear();

        let status = cpu.read_register(registers::STATUS);
        cpu.write_register(registers::STATUS, status | 0x18);

        1
    }

    fn goto(cpu: &mut Cpu, k: u16) -> (cycles: u8)
        requires
            old(cpu).wf(),
        ensures
            final(cpu).wf(),
            final(cpu)@ == spec_goto(old(cpu)@, k),
            cycles == 2,
    {
        let pclath = cpu.read_register(registers::PCLATH);
        let addr = ((pclath as u16 & 0x18) << 8) | k;
        cpu.set_pc(addr);
        2
    }

    fn iorlw(cpu: &mut Cpu, k: u8) -> (cycles: u8)
        requires
            old(cpu).wf(),
        ensures
            final(cpu).wf(),
            final(cpu)@ == spec_iorlw(old(cpu)@, k),
            cycles == 1,
    {
        let result = cpu.read_w() | k;
        cpu.update_zero_flag(result);
        cpu.write_w(result);
        1
    }

    fn movlw(cpu: &mut Cpu, k: u8) -> (cycles: u8)
        requires
            old(cpu).wf(),
        ensures
            final(cpu).wf(),
            final(cpu)@ == spec_movlw(old(cpu)@, k),
            cycles == 1,
    {
        cpu.write_w(k);
        1
    }

    fn retfie(cpu: &mut Cpu) -> (cycles: u8)
        requires
            old(cpu).wf(),
        ensures
            final(cpu).wf(),
            final(cpu)@ == spec_retfie(old(cpu)@),
            cycles == 2,
    {
        let addr = cpu.pop_pc();
        cpu.set_pc(addr);

        let intcon = cpu.read_register(registers::INTCON);
        cpu.write_register(registers::INTCON, intcon | 0x80);

        cpu.interrupts.exit_isr();

        proof {
            assert(cpu@ =~= spec_retfie(old(cpu)@));
        }
        2
    }

    fn retlw(cpu: &mut Cpu, k: u8) -> (cycles: u8)
        requires
            old(cpu).wf(),
        ensures
            final(cpu).wf(),
            final(cpu)@ == spec_retlw(old(cpu)@, k),
            cycles == 2,
    {
        cpu.write_w(k);
        let addr = cpu.pop_pc();
        cpu.set_pc(addr);
        2
    }

    fn ret(cpu: &mut Cpu) -> (cycles: u8)
        requires
            old(cpu).wf(),
        ensures
            final(cpu).wf(),
            final(cpu)@ == spec_return(old(cpu)@),
            cycles == 2,
    {
        let addr = cpu.pop_pc();
        cpu.set_pc(addr);
        2
    }

    fn sleep(cpu: &mut Cpu) -> (cycles: u8)
        requires
            old(cpu).wf(),
        ensures
            final(cpu).wf(),
            final(cpu)@ == spec_enter_sleep(old(cpu)@),
            cycles == 1,
    {
        cpu.enter_sleep();
        1
    }

    fn sublw(cpu: &mut Cpu, k: u8) -> (cycles: u8)
        requires
            old(cpu).wf(),
        ensures
            final(cpu).wf(),
            final(cpu)@ == spec_sublw(old(cpu)@, k),
            cycles == 1,
    {
        let w = cpu.read_w();
        let result: u8 = if k >= w {
            k - w
        } else {
            ((k as u16 + 256) - w as u16) as u8
        };

        cpu.update_carry_flag(k >= w);
        cpu.update_digit_carry_flag((k & 0x0F) >= (w & 0x0F));
        cpu.update_zero_flag(result);

        cpu.write_w(result);
        1
    }

    fn xorlw(cpu: &mut Cpu, k: u8) -> (cycles: u8)
        requires
            old(cpu).wf(),
        ensures
            final(cpu).wf(),
            final(cpu)@ == spec_xorlw(old(cpu)@, k),
            cycles == 1,
    {
        let result = cpu.read_w() ^ k;
        cpu.update_zero_flag(result);
        cpu.write_w(result);
        1
    }
}

} // verus!
