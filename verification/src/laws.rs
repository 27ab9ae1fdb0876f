//! The laws of the simulator: properties that relate several
//! operations or hold of every reachable state, each stated and proved
//! over the spec-level machine model.

use vstd::prelude::*;
use crate::memory::{MemView, spec_push_stack, spec_pop_stack, STACK_DEPTH};
use crate::cpu::{CpuView, registers, spec_read_register, spec_write_register,
    spec_service_interrupt, spec_enter_sleep, spec_wake_up, spec_status};
use crate::executor::{spec_clrwdt, spec_goto, spec_call, spec_execute};
use crate::instruction::Instruction;
use crate::simulator::{SimView, spec_step, spec_step_exec, spec_tick_cycle};
use crate::timer::{Timer0, Timer1, spec_t0_tick, spec_t1_tick};
use crate::interrupt::spec_should_interrupt;
use crate::wdt::{Wdt, spec_wdt_tick};

verus! {

/// Every well-formed machine state keeps the program counter inside
/// program space, GP3 an input, the upper two bits of the GPIO latch
/// and TRISIO clear, and the stack depth between 0 and 8.
pub proof fn lemma_state_invariants(c: CpuView)
    requires
        c.wf(),
    ensures
        0 <= c.pc < 0x2000,
        c.gpio.tris & 0x08 == 0x08,
        c.gpio.tris < 0x40,
        c.gpio.port_value < 0x40,
        0 <= c.mem.sp <= STACK_DEPTH,
{
}

/// The eight named STATUS bits (IRP, RP1, RP0, TO, PD, Z, DC, C) are
/// the whole register: every STATUS byte is exactly the sum of its
/// named bits, so no other bit is ever set.
pub proof fn lemma_status_bits_exhaustive(s: u8)
    by (bit_vector)
    ensures
        s == (s & 0x80) | (s & 0x40) | (s & 0x20) | (s & 0x10) | (s & 0x08) | (s & 0x04) | (s
            & 0x02) | (s & 0x01),
{
}

/// Writing TRISIO and reading it back yields the value masked to six
/// bits with bit 3 (GP3, always an input) forced on.
pub proof fn lemma_trisio_roundtrip(c: CpuView, v: u8)
    ensures
        spec_read_register(
            spec_write_register(c, registers::TRISIO, v),
            registers::TRISIO,
        ) == (v & 0x3F) | 0x08,
{
}

/// Writing WPU and reading it back yields the value masked to 0x37:
/// GP3 and GP5 have no pull-ups.
pub proof fn lemma_wpu_roundtrip(c: CpuView, v: u8)
    ensures
        spec_read_register(spec_write_register(c, registers::WPU, v), registers::WPU) == v & 0x37,
{
}

/// Any write of the TMR0 register (Bank 0) clears the Timer0 prescaler
/// accumulator and loads the counter.
pub proof fn lemma_tmr0_write_clears_prescaler(c: CpuView, v: u8)
    requires
        crate::cpu::bank_of(c) == 0,
    ensures
        spec_write_register(c, registers::TMR0, v).timers.timer0.prescaler == 0,
        spec_write_register(c, registers::TMR0, v).timers.timer0.counter == v,
{
}

/// CLRWDT zeroes the watchdog accumulator and prescaler and asserts
/// STATUS.TO and STATUS.PD.
pub proof fn lemma_clrwdt(c: CpuView)
    requires
        c.wf(),
    ensures
        spec_clrwdt(c).wdt.counter == 0,
        spec_clrwdt(c).wdt.prescaler == 0,
        spec_status(spec_clrwdt(c)) & 0x18 == 0x18,
{
    let c1 = CpuView { wdt: Wdt { counter: 0, prescaler: 0, ..c.wdt }, ..c };
    let s = spec_read_register(c1, registers::STATUS);
    assert((s | 0x18) & 0x18 == 0x18) by (bit_vector);
}

/// Servicing an interrupt clears GIE in INTCON and sets the in-ISR
/// latch; the latch suppresses re-entry until RETFIE, which restores
/// GIE and clears the latch (see `spec_retfie`).
pub proof fn lemma_interrupt_entry(c: CpuView)
    requires
        c.wf(),
    ensures
        spec_read_register(spec_service_interrupt(c), registers::INTCON) & 0x80 == 0,
        spec_service_interrupt(c).interrupts.interrupt_triggered,
        spec_service_interrupt(c).pc == c.interrupts.interrupt_vector & 0x1FFF,
{
    let intcon = spec_read_register(
        CpuView { mem: spec_push_stack(c.mem, c.pc), ..c },
        registers::INTCON,
    );
    assert((intcon & !0x80u8) & 0x80 == 0) by (bit_vector);
}

/// RETFIE pops the return address, re-enables GIE and clears the
/// in-ISR latch.
pub proof fn lemma_retfie(c: CpuView)
    requires
        c.wf(),
    ensures
        spec_read_register(crate::executor::spec_retfie(c), registers::INTCON) & 0x80 == 0x80,
        !crate::executor::spec_retfie(c).interrupts.interrupt_triggered,
        crate::executor::spec_retfie(c).pc == spec_pop_stack(c.mem).1 & 0x1FFF,
{
    let (m1, addr) = spec_pop_stack(c.mem);
    let c1 = CpuView { mem: m1, pc: addr & 0x1FFF, ..c };
    let intcon = spec_read_register(c1, registers::INTCON);
    assert((intcon | 0x80u8) & 0x80 == 0x80) by (bit_vector);
}

/// Entering sleep clears STATUS.TO and STATUS.PD, so a sleeping CPU
/// shows PD = 0. A watchdog wake leaves TO = 0 and PD = 1; an
/// interrupt wake leaves TO = 1 and PD = 0.
pub proof fn lemma_sleep_wake_status(c: CpuView)
    requires
        c.wf(),
    ensures
        spec_status(spec_enter_sleep(c)) & 0x18 == 0,
        spec_enter_sleep(c).sleeping,
        spec_status(spec_wake_up(c, false)) & 0x10 == 0,
        spec_status(spec_wake_up(c, false)) & 0x08 == 0x08,
        spec_status(spec_wake_up(c, true)) & 0x10 == 0x10,
        spec_status(spec_wake_up(c, true)) & 0x08 == 0,
        !spec_wake_up(c, false).sleeping,
        !spec_wake_up(c, true).sleeping,
{
    let s = spec_status(c);
    assert(spec_read_register(CpuView { sleeping: true, ..c }, registers::STATUS) == s);
    assert(spec_read_register(CpuView { sleeping: false, ..c }, registers::STATUS) == s);
    assert((s & !0x18u8) & 0x18 == 0) by (bit_vector);
    assert(((s | 0x08u8) & !0x10u8) & 0x10 == 0) by (bit_vector);
    assert(((s | 0x08u8) & !0x10u8) & 0x08 == 0x08) by (bit_vector);
    assert(((s | 0x10u8) & !0x08u8) & 0x10 == 0x10) by (bit_vector);
    assert(((s | 0x10u8) & !0x08u8) & 0x08 == 0) by (bit_vector);
}

/// A CALL at stack depth 8 discards the oldest entry and keeps the
/// depth at 8; a matching number of returns still drains the stack to
/// empty, with no underflow error on the way.
pub proof fn lemma_stack_overflow_then_returns(m: MemView, address: u16)
    requires
        m.wf(),
        m.sp == STACK_DEPTH,
    ensures
        spec_push_stack(m, address).sp == STACK_DEPTH,
        spec_push_stack(m, address).stack == m.stack.subrange(1, STACK_DEPTH as int).push(
            address & 0x1FFF,
        ),
        ({
            let m0 = spec_push_stack(m, address);
            let m1 = spec_pop_stack(m0).0;
            let m2 = spec_pop_stack(m1).0;
            let m3 = spec_pop_stack(m2).0;
            let m4 = spec_pop_stack(m3).0;
            let m5 = spec_pop_stack(m4).0;
            let m6 = spec_pop_stack(m5).0;
            let m7 = spec_pop_stack(m6).0;
            spec_pop_stack(m7).0.sp == 0
        }),
{
}

/// Popping at any positive depth decrements the depth by exactly one,
/// and popping an empty stack yields 0 and is not an error.
pub proof fn lemma_pop_decrements(m: MemView)
    ensures
        m.sp > 0 ==> spec_pop_stack(m).0.sp == m.sp - 1,
        m.sp == 0 ==> spec_pop_stack(m).0 == m && spec_pop_stack(m).1 == 0,
{
}

/// With `PCLATH & 0x18 = 0x18`, GOTO and CALL load the upper PC bits
/// accordingly: the new PC is `0x1800 | k`.
pub proof fn lemma_jump_pclath_bits(c: CpuView, k: u16)
    requires
        k < 0x800,
        c.mem.data.len() > registers::PCLATH as int,
        c.mem.data[registers::PCLATH as int] & 0x18 == 0x18,
    ensures
        spec_goto(c, k).pc == 0x1800 | k,
        spec_call(c, k).pc == 0x1800 | k,
{
    let pclath = c.mem.data[registers::PCLATH as int];
    assert(pclath & 0x18 == 0x18 && k < 0x800 ==> ((((pclath as u16) & 0x18) << 8) | k) & 0x1FFF
        == 0x1800 | k) by (bit_vector);
    let c1 = CpuView { mem: spec_push_stack(c.mem, c.pc), ..c };
    assert(c1.mem.data == c.mem.data);
}

/// The state after `n` Timer0 ticks, with a flag recording whether any
/// tick reported an overflow.
pub open spec fn spec_t0_run(t: Timer0, n: nat) -> (Timer0, bool)
    decreases n,
{
    if n == 0 {
        (t, false)
    } else {
        let (t1, any) = spec_t0_run(t, (n - 1) as nat);
        let (t2, o) = spec_t0_tick(t1);
        (t2, any || o)
    }
}

/// The state after `n` Timer1 ticks, with a flag recording whether any
/// tick reported an overflow.
pub open spec fn spec_t1_run(t: Timer1, n: nat) -> (Timer1, bool)
    decreases n,
{
    if n == 0 {
        (t, false)
    } else {
        let (t1, any) = spec_t1_run(t, (n - 1) as nat);
        let (t2, o) = spec_t1_tick(t1);
        (t2, any || o)
    }
}

/// The state after `n` WDT ticks, with a flag recording whether any
/// tick reported a timeout.
pub open spec fn spec_wdt_run(w: Wdt, n: nat) -> (Wdt, bool)
    decreases n,
{
    if n == 0 {
        (w, false)
    } else {
        let (w1, any) = spec_wdt_run(w, (n - 1) as nat);
        let (w2, o) = spec_wdt_tick(w1);
        (w2, any || o)
    }
}

/// Timer0 with prescaler 1:N, internally clocked, counts k ticks into
/// counter k / N and prescaler k mod N, with no overflow before
/// 256 x N ticks.
proof fn lemma_t0_counts(t: Timer0, k: nat)
    requires
        t.wf(),
        !t.clock_source_external,
        !t.prescaler_assigned_to_wdt,
        t.counter == 0,
        t.prescaler == 0,
        k <= 256 * t.prescaler_rate,
    ensures
        k < 256 * t.prescaler_rate ==> !spec_t0_run(t, k).1 && spec_t0_run(t, k).0 == (Timer0 {
            counter: (k / t.prescaler_rate as nat) as u8,
            prescaler: (k % t.prescaler_rate as nat) as u16,
            ..t
        }),
        k == 256 * t.prescaler_rate ==> spec_t0_run(t, k).1 && spec_t0_run(t, k).0 == (Timer0 {
            counter: 0,
            prescaler: 0,
            ..t
        }) && !spec_t0_run(t, (k - 1) as nat).1,
    decreases k,
{
    let n = t.prescaler_rate as int;
    if k > 0 {
        lemma_t0_counts(t, (k - 1) as nat);
        let j = (k - 1) as int;
        if k as int == 256 * n {
            vstd::arithmetic::mul::lemma_mul_is_commutative(n, 256);
            vstd::arithmetic::div_mod::lemma_div_multiples_vanish(256, n);
            vstd::arithmetic::div_mod::lemma_mod_multiples_basic(256, n);
        }
        vstd::arithmetic::div_mod::lemma_fundamental_div_mod(j, n);
        vstd::arithmetic::div_mod::lemma_mod_bound(j, n);
        if j / n >= 256 {
            vstd::arithmetic::mul::lemma_mul_inequality(256, j / n, n);
        }
        if j % n == n - 1 {
            vstd::arithmetic::mul::lemma_mul_is_distributive_add(n, j / n, 1);
            assert(k as int == n * (j / n + 1));
            vstd::arithmetic::mul::lemma_mul_is_commutative(n, j / n + 1);
            vstd::arithmetic::div_mod::lemma_div_multiples_vanish(j / n + 1, n);
            vstd::arithmetic::div_mod::lemma_mod_multiples_basic(j / n + 1, n);
            assert(k as int / n == j / n + 1);
            assert(k as int % n == 0);
        } else {
            vstd::arithmetic::mul::lemma_mul_is_commutative(n, j / n);
            vstd::arithmetic::div_mod::lemma_fundamental_div_mod_converse(
                k as int,
                n,
                j / n,
                j % n + 1,
            );
            assert(k as int / n == j / n);
            assert(k as int % n == j % n + 1);
        }
    } else {
        vstd::arithmetic::div_mod::lemma_fundamental_div_mod_converse(0, n, 0, 0);
    }
}

/// Timer0 with prescaler 1:N overflows after exactly 256 x N cycles
/// from a write of 0: the overflow fires on the (256 x N)-th tick and
/// on none before it.
pub proof fn lemma_t0_overflow_period(t: Timer0)
    requires
        t.wf(),
        !t.clock_source_external,
        !t.prescaler_assigned_to_wdt,
        t.counter == 0,
        t.prescaler == 0,
    ensures
        spec_t0_run(t, (256 * t.prescaler_rate) as nat).1,
        !spec_t0_run(t, (256 * t.prescaler_rate - 1) as nat).1,
{
    lemma_t0_counts(t, (256 * t.prescaler_rate) as nat);
}

/// Timer1 with prescaler 1:N, enabled and internally clocked, counts k
/// ticks into counter k / N and prescaler k mod N, with no overflow
/// before 65536 x N ticks.
proof fn lemma_t1_counts(t: Timer1, k: nat)
    requires
        t.wf(),
        t.enabled,
        !t.clock_source_external,
        t.counter == 0,
        t.prescaler == 0,
        k <= 65536 * t.prescaler_rate,
    ensures
        k < 65536 * t.prescaler_rate ==> !spec_t1_run(t, k).1 && spec_t1_run(t, k).0 == (Timer1 {
            counter: (k / t.prescaler_rate as nat) as u16,
            prescaler: (k % t.prescaler_rate as nat) as u16,
            ..t
        }),
        k == 65536 * t.prescaler_rate ==> spec_t1_run(t, k).1 && spec_t1_run(t, k).0 == (Timer1 {
            counter: 0,
            prescaler: 0,
            ..t
        }) && !spec_t1_run(t, (k - 1) as nat).1,
    decreases k,
{
    let n = t.prescaler_rate as int;
    if k > 0 {
        lemma_t1_counts(t, (k - 1) as nat);
        let j = (k - 1) as int;
        if k as int == 65536 * n {
            vstd::arithmetic::mul::lemma_mul_is_commutative(n, 65536);
            vstd::arithmetic::div_mod::lemma_div_multiples_vanish(65536, n);
            vstd::arithmetic::div_mod::lemma_mod_multiples_basic(65536, n);
        }
        vstd::arithmetic::div_mod::lemma_fundamental_div_mod(j, n);
        vstd::arithmetic::div_mod::lemma_mod_bound(j, n);
        if j / n >= 65536 {
            vstd::arithmetic::mul::lemma_mul_inequality(65536, j / n, n);
        }
        if j % n == n - 1 {
            vstd::arithmetic::mul::lemma_mul_is_distributive_add(n, j / n, 1);
            assert(k as int == n * (j / n + 1));
            vstd::arithmetic::mul::lemma_mul_is_commutative(n, j / n + 1);
            vstd::arithmetic::div_mod::lemma_div_multiples_vanish(j / n + 1, n);
            vstd::arithmetic::div_mod::lemma_mod_multiples_basic(j / n + 1, n);
            assert(k as int / n == j / n + 1);
            assert(k as int % n == 0);
        } else {
            vstd::arithmetic::mul::lemma_mul_is_commutative(n, j / n);
            vstd::arithmetic::div_mod::lemma_fundamental_div_mod_converse(
                k as int,
                n,
                j / n,
                j % n + 1,
            );
            assert(k as int / n == j / n);
            assert(k as int % n == j % n + 1);
        }
    } else {
        vstd::arithmetic::div_mod::lemma_fundamental_div_mod_converse(0, n, 0, 0);
    }
}

/// Timer1 with prescaler 1:N, starting from 0x0000, enabled and
/// internally clocked, overflows after exactly 65536 x N cycles: the
/// overflow fires on the (65536 x N)-th tick and on none before it.
pub proof fn lemma_t1_overflow_period(t: Timer1)
    requires
        t.wf(),
        t.enabled,
        !t.clock_source_external,
        t.counter == 0,
        t.prescaler == 0,
    ensures
        spec_t1_run(t, (65536 * t.prescaler_rate) as nat).1,
        !spec_t1_run(t, (65536 * t.prescaler_rate - 1) as nat).1,
{
    lemma_t1_counts(t, (65536 * t.prescaler_rate) as nat);
}

/// The WDT with prescaler 1:N, enabled, counts k ticks into counter
/// k / N and prescaler k mod N, with no timeout before 18000 x N ticks.
proof fn lemma_wdt_counts(w: Wdt, k: nat)
    requires
        w.wf(),
        w.enabled,
        w.prescaler_assigned || w.prescaler_rate == 1,
        w.counter == 0,
        w.prescaler == 0,
        k <= 18000 * w.prescaler_rate,
    ensures
        k < 18000 * w.prescaler_rate ==> !spec_wdt_run(w, k).1 && spec_wdt_run(w, k).0 == (Wdt {
            counter: (k / w.prescaler_rate as nat) as u32,
            prescaler: (k % w.prescaler_rate as nat) as u16,
            ..w
        }),
        k == 18000 * w.prescaler_rate ==> spec_wdt_run(w, k).1 && spec_wdt_run(w, k).0 == (Wdt {
            counter: 0,
            prescaler: 0,
            ..w
        }) && !spec_wdt_run(w, (k - 1) as nat).1,
    decreases k,
{
    let n = w.prescaler_rate as int;
    if k > 0 {
        lemma_wdt_counts(w, (k - 1) as nat);
        let j = (k - 1) as int;
        if k as int == 18000 * n {
            vstd::arithmetic::mul::lemma_mul_is_commutative(n, 18000);
            vstd::arithmetic::div_mod::lemma_div_multiples_vanish(18000, n);
            vstd::arithmetic::div_mod::lemma_mod_multiples_basic(18000, n);
        }
        vstd::arithmetic::div_mod::lemma_fundamental_div_mod(j, n);
        vstd::arithmetic::div_mod::lemma_mod_bound(j, n);
        if j / n >= 18000 {
            vstd::arithmetic::mul::lemma_mul_inequality(18000, j / n, n);
        }
        if j % n == n - 1 {
            vstd::arithmetic::mul::lemma_mul_is_distributive_add(n, j / n, 1);
            assert(k as int == n * (j / n + 1));
            vstd::arithmetic::mul::lemma_mul_is_commutative(n, j / n + 1);
            vstd::arithmetic::div_mod::lemma_div_multiples_vanish(j / n + 1, n);
            vstd::arithmetic::div_mod::lemma_mod_multiples_basic(j / n + 1, n);
            assert(k as int / n == j / n + 1);
            assert(k as int % n == 0);
        } else {
            vstd::arithmetic::mul::lemma_mul_is_commutative(n, j / n);
            vstd::arithmetic::div_mod::lemma_fundamental_div_mod_converse(
                k as int,
                n,
                j / n,
                j % n + 1,
            );
            assert(k as int / n == j / n);
            assert(k as int % n == j % n + 1);
        }
    } else {
        vstd::arithmetic::div_mod::lemma_fundamental_div_mod_converse(0, n, 0, 0);
    }
}

/// The WDT with prescaler 1:N times out after exactly 18000 x N cycles
/// from the last clear or reset: the timeout fires on the
/// (18000 x N)-th tick and on none before it.
pub proof fn lemma_wdt_timeout_period(w: Wdt)
    requires
        w.wf(),
        w.enabled,
        w.prescaler_assigned || w.prescaler_rate == 1,
        w.counter == 0,
        w.prescaler == 0,
    ensures
        spec_wdt_run(w, (18000 * w.prescaler_rate) as nat).1,
        !spec_wdt_run(w, (18000 * w.prescaler_rate - 1) as nat).1,
{
    lemma_wdt_counts(w, (18000 * w.prescaler_rate) as nat);
}

/// A register write through the dispatcher never changes the size of
/// the data store: every arm updates bytes in place.
#[verifier::rlimit(100)]
#[verifier::spinoff_prover]
pub broadcast proof fn lemma_write_register_preserves_len(c: CpuView, address: u8, value: u8)
    requires
        c.mem.data.len() == crate::memory::DATA_MEMORY_SIZE,
    ensures
        (#[trigger] spec_write_register(c, address, value)).mem.data.len()
            == crate::memory::DATA_MEMORY_SIZE,
{
    crate::bits::lemma_bank_fold(address as usize);
    crate::bits::lemma_mask_7bit(address as usize);
    crate::bits::lemma_mask_7bit(
        c.mem.data[registers::FSR as int] as usize,
    );
}

/// Executing any single instruction on an awake CPU leaves it awake,
/// except SLEEP, which puts it to sleep with STATUS.PD cleared: a
/// sleeping CPU always shows PD = 0.
#[verifier::rlimit(100)]
#[verifier::spinoff_prover]
pub proof fn lemma_execute_preserves_sleep_pd(c: CpuView, i: Instruction)
    requires
        c.mem.data.len() == crate::memory::DATA_MEMORY_SIZE,
        !c.sleeping,
    ensures
        spec_execute(c, i).0.sleeping ==> spec_status(spec_execute(c, i).0) & 0x08 == 0,
        spec_execute(c, i).0.mem.data.len() == crate::memory::DATA_MEMORY_SIZE,
{
    broadcast use lemma_write_register_preserves_len;

    match i {
        Instruction::SLEEP => {
            let c1 = CpuView { sleeping: true, ..c };
            let st = spec_read_register(c1, registers::STATUS);
            assert((st & !0x18u8) & 0x08 == 0) by (bit_vector);
        },
        Instruction::ADDWF { f, d } => {},
        Instruction::ANDWF { f, d } => {},
        Instruction::COMF { f, d } => {},
        Instruction::DECF { f, d } => {},
        Instruction::DECFSZ { f, d } => {},
        Instruction::INCF { f, d } => {},
        Instruction::INCFSZ { f, d } => {},
        Instruction::IORWF { f, d } => {},
        Instruction::MOVF { f, d } => {},
        Instruction::RLF { f, d } => {},
        Instruction::RRF { f, d } => {},
        Instruction::SUBWF { f, d } => {},
        Instruction::SWAPF { f, d } => {},
        Instruction::XORWF { f, d } => {},
        Instruction::CLRF { f } => {},
        Instruction::MOVWF { f } => {},
        Instruction::BCF { f, b } => {},
        Instruction::BSF { f, b } => {},
        Instruction::BTFSC { f, b } => {},
        Instruction::BTFSS { f, b } => {},
        Instruction::ADDLW { k } => {},
        Instruction::ANDLW { k } => {},
        Instruction::IORLW { k } => {},
        Instruction::MOVLW { k } => {},
        Instruction::RETLW { k } => {},
        Instruction::SUBLW { k } => {},
        Instruction::XORLW { k } => {},
        Instruction::CALL { k } => {},
        Instruction::GOTO { k } => {},
        Instruction::CLRW => {},
        Instruction::NOP => {},
        Instruction::CLRWDT => {},
        Instruction::RETFIE => {},
        Instruction::RETURN => {},
    }
}

/// One peripheral iteration never puts the CPU to sleep: a watchdog
/// reset wakes it, and otherwise the sleep flag and STATUS byte are
/// untouched (the timer flags land in INTCON and PIR1).
#[verifier::rlimit(100)]
#[verifier::spinoff_prover]
pub proof fn lemma_tick_cycle_preserves_sleep_pd(c: CpuView)
    requires
        c.mem.data.len() == crate::memory::DATA_MEMORY_SIZE,
    ensures
        spec_tick_cycle(c).1 ==> !spec_tick_cycle(c).0.sleeping,
        !spec_tick_cycle(c).1 ==> spec_tick_cycle(c).0.sleeping == c.sleeping && spec_status(
            spec_tick_cycle(c).0,
        ) == spec_status(c),
        spec_tick_cycle(c).0.mem.data.len() == crate::memory::DATA_MEMORY_SIZE,
{
    broadcast use lemma_write_register_preserves_len;

    assert(((0x0Cusize | 0x80) & 0x7F) == 0x0C) by (bit_vector);
}

/// The execution phase of a step keeps the invariant: starting awake,
/// the CPU ends sleeping only through SLEEP, which leaves PD = 0.
#[verifier::rlimit(100)]
#[verifier::spinoff_prover]
proof fn lemma_step_exec_preserves_sleep_pd(s: SimView, c: CpuView)
    requires
        c.mem.data.len() == crate::memory::DATA_MEMORY_SIZE,
        !c.sleeping,
    ensures
        spec_step_exec(s, c).0.cpu.sleeping ==> spec_status(spec_step_exec(s, c).0.cpu) & 0x08
            == 0,
{
    let c1 = if spec_should_interrupt(
        spec_read_register(c, registers::INTCON),
        spec_read_register(c, registers::PIE1),
        spec_read_register(c, registers::PIR1),
    ) && !c.interrupts.interrupt_triggered {
        spec_service_interrupt(c)
    } else {
        c
    };
    assert(c1.mem.data.len() == crate::memory::DATA_MEMORY_SIZE);
    assert(!c1.sleeping);
    let word = c1.mem.program[(c1.pc as usize & 0x3FF) as int];
    match crate::instruction::spec_decode(word) {
        None => {},
        Some(instruction) => {
            let c2 = crate::cpu::spec_inc_pc(c1);
            lemma_execute_preserves_sleep_pd(c2, instruction);
            let (c3, cycles) = spec_execute(c2, instruction);
            lemma_tick_cycle_preserves_sleep_pd(c3);
            let (c4, reset1) = spec_tick_cycle(c3);
            if !reset1 && cycles == 2 {
                lemma_tick_cycle_preserves_sleep_pd(c4);
            }
        },
    }
}

/// Sleep shows power-down: the invariant "a sleeping CPU has
/// STATUS.PD = 0" is established by SLEEP and preserved by every whole
/// simulation step, whatever the program does.
#[verifier::rlimit(100)]
#[verifier::spinoff_prover]
pub proof fn lemma_step_preserves_sleep_pd(s: SimView)
    requires
        s.cpu.mem.data.len() == crate::memory::DATA_MEMORY_SIZE,
        s.cpu.sleeping ==> spec_status(s.cpu) & 0x08 == 0,
    ensures
        spec_step(s).0.cpu.sleeping ==> spec_status(spec_step(s).0.cpu) & 0x08 == 0,
{
    reveal(spec_step);
    if s.state != crate::simulator::SimulatorState::Halted {
        if s.cpu.sleeping {
            let (w1, timeout) = crate::wdt::spec_wdt_tick(s.cpu.wdt);
            let c1 = CpuView { wdt: w1, ..s.cpu };
            if timeout {
            } else if spec_should_interrupt(
                spec_read_register(c1, registers::INTCON),
                spec_read_register(c1, registers::PIE1),
                spec_read_register(c1, registers::PIR1),
            ) {
                lemma_step_exec_preserves_sleep_pd(s, spec_wake_up(c1, true));
            }
        } else {
            lemma_step_exec_preserves_sleep_pd(s, s.cpu);
        }
    }
}

/// A data record stored into a byte buffer is read back intact: every
/// byte of the payload lands at its offset, bytes outside the record
/// keep their previous value, and uncovered new bytes read 0xFF.
pub proof fn lemma_store_roundtrip(buf: Seq<u8>, at: int, data: Seq<u8>)
    requires
        at >= 0,
    ensures
        forall|i: int| 0 <= i < data.len() ==> crate::hexloader::spec_store(buf, at, data)[at + i]
            == data[i],
        forall|i: int|
            0 <= i < buf.len() && !(at <= i < at + data.len())
                ==> crate::hexloader::spec_store(buf, at, data)[i] == buf[i],
        forall|i: int|
            buf.len() <= i < at && i >= 0 ==> crate::hexloader::spec_store(buf, at, data)[i]
                == 0xFF,
{
}

} // verus!
