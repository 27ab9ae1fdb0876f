use picsim::{Simulator, SimulatorState};
use picsim::cpu::registers;

#[test]
fn scenario_led_blink_then_halt() {
    let mut sim = Simulator::new();
    sim.reset();

    // MOVLW 0x30; MOVWF GPIO; BCF GPIO,0; BSF GPIO,0; BCF GPIO,0;
    // BSF GPIO,0; GOTO 6
    let program = [0x3030u16, 0x0085, 0x1005, 0x1405, 0x1005, 0x1405, 0x2806];
    sim.load_program(&program);

    let mut latch_bits = Vec::new();
    for _ in 0..6 {
        sim.step().unwrap();
        latch_bits.push(sim.cpu().gpio().get_output_values() & 0x01);
    }

    assert_eq!(sim.cpu().get_pc(), 0x006);
    assert_eq!(sim.cpu().read_w(), 0x30);
    // Latch bit 0 after the MOVLW and through the toggles: 0,0,1,0,1
    assert_eq!(latch_bits[1..], [0, 0, 1, 0, 1]);
    assert_eq!(sim.cpu().gpio().get_output_values() & 0x01, 1);
}

#[test]
fn scenario_movlw_movwf_nop() {
    let mut sim = Simulator::new();
    sim.reset();

    sim.load_program(&[0x3055, 0x00A0, 0x0000]);
    sim.run_n_instructions(3).unwrap();

    assert_eq!(sim.cpu().read_w(), 0x55);
    assert_eq!(sim.cpu().read_register(0x20), 0x55);
    assert_eq!(sim.stats().instructions_executed, 3);
    assert_eq!(sim.stats().cycles_elapsed, 3);
}

#[test]
fn scenario_breakpoint_stops_run() {
    let mut sim = Simulator::new();
    sim.reset();

    sim.load_program(&[0x3055, 0x00A0, 0x2800]);
    sim.add_breakpoint(0x002);

    sim.run().unwrap();
    assert_eq!(sim.cpu().get_pc(), 0x002);
    assert_eq!(sim.state(), SimulatorState::Paused);
}

#[test]
fn scenario_timer0_overflow_raises_t0if() {
    let mut sim = Simulator::new();
    sim.reset();

    // Configure OPTION_REG with PSA = 1 through a Bank 1 write, then
    // preload TMR0 = 0xFE through a Bank 0 write
    {
        let cpu = sim.cpu_mut();
        cpu.set_status_bit(picsim::cpu::status_bits::RP0);
        cpu.write_register(registers::TMR0, 0x08); // OPTION_REG: PSA=1
        cpu.clear_status_bit(picsim::cpu::status_bits::RP0);
        cpu.write_register(registers::TMR0, 0xFE);
    }

    // Enough NOPs that 2 cycles pass
    sim.load_program(&[0x0000, 0x0000, 0x0000]);
    sim.step().unwrap();
    sim.step().unwrap();

    // Timer0 wrapped 0xFF -> 0x00: T0IF (INTCON bit 2) is set
    assert_eq!(sim.cpu().read_register(registers::INTCON) & 0x04, 0x04);
}

#[test]
fn scenario_timer1_overflow_raises_tmr1if() {
    let mut sim = Simulator::new();
    sim.reset();

    {
        let cpu = sim.cpu_mut();
        cpu.write_register(registers::T1CON, 0x01); // TMR1ON, 1:1, internal
        cpu.write_register(registers::TMR1H, 0xFF);
        cpu.write_register(registers::TMR1L, 0xFE);
    }

    sim.load_program(&[0x0000, 0x0000, 0x0000]);
    sim.step().unwrap();
    sim.step().unwrap();

    // After 2 cycles of ticking: PIR1 bit 0 set and TMR1 wrapped to 0
    assert_eq!(sim.cpu().read_register(registers::PIR1) & 0x01, 0x01);
    assert_eq!(sim.cpu().timers().timer1.get_counter(), 0x0000);
}

#[test]
fn scenario_interrupt_preemption() {
    let mut sim = Simulator::new();
    sim.reset();

    // ISR at 0x004 (NOP; RETFIE); GOTO-to-self at 0x006
    let program = [
        0x0000u16, // 0x000: NOP
        0x0000,    // 0x001: NOP
        0x0000,    // 0x002: NOP
        0x0000,    // 0x003: NOP
        0x0000,    // 0x004: NOP (ISR entry)
        0x0009,    // 0x005: RETFIE
        0x2806,    // 0x006: GOTO 0x006
    ];
    sim.load_program(&program);
    sim.cpu_mut().set_pc(0x006);
    // GIE=1, T0IE=1, T0IF=1 pre-set
    sim.cpu_mut().write_register(registers::INTCON, 0xA4);

    // The next step redirects PC from 0x006 to the vector
    sim.step().unwrap();
    assert!(sim.cpu().interrupts().in_isr());
    assert_eq!(sim.cpu().read_register(registers::INTCON) & 0x80, 0); // GIE cleared
    assert_eq!(sim.cpu().memory().get_stack()[0], 0x006); // return address saved
    assert_eq!(sim.cpu().get_pc(), 0x005); // NOP at the vector executed

    // RETFIE pops, sets GIE, and clears the latch
    sim.step().unwrap();
    assert!(!sim.cpu().interrupts().in_isr());
    assert_eq!(sim.cpu().read_register(registers::INTCON) & 0x80, 0x80);
    assert_eq!(sim.cpu().get_pc(), 0x006);
}

#[test]
fn scenario_in_isr_suppresses_reentry() {
    let mut sim = Simulator::new();
    sim.reset();

    let program = [0x0000u16, 0x0000, 0x0000, 0x0000, 0x0000, 0x0000, 0x2806];
    sim.load_program(&program);
    sim.cpu_mut().set_pc(0x006);
    sim.cpu_mut().write_register(registers::INTCON, 0xA4);

    sim.step().unwrap(); // serviced: in ISR now
    assert!(sim.cpu().interrupts().in_isr());
    let depth = sim.cpu().memory().stack_depth();

    // T0IF is still set, but while in the ISR no second service happens,
    // even with GIE forced back on
    sim.cpu_mut().write_register(registers::INTCON, 0xA4);
    sim.step().unwrap();
    assert_eq!(sim.cpu().memory().stack_depth(), depth);
}

#[test]
fn scenario_interrupt_adds_two_cycles() {
    let mut sim = Simulator::new();
    sim.reset();

    let program = [0x0000u16, 0x0000, 0x0000, 0x0000, 0x0000, 0x0009, 0x2806];
    sim.load_program(&program);
    sim.cpu_mut().set_pc(0x006);
    sim.cpu_mut().write_register(registers::INTCON, 0xA4);

    // Servicing adds 2 cycles to the NOP's 1
    assert_eq!(sim.step(), Ok(3));
}

#[test]
fn scenario_goto_with_pclath_bits() {
    let mut sim = Simulator::new();
    sim.reset();

    // With PCLATH & 0x18 = 0x18, GOTO 0x005 lands at 0x1805
    sim.load_program(&[0x2805]); // GOTO 0x005
    sim.cpu_mut().write_register(registers::PCLATH, 0x18);
    sim.step().unwrap();
    assert_eq!(sim.cpu().get_pc(), 0x1805);
}

#[test]
fn scenario_call_at_depth_8_discards_oldest() {
    let mut sim = Simulator::new();
    sim.reset();

    // Fill the stack to depth 8, then one more CALL
    for i in 0..8u16 {
        sim.cpu_mut().set_pc(0x100 + i);
        sim.cpu_mut().push_pc();
    }
    assert_eq!(sim.cpu().memory().stack_depth(), 8);

    sim.cpu_mut().set_pc(0x200);
    sim.cpu_mut().push_pc();
    assert_eq!(sim.cpu().memory().stack_depth(), 8);
    // The oldest entry (0x100) is gone; the newest is on top
    assert_eq!(sim.cpu().memory().get_stack()[0], 0x101);
    assert_eq!(sim.cpu().memory().get_stack()[7], 0x200);

    // Eight pops drain the stack to empty with no underflow error
    for _ in 0..8 {
        sim.cpu_mut().pop_pc();
    }
    assert_eq!(sim.cpu().memory().stack_depth(), 0);
    assert_eq!(sim.cpu_mut().pop_pc(), 0);
}
