use picsim::{Simulator, SimulatorState, SimError};

#[test]
fn test_simulator_creation() {
    let sim = Simulator::new();
    assert_eq!(sim.state(), SimulatorState::Paused);
}

#[test]
fn test_load_and_run_simple_program() {
    let mut sim = Simulator::new();
    sim.reset();

    // Program: MOVLW 0x55, MOVWF 0x20, NOP
    let program = vec![
        0x3055, // MOVLW 0x55
        0x00A0, // MOVWF 0x20
        0x0000, // NOP
    ];

    sim.load_program(&program);

    // Run 3 instructions
    sim.run_n_instructions(3).unwrap();

    assert_eq!(sim.cpu().read_w(), 0x55);
    assert_eq!(sim.cpu().read_register(0x20), 0x55);
    assert_eq!(sim.stats().instructions_executed, 3);
}

#[test]
fn test_breakpoint() {
    let mut sim = Simulator::new();
    sim.reset();

    // Program with loop
    let program = vec![
        0x3055, // 0x000: MOVLW 0x55
        0x00A0, // 0x001: MOVWF 0x20
        0x2800, // 0x002: GOTO 0x000 (infinite loop)
    ];

    sim.load_program(&program);
    sim.add_breakpoint(0x002);

    // Run until breakpoint
    sim.run().unwrap();

    assert_eq!(sim.cpu().get_pc(), 0x002);
    assert_eq!(sim.state(), SimulatorState::Paused);
}

#[test]
fn test_step() {
    let mut sim = Simulator::new();
    sim.reset();

    // MOVLW 0x42
    sim.load_program(&[0x3042]);

    let cycles = sim.step().unwrap();
    assert_eq!(cycles, 1);
    assert_eq!(sim.cpu().read_w(), 0x42);
    assert_eq!(sim.stats().instructions_executed, 1);
}

#[test]
fn test_step_on_halted_simulator_fails() {
    let mut sim = Simulator::new();
    sim.reset();
    sim.load_program(&[0x0000]);
    sim.halt();
    assert_eq!(sim.step(), Err(SimError::Halted));
}

#[test]
fn test_step_decode_error() {
    let mut sim = Simulator::new();
    sim.reset();
    // 0x0001 matches no instruction encoding
    sim.load_program(&[0x0001]);
    assert_eq!(sim.step(), Err(SimError::Decode { pc: 0, word: 0x0001 }));
}

#[test]
fn test_run_stops_with_error_state_on_decode_error() {
    let mut sim = Simulator::new();
    sim.reset();
    sim.load_program(&[0x0000, 0x0001]);
    assert!(sim.run().is_err());
    assert_eq!(sim.state(), SimulatorState::Error);
}

#[test]
fn test_run_n_cycles() {
    let mut sim = Simulator::new();
    sim.reset();
    // GOTO 0x000: an endless 2-cycle loop
    sim.load_program(&[0x2800]);
    sim.run_n_cycles(10).unwrap();
    assert!(sim.stats().cycles_elapsed >= 10);
}

#[test]
fn test_breakpoint_management() {
    let mut sim = Simulator::new();
    sim.add_breakpoint(1);
    sim.add_breakpoint(2);
    sim.add_breakpoint(1); // duplicate is not added twice
    assert_eq!(sim.breakpoints(), &[1, 2]);

    sim.remove_breakpoint(1);
    assert_eq!(sim.breakpoints(), &[2]);

    sim.clear_breakpoints();
    assert!(sim.breakpoints().is_empty());
}

#[test]
fn test_pause_and_halt() {
    let mut sim = Simulator::new();
    sim.reset();
    // Pausing a paused simulator changes nothing
    sim.pause();
    assert_eq!(sim.state(), SimulatorState::Paused);
    sim.halt();
    assert_eq!(sim.state(), SimulatorState::Halted);
}

#[test]
fn test_load_hex_string_into_simulator() {
    let mut sim = Simulator::new();
    sim.reset();
    sim.load_hex_string(":020000040000FA\n:02000000553079\n:020002002000DC\n:00000001FF\n")
        .unwrap();
    assert_eq!(sim.cpu().memory().read_program(0), 0x3055);
    assert_eq!(sim.cpu().memory().read_program(1), 0x0020);
    sim.run_n_instructions(1).unwrap();
    assert_eq!(sim.cpu().read_w(), 0x55);
}

#[test]
fn test_load_hex_string_error_keeps_state() {
    let mut sim = Simulator::new();
    sim.reset();
    let err = sim.load_hex_string(":0200000055307A\n").unwrap_err();
    assert_eq!(err.line, 1);
    assert_eq!(sim.cpu().get_pc(), 0);
}

#[test]
fn test_sleep_step_ticks_wdt_only() {
    let mut sim = Simulator::new();
    sim.reset();
    // SLEEP, then a word that would fail to decode if executed
    sim.load_program(&[0x0063, 0x0001]);
    sim.step().unwrap();
    assert!(sim.cpu().is_sleeping());

    // While sleeping, steps consume one cycle each and execute nothing
    let before = sim.cpu().get_pc();
    for _ in 0..10 {
        assert_eq!(sim.step(), Ok(1));
    }
    assert!(sim.cpu().is_sleeping());
    assert_eq!(sim.cpu().get_pc(), before);
}

#[test]
fn test_wdt_wakes_sleeping_cpu() {
    let mut sim = Simulator::new();
    sim.reset();
    sim.load_program(&[0x0063, 0x0000, 0x2801]); // SLEEP; NOP; GOTO 1
    sim.step().unwrap(); // executes SLEEP (one WDT tick happens in-step)
    assert!(sim.cpu().is_sleeping());

    // The WDT runs while sleeping and wakes the CPU at its period
    let mut woke = false;
    for _ in 0..picsim::wdt::NOMINAL_PERIOD {
        sim.step().unwrap();
        if !sim.cpu().is_sleeping() {
            woke = true;
            break;
        }
    }
    assert!(woke);
    // After a WDT wake: TO = 0, PD = 1
    assert!(!sim.cpu().test_status_bit(picsim::cpu::status_bits::TO));
    assert!(sim.cpu().test_status_bit(picsim::cpu::status_bits::PD));
}

#[test]
fn test_wdt_timeout_resets_running_cpu() {
    let mut sim = Simulator::new();
    sim.reset();
    // Endless loop of NOPs; never clears the watchdog
    sim.load_program(&[0x0000, 0x2800]);
    // Put something in W to observe the reset
    sim.cpu_mut().write_w(0x77);

    for _ in 0..picsim::wdt::NOMINAL_PERIOD + 4 {
        sim.step().unwrap();
    }
    // The watchdog fired and reset the CPU: W cleared, PC back at 0 range
    assert_eq!(sim.cpu().read_w(), 0);
}
