use chipeyte::interface::{Audible, Color, Controllable, Drawable, UserAction};
use chipeyte::memory::Memory;
use chipeyte::mock::MockUI;
use chipeyte::random::random_number;
use chipeyte::{ChipeyteError, ChipeyteInterpreter, Config, Ops, ProgramState, CPU};
use std::time::Duration;

fn ui() -> MockUI {
    MockUI::init(Color(0, 255, 0), Color(0, 0, 0))
}

#[test]
fn tick_call_and_return_round_trip() {
    let mut cpu = CPU::new(0x0200);
    let mut memory = Memory::new();
    let mut ui = ui();
    memory.set_u16(0x0200, 0x2AAA);
    memory.set_u16(0x0AAA, 0x00EE);

    let (pc, op) = cpu.tick(&mut memory, &mut ui.screen, &mut ui.controller).unwrap();
    assert_eq!((pc, op), (0x0AAA, Ops::CALL(0x0AAA)));
    assert_eq!(cpu.registers.sp, 2);
    assert_eq!(cpu.registers.pc, 0x0AAA);

    let (pc, op) = cpu.tick(&mut memory, &mut ui.screen, &mut ui.controller).unwrap();
    assert_eq!((pc, op), (0x0202, Ops::RET));
    assert_eq!(cpu.registers.pc, 0x0202);
    assert_eq!(cpu.registers.sp, 0);
}

#[test]
fn tick_advances_before_executing() {
    let mut cpu = CPU::new(0x0200);
    let mut memory = Memory::new();
    let mut ui = ui();
    memory.set_u16(0x0200, 0x6142);
    memory.set_u16(0x0202, 0x3142);

    cpu.tick(&mut memory, &mut ui.screen, &mut ui.controller).unwrap();
    assert_eq!((cpu.registers.pc, cpu.registers.v1), (0x0202, 0x42));
    cpu.tick(&mut memory, &mut ui.screen, &mut ui.controller).unwrap();
    assert_eq!(cpu.registers.pc, 0x0206);
}

#[test]
fn tick_on_zero_word_halts_without_executing() {
    let mut cpu = CPU::new(0x0200);
    let mut memory = Memory::new();
    let mut ui = ui();
    let (pc, op) = cpu.tick(&mut memory, &mut ui.screen, &mut ui.controller).unwrap();
    assert_eq!((pc, op), (0x0200, Ops::UNKNOWN(0)));
    assert_eq!(cpu, CPU::new(0x0200));
}

#[test]
fn tick_past_end_of_memory_fails() {
    let mut cpu = CPU::new(0x0fff);
    let mut memory = Memory::new();
    let mut ui = ui();
    match cpu.tick(&mut memory, &mut ui.screen, &mut ui.controller) {
        Err(ChipeyteError::OpFailed(Ops::UNKNOWN(0x0fff), _)) => {}
        other => panic!("unexpected result: {:?}", other),
    }
    assert_eq!(cpu.registers.pc, 0x0fff);
}

#[test]
fn tick_failure_of_operation_is_reported() {
    let mut cpu = CPU::new(0x0200);
    let mut memory = Memory::new();
    let mut ui = ui();
    memory.set_u16(0x0200, 0xF01E);
    memory.set_u16(0x0202, 0x00E0);
    cpu.registers.i = 0x0fff;
    cpu.registers.v0 = 1;
    match cpu.tick(&mut memory, &mut ui.screen, &mut ui.controller) {
        Err(ChipeyteError::OpFailed(Ops::ADDI(0), _)) => {}
        other => panic!("unexpected result: {:?}", other),
    }
}

#[test]
fn interpreter_runs_a_program_to_its_end() {
    let mut interpreter = ChipeyteInterpreter::new(Config::default());
    let mut ui = ui();
    assert!(interpreter.load_program(&vec![0x60, 0x05, 0xF0, 0x29, 0xD0, 0x05]));
    for _ in 0..3 {
        assert_eq!(
            interpreter.step(&mut ui.screen, &mut ui.controller).unwrap(),
            ProgramState::Running
        );
    }
    assert_eq!(ui.screen.get_pixels().len(), 14);
    assert_eq!(
        interpreter.step(&mut ui.screen, &mut ui.controller).unwrap(),
        ProgramState::End
    );
}

#[test]
fn interpreter_rejects_a_program_larger_than_the_program_area() {
    let mut interpreter = ChipeyteInterpreter::new(Config::default());
    assert!(!interpreter.load_program(&vec![1u8; 0x0e01]));
    assert!(interpreter.load_program(&vec![1u8; 0x0e00]));
}

#[test]
fn interpreter_clock_speed_defaults_or_follows_config() {
    let default = ChipeyteInterpreter::new(Config::default());
    assert_eq!(default.clock_speed(), Duration::from_nanos(1_500_000));
    let custom = ChipeyteInterpreter::new(Config::new(Some(Duration::from_millis(2))));
    assert_eq!(custom.clock_speed(), Duration::from_millis(2));
}

#[test]
fn interpreter_drives_timers_and_sound() {
    let mut interpreter = ChipeyteInterpreter::new(Config::default());
    let mut ui = ui();
    // LD V0, 2; LD ST, V0; LD DT, V0
    assert!(interpreter.load_program(&vec![0x60, 0x02, 0xF0, 0x18, 0xF0, 0x15]));
    for _ in 0..3 {
        interpreter.step(&mut ui.screen, &mut ui.controller).unwrap();
    }
    interpreter.update_sound(&mut ui.speaker);
    assert!(ui.speaker.is_playing());
    interpreter.decrement_timers();
    interpreter.update_sound(&mut ui.speaker);
    assert!(ui.speaker.is_playing());
    interpreter.decrement_timers();
    interpreter.update_sound(&mut ui.speaker);
    assert!(!ui.speaker.is_playing());
    interpreter.decrement_timers();
    interpreter.update_sound(&mut ui.speaker);
    assert!(!ui.speaker.is_playing());
}

#[test]
fn user_actions_press_release_and_quit() {
    let mut ui = ui();
    assert!(!ChipeyteInterpreter::handle_user_action(UserAction::KeyDown(Some(0x5)), &mut ui.controller));
    assert!(ui.controller.is_pressed(0x5));
    assert!(!ChipeyteInterpreter::handle_user_action(UserAction::KeyDown(None), &mut ui.controller));
    assert!(!ChipeyteInterpreter::handle_user_action(UserAction::KeyUp(Some(0x5)), &mut ui.controller));
    assert!(!ui.controller.is_pressed(0x5));
    assert!(ChipeyteInterpreter::handle_user_action(UserAction::Quit, &mut ui.controller));
}

#[test]
fn random_numbers_stay_below_the_bound() {
    let mut seen_nonzero = false;
    for _ in 0..200 {
        let r = random_number(7);
        assert!(r < 7);
        if r != 0 {
            seen_nonzero = true;
        }
    }
    assert!(seen_nonzero);
}

#[test]
fn mock_screen_tracks_pixels() {
    let mut ui = ui();
    ui.screen.add_pixel(1, 2);
    ui.screen.add_pixel(1, 2);
    ui.screen.add_pixel(3, 4);
    assert!(ui.screen.has_pixel(1, 2));
    ui.screen.remove_pixel(1, 2);
    assert!(!ui.screen.has_pixel(1, 2));
    assert_eq!(ui.screen.get_pixels().len(), 1);
    assert!(ui.screen.poll_events().is_none());
    ui.screen.clear();
    assert!(ui.screen.get_pixels().is_empty());
}
