use chipeyte::interface::{Color, Controllable, Drawable};
use chipeyte::memory::Memory;
use chipeyte::mock::MockUI;
use chipeyte::operations::Callable;
use chipeyte::registers::Registers;
use chipeyte::{ChipeyteError, Ops, INSTRUCTION_LENGTH, PROGRAM_START};
use std::collections::HashSet;

fn ui() -> MockUI {
    MockUI::init(Color(0, 255, 0), Color(0, 0, 0))
}

fn run(ops: &[Ops], registers: &mut Registers, memory: &mut Memory, ui: &mut MockUI) {
    for op in ops {
        op.call(registers, memory, &mut ui.screen, &mut ui.controller)
            .unwrap();
    }
}

#[test]
fn op_sys_is_ignored() {
    let mut memory = Memory::new();
    let mut ui = ui();
    let mut registers = Registers::new(PROGRAM_START);

    Ops::SYS(0x0aaa)
        .call(&mut registers, &mut memory, &mut ui.screen, &mut ui.controller)
        .unwrap();

    assert_eq!(registers, Registers::new(PROGRAM_START));
    assert_eq!(memory, Memory::new());
}

#[test]
fn op_cls_clears_screen() {
    let mut memory = Memory::new();
    let mut ui = ui();
    let mut registers = Registers::new(PROGRAM_START);

    ui.screen.add_pixel(0, 0);
    ui.screen.add_pixel(0, 1);

    Ops::CLS
        .call(&mut registers, &mut memory, &mut ui.screen, &mut ui.controller)
        .unwrap();

    assert!(ui.screen.get_pixels().is_empty());
}

#[test]
fn op_ret_returns() {
    let mut memory = Memory::new();
    let mut ui = ui();
    let mut registers = Registers::new(PROGRAM_START);

    Ops::CALL(0x0aaa)
        .call(&mut registers, &mut memory, &mut ui.screen, &mut ui.controller)
        .unwrap();

    assert_eq!(registers.sp, 0x0002);
    assert_eq!(registers.pc, 0x0aaa);

    Ops::RET
        .call(&mut registers, &mut memory, &mut ui.screen, &mut ui.controller)
        .unwrap();

    assert_eq!(memory.get_u16(0x0002), 0x0200);
    assert_eq!(registers.sp, 0x00);
}

#[test]
fn op_jp_jumps_to_addr() {
    let mut memory = Memory::new();
    let mut ui = ui();
    let mut registers = Registers::new(PROGRAM_START);

    Ops::JP(0x0aaa)
        .call(&mut registers, &mut memory, &mut ui.screen, &mut ui.controller)
        .unwrap();

    assert_eq!(registers.pc, 0x0aaa);
}

#[test]
fn op_jp_must_be_within_memory_bounds() {
    let mut memory = Memory::new();
    let mut ui = ui();
    let mut registers = Registers::new(PROGRAM_START);

    if let Err(ChipeyteError::OpFailed(op, msg)) =
        Ops::JP(0xf000).call(&mut registers, &mut memory, &mut ui.screen, &mut ui.controller)
    {
        assert_eq!(op, Ops::JP(0xf000));
        assert!(msg.contains("out-of-bounds"));
        return;
    }

    panic!("Test failed!");
}

#[test]
fn op_call_calls_addr() {
    let mut memory = Memory::new();
    let mut ui = ui();
    let mut registers = Registers::new(PROGRAM_START);

    Ops::CALL(0x0aaa)
        .call(&mut registers, &mut memory, &mut ui.screen, &mut ui.controller)
        .unwrap();

    assert_eq!(registers.pc, 0x0aaa);
    assert_eq!(registers.sp, 0x0002);
    assert_eq!(memory.get_u16(0x0002), 0x0200);
}

#[test]
fn op_call_addr_must_be_within_memory_bounds() {
    let mut memory = Memory::new();
    let mut ui = ui();
    let mut registers = Registers::new(PROGRAM_START);

    if let Err(ChipeyteError::OpFailed(op, msg)) =
        Ops::CALL(0xf000).call(&mut registers, &mut memory, &mut ui.screen, &mut ui.controller)
    {
        assert_eq!(op, Ops::CALL(0xf000));
        assert!(msg.contains("out-of-bounds"));
        return;
    }

    panic!("Test failed!");
}

#[test]
fn op_se_vkk_increments_pc_if_v_equals_kk() {
    let mut memory = Memory::new();
    let mut ui = ui();
    let mut registers = Registers::new(PROGRAM_START);

    run(&[Ops::LD(0x08, 0x42), Ops::SE(0x08, 0x42)], &mut registers, &mut memory, &mut ui);

    assert_eq!(registers.sp, 0);
    assert_eq!(registers.pc, PROGRAM_START + INSTRUCTION_LENGTH);
}

#[test]
fn op_se_vkk_does_not_increment_pc_if_v_not_equal_to_kk() {
    let mut memory = Memory::new();
    let mut ui = ui();
    let mut registers = Registers::new(PROGRAM_START);

    run(&[Ops::LD(0x08, 0x84), Ops::SE(0x08, 0x42)], &mut registers, &mut memory, &mut ui);

    assert_eq!(registers.sp, 0);
    assert_eq!(registers.pc, PROGRAM_START);
}

#[test]
fn op_sne_vkk_does_increment_pc_if_v_equals_kk() {
    let mut memory = Memory::new();
    let mut ui = ui();
    let mut registers = Registers::new(PROGRAM_START);

    run(&[Ops::LD(0x08, 0x42), Ops::SNE(0x08, 0x42)], &mut registers, &mut memory, &mut ui);

    assert_eq!(registers.sp, 0);
    assert_eq!(registers.pc, PROGRAM_START);
}

#[test]
fn op_sne_vkk_increments_pc_if_v_not_equal_to_kk() {
    let mut memory = Memory::new();
    let mut ui = ui();
    let mut registers = Registers::new(PROGRAM_START);

    run(&[Ops::LD(0x08, 0x42), Ops::SNE(0x08, 0x84)], &mut registers, &mut memory, &mut ui);

    assert_eq!(registers.sp, 0);
    assert_eq!(registers.pc, PROGRAM_START + INSTRUCTION_LENGTH);
}

#[test]
fn op_se_vxvy_increments_pc_if_vx_equals_vy() {
    let mut memory = Memory::new();
    let mut ui = ui();
    let mut registers = Registers::new(PROGRAM_START);

    run(
        &[Ops::LD(0x08, 0x42), Ops::LD(0x0a, 0x42), Ops::SEV(0x08, 0x0a)],
        &mut registers,
        &mut memory,
        &mut ui,
    );

    assert_eq!(registers.sp, 0);
    assert_eq!(registers.pc, PROGRAM_START + INSTRUCTION_LENGTH);
}

#[test]
fn op_se_vxvy_does_not_increment_pc_if_vx_not_equal_to_vy() {
    let mut memory = Memory::new();
    let mut ui = ui();
    let mut registers = Registers::new(PROGRAM_START);

    run(
        &[Ops::LD(0x08, 0x42), Ops::LD(0x0a, 0x84), Ops::SE(0x08, 0x0a)],
        &mut registers,
        &mut memory,
        &mut ui,
    );

    assert_eq!(registers.sp, 0);
    assert_eq!(registers.pc, PROGRAM_START);
}

#[test]
fn op_ld_vkk_sets_register_v_to_kk() {
    let mut memory = Memory::new();
    let mut ui = ui();
    let mut registers = Registers::new(PROGRAM_START);

    run(&[Ops::LD(0x0a, 0x66)], &mut registers, &mut memory, &mut ui);

    assert_eq!(registers.va, 0x66);
}

#[test]
fn op_add_vkk_adds_kk_to_v() {
    let mut memory = Memory::new();
    let mut ui = ui();
    let mut registers = Registers::new(PROGRAM_START);

    Ops::LD(0, 30)
        .call(&mut registers, &mut memory, &mut ui.screen, &mut ui.controller)
        .expect("Failed to set register");
    Ops::ADD(0, 12)
        .call(&mut registers, &mut memory, &mut ui.screen, &mut ui.controller)
        .expect("Failed to add to register");

    assert_eq!(registers.v0, 42);
}

#[test]
fn op_add_vkk_adds_kk_to_v_no_carry() {
    let mut memory = Memory::new();
    let mut ui = ui();
    let mut registers = Registers::new(PROGRAM_START);

    Ops::LD(0, 200)
        .call(&mut registers, &mut memory, &mut ui.screen, &mut ui.controller)
        .expect("Failed to set register");
    Ops::ADD(0, 200)
        .call(&mut registers, &mut memory, &mut ui.screen, &mut ui.controller)
        .expect("Failed to add to register");

    assert_eq!(registers.v0, 144);
    assert_eq!(registers.vf, 0);
}

#[test]
fn op_ld_vxvy_stores_vx_in_vy() {
    let mut memory = Memory::new();
    let mut ui = ui();
    let mut registers = Registers::new(PROGRAM_START);

    run(&[Ops::LD(0x0b, 0x09), Ops::LDV(0x0a, 0x0b)], &mut registers, &mut memory, &mut ui);

    assert_eq!(registers.va, 9);
}

#[test]
fn op_or_vx_vy_stores_bitwise_or_in_vx() {
    let mut memory = Memory::new();
    let mut ui = ui();
    let mut registers = Registers::new(PROGRAM_START);

    run(
        &[Ops::LD(0x0a, 0b1001_0111), Ops::LD(0x0b, 0b0110_1001), Ops::OR(0x0a, 0x0b)],
        &mut registers,
        &mut memory,
        &mut ui,
    );

    assert_eq!(registers.va, 0b1111_1111);
}

#[test]
fn op_and_vx_vy_stores_bitwise_and_in_vx() {
    let mut memory = Memory::new();
    let mut ui = ui();
    let mut registers = Registers::new(PROGRAM_START);

    run(
        &[Ops::LD(0x0a, 0b1001_0111), Ops::LD(0x0b, 0b0110_1001), Ops::AND(0x0a, 0x0b)],
        &mut registers,
        &mut memory,
        &mut ui,
    );

    assert_eq!(registers.va, 0b0000_0001);
}

#[test]
fn op_xor_vx_vy_stores_bitwise_xor_in_vx() {
    let mut memory = Memory::new();
    let mut ui = ui();
    let mut registers = Registers::new(PROGRAM_START);

    run(
        &[Ops::LD(0x0a, 0b1001_0111), Ops::LD(0x0b, 0b0110_1001), Ops::XOR(0x0a, 0x0b)],
        &mut registers,
        &mut memory,
        &mut ui,
    );

    assert_eq!(registers.va, 0b1111_1110);
}

#[test]
fn op_add_vx_vy_adds_vy_to_vx_and_sets_carry() {
    let mut memory = Memory::new();
    let mut ui = ui();
    let mut registers = Registers::new(PROGRAM_START);

    run(
        &[Ops::LD(0x0a, 0b1111_1111), Ops::LD(0x0b, 0b111_0000), Ops::ADDV(0x0a, 0x0b)],
        &mut registers,
        &mut memory,
        &mut ui,
    );

    assert_eq!(registers.va, 0b0110_1111);
    assert_eq!(registers.vf, 1);

    run(&[Ops::LD(0x0c, 0b0000_0011), Ops::ADDV(0x0b, 0x0c)], &mut registers, &mut memory, &mut ui);

    assert_eq!(registers.vb, 0b0111_0011);
    assert_eq!(registers.vf, 0);
}

#[test]
fn op_sub_vx_vy_subtract_vy_from_vx_and_set_not_borrow() {
    let mut memory = Memory::new();
    let mut ui = ui();
    let mut registers = Registers::new(PROGRAM_START);

    run(
        &[Ops::LD(0x0a, 7), Ops::LD(0x0b, 3), Ops::LD(0x0c, 5), Ops::LD(0x0d, 9)],
        &mut registers,
        &mut memory,
        &mut ui,
    );

    run(&[Ops::SUB(0x0a, 0x0b)], &mut registers, &mut memory, &mut ui);

    assert_eq!(registers.va, 4);
    assert_eq!(registers.vf, 1);

    run(&[Ops::SUB(0x0c, 0x0d)], &mut registers, &mut memory, &mut ui);

    assert_eq!(registers.vc, 252);
    assert_eq!(registers.vf, 0);
}

#[test]
fn op_subn_vx_vy_subtract_vx_from_vy_and_set_not_borrow() {
    let mut memory = Memory::new();
    let mut ui = ui();
    let mut registers = Registers::new(PROGRAM_START);

    run(
        &[Ops::LD(0x0a, 7), Ops::LD(0x0b, 10), Ops::LD(0x0c, 12), Ops::LD(0x0d, 9)],
        &mut registers,
        &mut memory,
        &mut ui,
    );

    run(&[Ops::SUBN(0x0a, 0x0b)], &mut registers, &mut memory, &mut ui);

    assert_eq!(registers.va, 3);
    assert_eq!(registers.vf, 1);

    run(&[Ops::SUBN(0x0c, 0x0d)], &mut registers, &mut memory, &mut ui);

    assert_eq!(registers.vc, 253);
    assert_eq!(registers.vf, 0);
}

#[test]
fn op_shr_vx_right_shifts() {
    let ops = vec![Ops::LD(0x0a, 0b1111_1111), Ops::SHR(0x0a)];
    let mut memory = Memory::new();
    let mut ui = ui();
    let mut registers = Registers::new(PROGRAM_START);

    run(&ops, &mut registers, &mut memory, &mut ui);

    assert_eq!(registers.va, 0b0111_1111);
}

#[test]
fn op_shr_vx_stores_least_significant_bit_in_vf() {
    let instructions = vec![Ops::LD(0x0a, 0b1111_1111), Ops::SHR(0x0a)];
    let mut memory = Memory::new();
    let mut ui = ui();
    let mut registers = Registers::new(PROGRAM_START);

    run(&instructions, &mut registers, &mut memory, &mut ui);

    assert_eq!(registers.vf, 1);

    let instructions = vec![Ops::LD(0x0a, 0b0000_1110), Ops::SHR(0x0a)];

    run(&instructions, &mut registers, &mut memory, &mut ui);

    assert_eq!(registers.vf, 0);
}

#[test]
fn op_shl_vx_left_shifts() {
    let ops = vec![Ops::LD(0x0a, 0b0111_1111), Ops::SHL(0x0a)];
    let mut memory = Memory::new();
    let mut ui = ui();
    let mut registers = Registers::new(PROGRAM_START);

    run(&ops, &mut registers, &mut memory, &mut ui);

    assert_eq!(registers.va, 0b1111_1110);
}

#[test]
fn op_shl_stores_most_significant_bit_in_vf() {
    let ops = vec![Ops::LD(0x0a, 0b1111_0000), Ops::SHL(0x0a)];
    let mut memory = Memory::new();
    let mut ui = ui();
    let mut registers = Registers::new(PROGRAM_START);

    run(&ops, &mut registers, &mut memory, &mut ui);

    assert_eq!(registers.vf, 0b1000_0000);

    let ops = vec![Ops::LD(0x0a, 0b0111_0000), Ops::SHL(0x0a)];
    let mut memory = Memory::new();
    let mut ui = self::ui();
    let mut registers = Registers::new(PROGRAM_START);

    run(&ops, &mut registers, &mut memory, &mut ui);

    assert_eq!(registers.vf, 0);
}

#[test]
fn op_snev_increments_pc_if_vx_not_equals_vy() {
    let ops = vec![Ops::LD(0x0a, 42), Ops::LD(0x0b, 42), Ops::SNEV(0x0a, 0x0b)];
    let mut memory = Memory::new();
    let mut ui = ui();
    let mut registers = Registers::new(PROGRAM_START);

    run(&ops, &mut registers, &mut memory, &mut ui);

    assert_eq!(registers.pc, PROGRAM_START);

    let ops = vec![Ops::LD(0x0a, 42), Ops::LD(0x0b, 24), Ops::SNEV(0x0a, 0x0b)];

    run(&ops, &mut registers, &mut memory, &mut ui);

    assert_eq!(registers.pc, PROGRAM_START + INSTRUCTION_LENGTH);
}

#[test]
fn op_ldi_sets_i_register() {
    let ops = vec![Ops::LDI(0x0012)];
    let mut memory = Memory::new();
    let mut ui = ui();
    let mut registers = Registers::new(PROGRAM_START);

    run(&ops, &mut registers, &mut memory, &mut ui);

    assert_eq!(registers.i, 0x0012);
}

#[test]
fn op_ldi_addr_must_be_within_memory_bounds() {
    let mut memory = Memory::new();
    let mut ui = ui();
    let mut registers = Registers::new(PROGRAM_START);

    if let Err(ChipeyteError::OpFailed(op, msg)) =
        Ops::LDI(0xf000).call(&mut registers, &mut memory, &mut ui.screen, &mut ui.controller)
    {
        assert_eq!(op, Ops::LDI(0xf000));
        assert!(msg.contains("out-of-bounds"));
        return;
    }

    panic!("Test failed!");
}

#[test]
fn op_jpv0_jumps_to_nnn_plus_v0() {
    let ops = vec![Ops::LD(0x00, 0x10), Ops::JPV0(0x0220)];
    let mut memory = Memory::new();
    let mut ui = ui();
    let mut registers = Registers::new(PROGRAM_START);

    run(&ops, &mut registers, &mut memory, &mut ui);

    assert_eq!(registers.pc, 0x0230);
}

#[test]
fn op_jpv0_returns_error_if_resulting_address_is_out_of_bounds() {
    let mut memory = Memory::new();
    let mut ui = ui();
    let mut registers = Registers::new(PROGRAM_START);

    run(&[Ops::LD(0x00, 0xff)], &mut registers, &mut memory, &mut ui);

    match Ops::JPV0(0x0fff).call(&mut registers, &mut memory, &mut ui.screen, &mut ui.controller) {
        Err(ChipeyteError::OpFailed(Ops::JPV0(0x0fff), msg)) => {
            assert!(msg.contains("outside of program area"));
        }
        _ => panic!("Did not return appropriate error!"),
    }
}

#[test]
fn op_jpv0_returns_error_if_resulting_address_is_outside_of_program_area() {
    let mut memory = Memory::new();
    let mut ui = ui();
    let mut registers = Registers::new(PROGRAM_START);

    run(&[Ops::LD(0x00, 0xff)], &mut registers, &mut memory, &mut ui);

    match Ops::JPV0(0x0000).call(&mut registers, &mut memory, &mut ui.screen, &mut ui.controller) {
        Err(ChipeyteError::OpFailed(Ops::JPV0(0x0000), msg)) => {
            assert!(msg.contains("outside of program area"));
        }
        _ => panic!("Did not return appropriate error!"),
    }
}

#[test]
fn op_rnd_sets_vx_to_a_random_number() {
    let ops = vec![Ops::RND(0x0c, 0xff)];
    let mut memory = Memory::new();
    let mut ui = ui();
    let mut registers = Registers::new(PROGRAM_START);

    run(&ops, &mut registers, &mut memory, &mut ui);

    // This test might fail if the generated random number is 0
    assert!(registers.vc > 0);
}

#[test]
fn op_drw_draws_8_by_n_sprite_at_pos_vx_vy() {
    // The glyph of digit 1 is 0x20, 0x60, 0x20, 0x20, 0x70.
    let ops: Vec<Ops> = vec![
        Ops::LD(0x0, 0x01),
        Ops::LDF(0x0),
        Ops::LD(0x1, 10),
        Ops::LD(0x2, 4),
        Ops::DRW(0x1, 0x2, 5),
    ];
    let mut memory = Memory::new();
    let mut ui = ui();
    let mut registers = Registers::new(PROGRAM_START);

    run(&ops, &mut registers, &mut memory, &mut ui);

    let expected: HashSet<(u8, u8)> = [
        (12, 4),
        (11, 5),
        (12, 5),
        (12, 6),
        (12, 7),
        (11, 8),
        (12, 8),
        (13, 8),
    ]
    .into_iter()
    .collect();
    assert_eq!(ui.screen.get_pixels(), expected);
    assert_eq!(registers.vf, 0);
}

#[test]
fn op_drw_wraps_around_screen_edges() {
    // One row 0b1100_0001 at (62, 31): columns 62, 63 stay, column 69 wraps to 5.
    let ops: Vec<Ops> = vec![
        Ops::LD(0x0, 0b1100_0001),
        Ops::LDI(0x0300),
        Ops::LDIV(0x0),
        Ops::LD(0x1, 62),
        Ops::LD(0x2, 31),
        Ops::DRW(0x1, 0x2, 2),
    ];
    let mut memory = Memory::new();
    let mut ui = ui();
    let mut registers = Registers::new(PROGRAM_START);
    memory.set(0x0301, 0b1000_0000);

    run(&ops, &mut registers, &mut memory, &mut ui);

    let expected: HashSet<(u8, u8)> = [(62, 31), (63, 31), (5, 31), (62, 0)].into_iter().collect();
    assert_eq!(ui.screen.get_pixels(), expected);
    assert_eq!(registers.vf, 0);
}

#[test]
fn op_drw_wraps_xor_drawn_pixels() {
    let ops: Vec<Ops> = vec![
        Ops::LD(0x0, 0x0F),
        Ops::LDF(0x0),
        Ops::LD(0x1, 3),
        Ops::LD(0x2, 3),
        Ops::DRW(0x1, 0x2, 5),
    ];
    let mut memory = Memory::new();
    let mut ui = ui();
    let mut registers = Registers::new(PROGRAM_START);

    run(&ops, &mut registers, &mut memory, &mut ui);
    assert!(!ui.screen.get_pixels().is_empty());
    assert_eq!(registers.vf, 0);

    run(&[Ops::DRW(0x1, 0x2, 5)], &mut registers, &mut memory, &mut ui);

    assert!(ui.screen.get_pixels().is_empty());
    assert_eq!(registers.vf, 1);
}

#[test]
fn op_ldvdt_sets_the_vx_equal_to_dt() {
    let ops = vec![Ops::LDVDT(0x0d)];
    let mut memory = Memory::new();
    let mut ui = ui();
    let mut registers = Registers::new(PROGRAM_START);

    registers.dt = 42;

    run(&ops, &mut registers, &mut memory, &mut ui);

    assert_eq!(registers.vd, 42);
}
