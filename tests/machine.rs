use chip8::{decode, Chip8Error, HostKey, Instruction, KeyValue, KeyWaitPolicy, VirtualMachine};

/// A machine with `rom` loaded at 0x200.
fn with_rom(rom: &[u8]) -> VirtualMachine {
    let mut vm = VirtualMachine::new();
    vm.load_rom(rom);
    vm
}

/// Runs each instruction word directly, expecting success.
fn run(vm: &mut VirtualMachine, ops: &[u16]) {
    for &op in ops {
        assert_eq!(vm.execute_opcode(op, 0), Ok(()), "opcode {:04X}", op);
    }
}

fn pixel(vm: &VirtualMachine, row: usize, col: usize) -> u8 {
    vm.screen_rows()[row][col]
}

fn lit_pixels(vm: &VirtualMachine) -> usize {
    vm.screen_rows().iter().map(|r| r.iter().filter(|p| **p != 0).count()).sum()
}

#[test]
fn new_machine_has_font_and_starts_at_program_area() {
    let vm = VirtualMachine::new();
    let font_zero = [0xF0, 0x90, 0x90, 0x90, 0xF0];
    assert_eq!(&vm.memory()[0..5], &font_zero);
    let font_f = [0xF0, 0x80, 0xF0, 0x80, 0x80];
    assert_eq!(&vm.memory()[75..80], &font_f);
    assert!(vm.memory()[80..].iter().all(|b| *b == 0));
    assert_eq!(vm.program_counter(), 0x200);
    assert_eq!(vm.registers(), [0; 16]);
    assert_eq!(vm.index_register(), 0);
    assert_eq!(vm.stack_pointer(), 0);
    assert_eq!(vm.delay_timer(), 0);
    assert_eq!(vm.sound_timer(), 0);
    assert!(!vm.is_blocked());
    assert_eq!(lit_pixels(&vm), 0);
}

#[test]
fn load_rom_copies_from_0x200() {
    let vm = with_rom(&[1, 2, 3]);
    assert_eq!(&vm.memory()[0x200..0x204], &[1, 2, 3, 0]);
    assert_eq!(vm.memory()[0x1FF], 0);
}

#[test]
fn load_rom_truncates_what_does_not_fit() {
    let rom: Vec<u8> = (0..4000u32).map(|i| (i % 251) as u8 + 1).collect();
    let vm = with_rom(&rom);
    assert_eq!(vm.memory()[0x200], rom[0]);
    assert_eq!(vm.memory()[4095], rom[3583]);
    assert_eq!(vm.memory()[0], 0xF0);
}

#[test]
fn reload_keeps_tail_of_previous_program_and_registers() {
    let mut vm = with_rom(&[0x60, 0x2A, 0x12, 0x00]);
    vm.execute_instruction().unwrap();
    vm.load_rom(&[0xAA]);
    assert_eq!(&vm.memory()[0x200..0x204], &[0xAA, 0x2A, 0x12, 0x00]);
    assert_eq!(vm.registers()[0], 0x2A);
    assert_eq!(vm.program_counter(), 0x202);
}

#[test]
fn end_to_end_load_and_add() {
    let mut vm = with_rom(&[0x60, 0x05, 0x70, 0x03]);
    assert_eq!(vm.execute_instruction(), Ok(()));
    assert_eq!(vm.execute_instruction(), Ok(()));
    assert_eq!(vm.registers()[0], 8);
    assert_eq!(vm.program_counter(), 0x204);
}

#[test]
fn end_to_end_draws_glyph_zero() {
    // I = 0x000, where the built-in glyph for 0 lives, then draw 5 rows at (V0, V0).
    let mut vm = with_rom(&[0xA0, 0x00, 0xD0, 0x05]);
    vm.execute_instruction().unwrap();
    vm.execute_instruction().unwrap();
    let rows = vm.screen_rows();
    let expected: [[u8; 8]; 5] = [
        [1, 1, 1, 1, 0, 0, 0, 0],
        [1, 0, 0, 1, 0, 0, 0, 0],
        [1, 0, 0, 1, 0, 0, 0, 0],
        [1, 0, 0, 1, 0, 0, 0, 0],
        [1, 1, 1, 1, 0, 0, 0, 0],
    ];
    for (r, row) in expected.iter().enumerate() {
        assert_eq!(&rows[r][0..8], row);
    }
    assert_eq!(lit_pixels(&vm), 14);
    assert_eq!(vm.registers()[0xF], 0);
    assert_eq!(vm.program_counter(), 0x204);
}

#[test]
fn end_to_end_index_0x200_draws_program_bytes() {
    // I = 0x200 points at the program itself: A2 00 D0 05 00.
    let mut vm = with_rom(&[0xA2, 0x00, 0xD0, 0x05]);
    vm.execute_instruction().unwrap();
    vm.execute_instruction().unwrap();
    assert_eq!(vm.index_register(), 0x200);
    let rows = vm.screen_rows();
    let bytes = [0xA2u8, 0x00, 0xD0, 0x05, 0x00];
    for (r, b) in bytes.iter().enumerate() {
        for c in 0..8 {
            assert_eq!(rows[r][c], (b >> (7 - c)) & 1, "row {} col {}", r, c);
        }
    }
}

#[test]
fn sprite_wraps_when_anchor_is_off_grid() {
    // Sprite byte 0xFF at 0x200; anchor (70, 5).
    let mut vm = with_rom(&[0xFF]);
    run(&mut vm, &[0x6046, 0x6105, 0xA200, 0xD011]);
    for c in 0..64 {
        let want = if (6..14).contains(&c) { 1 } else { 0 };
        assert_eq!(pixel(&vm, 5, c), want, "col {}", c);
    }
    assert_eq!(lit_pixels(&vm), 8);
}

#[test]
fn sprite_wraps_rows_when_anchor_y_is_off_grid() {
    // Anchor (2, 40): rows wrap to 8 and 9.
    let mut vm = with_rom(&[0x80, 0x80]);
    run(&mut vm, &[0x6002, 0x6128, 0xA200, 0xD012]);
    assert_eq!(pixel(&vm, 8, 2), 1);
    assert_eq!(pixel(&vm, 9, 2), 1);
    assert_eq!(lit_pixels(&vm), 2);
}

#[test]
fn sprite_clips_at_right_edge() {
    // Anchor (60, 5): columns 60..63 drawn, 64..67 dropped rather than wrapped.
    let mut vm = with_rom(&[0xFF]);
    run(&mut vm, &[0x603C, 0x6105, 0xA200, 0xD011]);
    for c in 0..64 {
        let want = if c >= 60 { 1 } else { 0 };
        assert_eq!(pixel(&vm, 5, c), want, "col {}", c);
    }
    assert_eq!(lit_pixels(&vm), 4);
}

#[test]
fn sprite_clips_at_bottom_edge() {
    // Anchor (0, 30) with 5 rows: rows 30 and 31 only.
    let mut vm = VirtualMachine::new();
    run(&mut vm, &[0x6000, 0x611E, 0xA000, 0xD015]);
    assert_eq!(&vm.screen_rows()[30][0..4], &[1, 1, 1, 1]);
    assert_eq!(&vm.screen_rows()[31][0..4], &[1, 0, 0, 1]);
    assert_eq!(lit_pixels(&vm), 6);
}

#[test]
fn drawing_twice_reports_collision_and_clears() {
    let mut vm = VirtualMachine::new();
    run(&mut vm, &[0x6003, 0x6104, 0xA000, 0xD015]);
    assert_eq!(vm.registers()[0xF], 0);
    assert_eq!(lit_pixels(&vm), 14);
    run(&mut vm, &[0xD015]);
    assert_eq!(vm.registers()[0xF], 1);
    assert_eq!(lit_pixels(&vm), 0);
}

#[test]
fn draw_past_end_of_memory_is_refused() {
    let mut vm = VirtualMachine::new();
    run(&mut vm, &[0xAFFE]);
    assert_eq!(vm.execute_opcode(0xD003, 0), Err(Chip8Error::MemoryAccessOutOfRange));
    assert_eq!(vm.program_counter(), 0x202);
    assert_eq!(vm.execute_opcode(0xD002, 0), Ok(()));
}

#[test]
fn clear_screen_blanks_display() {
    let mut vm = VirtualMachine::new();
    run(&mut vm, &[0xD005]);
    assert!(lit_pixels(&vm) > 0);
    run(&mut vm, &[0x00E0]);
    assert_eq!(lit_pixels(&vm), 0);
    assert_eq!(vm.program_counter(), 0x204);
}

#[test]
fn add_with_carry_sets_flag_on_overflow() {
    let mut vm = VirtualMachine::new();
    run(&mut vm, &[0x60C8, 0x6164, 0x8014]);
    assert_eq!(vm.registers()[0], 44);
    assert_eq!(vm.registers()[0xF], 1);
    run(&mut vm, &[0x600A, 0x6114, 0x8014]);
    assert_eq!(vm.registers()[0], 30);
    assert_eq!(vm.registers()[0xF], 0);
    run(&mut vm, &[0x60FF, 0x6101, 0x8014]);
    assert_eq!(vm.registers()[0], 0);
    assert_eq!(vm.registers()[0xF], 1);
}

#[test]
fn subtract_sets_flag_when_no_borrow() {
    let mut vm = VirtualMachine::new();
    run(&mut vm, &[0x6005, 0x6103, 0x8015]);
    assert_eq!(vm.registers()[0], 2);
    assert_eq!(vm.registers()[0xF], 1);
    run(&mut vm, &[0x6003, 0x6105, 0x8015]);
    assert_eq!(vm.registers()[0], 254);
    assert_eq!(vm.registers()[0xF], 0);
    run(&mut vm, &[0x6007, 0x6107, 0x8015]);
    assert_eq!(vm.registers()[0], 0);
    assert_eq!(vm.registers()[0xF], 1);
}

#[test]
fn reversed_subtract_sets_flag_when_no_borrow() {
    let mut vm = VirtualMachine::new();
    run(&mut vm, &[0x6003, 0x6105, 0x8017]);
    assert_eq!(vm.registers()[0], 2);
    assert_eq!(vm.registers()[0xF], 1);
    run(&mut vm, &[0x6005, 0x6103, 0x8017]);
    assert_eq!(vm.registers()[0], 254);
    assert_eq!(vm.registers()[0xF], 0);
}

#[test]
fn shifts_put_shifted_out_bit_in_flag() {
    let mut vm = VirtualMachine::new();
    run(&mut vm, &[0x6005, 0x8006]);
    assert_eq!(vm.registers()[0], 2);
    assert_eq!(vm.registers()[0xF], 1);
    run(&mut vm, &[0x6081, 0x800E]);
    assert_eq!(vm.registers()[0], 2);
    assert_eq!(vm.registers()[0xF], 1);
    run(&mut vm, &[0x6040, 0x800E]);
    assert_eq!(vm.registers()[0], 0x80);
    assert_eq!(vm.registers()[0xF], 0);
}

#[test]
fn logic_and_copy_operations() {
    let mut vm = VirtualMachine::new();
    run(&mut vm, &[0x60F0, 0x613C, 0x8011]);
    assert_eq!(vm.registers()[0], 0xFC);
    run(&mut vm, &[0x60F0, 0x8012]);
    assert_eq!(vm.registers()[0], 0x30);
    run(&mut vm, &[0x60F0, 0x8013]);
    assert_eq!(vm.registers()[0], 0xCC);
    run(&mut vm, &[0x8210]);
    assert_eq!(vm.registers()[2], 0x3C);
}

#[test]
fn add_immediate_wraps_without_flag() {
    let mut vm = VirtualMachine::new();
    run(&mut vm, &[0x6F07, 0x60FE, 0x7005]);
    assert_eq!(vm.registers()[0], 3);
    assert_eq!(vm.registers()[0xF], 7);
}

#[test]
fn store_then_load_all_registers_round_trips() {
    let mut vm = VirtualMachine::new();
    let values: Vec<u16> = (0..16u16).map(|x| 0x6000 | (x << 8) | (x * 7 + 1)).collect();
    run(&mut vm, &values);
    let before = vm.registers();
    run(&mut vm, &[0xA300, 0xFF55]);
    for x in 0..16 {
        assert_eq!(vm.memory()[0x300 + x], before[x]);
    }
    let clobber: Vec<u16> = (0..15u16).map(|x| 0x6000 | (x << 8)).collect();
    run(&mut vm, &clobber);
    run(&mut vm, &[0xFF65]);
    assert_eq!(vm.registers(), before);
    assert_eq!(vm.index_register(), 0x300);
}

#[test]
fn store_registers_range_is_inclusive() {
    let mut vm = VirtualMachine::new();
    run(&mut vm, &[0x6011, 0x6122, 0x6233, 0xA300, 0xF155]);
    assert_eq!(&vm.memory()[0x300..0x303], &[0x11, 0x22, 0]);
    run(&mut vm, &[0xA300, 0x6000, 0x6100, 0xF065]);
    assert_eq!(vm.registers()[0], 0x11);
    assert_eq!(vm.registers()[1], 0);
}

#[test]
fn store_registers_past_end_of_memory_is_refused() {
    let mut vm = VirtualMachine::new();
    run(&mut vm, &[0xAFFF]);
    assert_eq!(vm.execute_opcode(0xF155, 0), Err(Chip8Error::MemoryAccessOutOfRange));
    assert_eq!(vm.execute_opcode(0xF165, 0), Err(Chip8Error::MemoryAccessOutOfRange));
    assert_eq!(vm.execute_opcode(0xF055, 0), Ok(()));
}

#[test]
fn bcd_store_writes_decimal_digits() {
    let mut vm = VirtualMachine::new();
    run(&mut vm, &[0x60EA, 0xA300, 0xF033]);
    assert_eq!(&vm.memory()[0x300..0x303], &[2, 3, 4]);
    run(&mut vm, &[0x60FF, 0xF033]);
    assert_eq!(&vm.memory()[0x300..0x303], &[2, 5, 5]);
    run(&mut vm, &[0x6000, 0xF033]);
    assert_eq!(&vm.memory()[0x300..0x303], &[0, 0, 0]);
    run(&mut vm, &[0x6007, 0xAFFE]);
    assert_eq!(vm.execute_opcode(0xF033, 0), Err(Chip8Error::MemoryAccessOutOfRange));
}

#[test]
fn timers_decay_to_zero_and_stay() {
    let mut vm = VirtualMachine::new();
    run(&mut vm, &[0x6003, 0xF015, 0xF018]);
    assert_eq!(vm.delay_timer(), 3);
    assert_eq!(vm.sound_timer(), 3);
    vm.decrement_timers();
    vm.decrement_timers();
    vm.decrement_timers();
    assert_eq!(vm.delay_timer(), 0);
    assert_eq!(vm.sound_timer(), 0);
    vm.decrement_timers();
    assert_eq!(vm.delay_timer(), 0);
    assert_eq!(vm.sound_timer(), 0);
}

#[test]
fn read_delay_timer_into_register() {
    let mut vm = VirtualMachine::new();
    run(&mut vm, &[0x6009, 0xF015]);
    vm.decrement_timers();
    run(&mut vm, &[0xF307]);
    assert_eq!(vm.registers()[3], 8);
}

#[test]
fn blocked_machine_does_nothing() {
    let mut vm = with_rom(&[0xF3, 0x0A, 0x60, 0x05]);
    vm.key_state[4] = true;
    assert_eq!(vm.execute_instruction(), Ok(()));
    assert!(vm.is_blocked());
    assert_eq!(vm.program_counter(), 0x200);
    assert!(vm.key_state.iter().all(|k| !k));
    for _ in 0..3 {
        assert_eq!(vm.execute_instruction(), Ok(()));
    }
    assert_eq!(vm.program_counter(), 0x200);
    assert_eq!(vm.registers(), [0; 16]);
    assert_eq!(vm.run_cyle(), Ok(()));
    assert_eq!(vm.program_counter(), 0x200);
}

#[test]
fn complete_key_wait_stores_key_and_resumes() {
    let mut vm = with_rom(&[0xF3, 0x0A, 0x60, 0x05]);
    vm.execute_instruction().unwrap();
    assert_eq!(vm.complete_fx0a(16), Err(Chip8Error::InvalidKeyIndex));
    assert!(vm.is_blocked());
    assert_eq!(vm.complete_fx0a(7), Ok(()));
    assert!(!vm.is_blocked());
    assert_eq!(vm.registers()[3], 7);
    assert_eq!(vm.program_counter(), 0x202);
    vm.execute_instruction().unwrap();
    assert_eq!(vm.registers()[0], 5);
}

#[test]
fn complete_without_pending_wait_changes_nothing() {
    let mut vm = VirtualMachine::new();
    assert_eq!(vm.complete_fx0a(3), Ok(()));
    assert_eq!(vm.program_counter(), 0x200);
    assert_eq!(vm.registers(), [0; 16]);
}

#[test]
fn key_release_policy_completes_on_release_of_pressed_key() {
    let mut vm = with_rom(&[0xF2, 0x0A]);
    vm.execute_instruction().unwrap();
    // A release without a press first does not resolve the wait.
    vm.handle_key_event(5, false, KeyWaitPolicy::OnRelease).unwrap();
    assert!(vm.is_blocked());
    vm.handle_key_event(5, true, KeyWaitPolicy::OnRelease).unwrap();
    assert!(vm.is_blocked());
    assert!(vm.key_state[5]);
    vm.handle_key_event(5, false, KeyWaitPolicy::OnRelease).unwrap();
    assert!(!vm.is_blocked());
    assert!(!vm.key_state[5]);
    assert_eq!(vm.registers()[2], 5);
    assert_eq!(vm.program_counter(), 0x202);
}

#[test]
fn key_press_policy_completes_on_press() {
    let mut vm = with_rom(&[0xF2, 0x0A]);
    vm.execute_instruction().unwrap();
    vm.handle_key_event(0xB, true, KeyWaitPolicy::OnPress).unwrap();
    assert!(!vm.is_blocked());
    assert!(vm.key_state[0xB]);
    assert_eq!(vm.registers()[2], 0xB);
}

#[test]
fn key_event_with_invalid_index_is_refused() {
    let mut vm = VirtualMachine::new();
    assert_eq!(
        vm.handle_key_event(16, true, KeyWaitPolicy::OnPress),
        Err(Chip8Error::InvalidKeyIndex)
    );
    assert!(vm.key_state.iter().all(|k| !k));
}

#[test]
fn key_skips_follow_keypad_state() {
    let mut vm = VirtualMachine::new();
    run(&mut vm, &[0x6107]);
    vm.key_state[7] = true;
    run(&mut vm, &[0xE19E]);
    assert_eq!(vm.program_counter(), 0x206);
    run(&mut vm, &[0xE1A1]);
    assert_eq!(vm.program_counter(), 0x208);
    vm.key_state[7] = false;
    run(&mut vm, &[0xE19E]);
    assert_eq!(vm.program_counter(), 0x20A);
    run(&mut vm, &[0xE1A1]);
    assert_eq!(vm.program_counter(), 0x20E);
}

#[test]
fn key_skip_with_register_above_f_is_refused() {
    let mut vm = VirtualMachine::new();
    run(&mut vm, &[0x6010]);
    assert_eq!(vm.execute_opcode(0xE09E, 0), Err(Chip8Error::InvalidKeyIndex));
    assert_eq!(vm.execute_opcode(0xE0A1, 0), Err(Chip8Error::InvalidKeyIndex));
    assert_eq!(vm.program_counter(), 0x202);
}

#[test]
fn conditional_skips() {
    let mut vm = VirtualMachine::new();
    run(&mut vm, &[0x6005, 0x6105]);
    let pc = vm.program_counter();
    run(&mut vm, &[0x3005]);
    assert_eq!(vm.program_counter(), pc + 4);
    run(&mut vm, &[0x3006]);
    assert_eq!(vm.program_counter(), pc + 6);
    run(&mut vm, &[0x4006]);
    assert_eq!(vm.program_counter(), pc + 10);
    run(&mut vm, &[0x4005]);
    assert_eq!(vm.program_counter(), pc + 12);
    run(&mut vm, &[0x5010]);
    assert_eq!(vm.program_counter(), pc + 16);
    run(&mut vm, &[0x9010]);
    assert_eq!(vm.program_counter(), pc + 18);
    run(&mut vm, &[0x6106, 0x9010]);
    assert_eq!(vm.program_counter(), pc + 24);
}

#[test]
fn jump_call_and_return() {
    let mut vm = VirtualMachine::new();
    run(&mut vm, &[0x1345]);
    assert_eq!(vm.program_counter(), 0x345);
    run(&mut vm, &[0x2400]);
    assert_eq!(vm.program_counter(), 0x400);
    assert_eq!(vm.stack_pointer(), 1);
    run(&mut vm, &[0x00EE]);
    assert_eq!(vm.program_counter(), 0x347);
    assert_eq!(vm.stack_pointer(), 0);
}

#[test]
fn return_with_empty_stack_underflows() {
    let mut vm = VirtualMachine::new();
    assert_eq!(vm.execute_opcode(0x00EE, 0), Err(Chip8Error::StackUnderflow));
    assert_eq!(vm.program_counter(), 0x200);
}

#[test]
fn seventeenth_nested_call_overflows() {
    // A subroutine that calls itself.
    let mut vm = with_rom(&[0x22, 0x00]);
    for depth in 1..=16 {
        assert_eq!(vm.execute_instruction(), Ok(()));
        assert_eq!(vm.stack_pointer(), depth);
    }
    assert_eq!(vm.execute_instruction(), Err(Chip8Error::StackOverflow));
    assert_eq!(vm.stack_pointer(), 16);
}

#[test]
fn unknown_opcodes_are_reported() {
    let mut vm = VirtualMachine::new();
    for op in [0x0001u16, 0x8008, 0x800F, 0xE000, 0xF0FF, 0xF075] {
        assert_eq!(vm.execute_opcode(op, 0), Err(Chip8Error::UnknownOpcode { opcode: op }));
    }
    assert_eq!(vm.program_counter(), 0x200);
}

#[test]
fn fetch_past_end_of_memory_is_refused() {
    let mut vm = VirtualMachine::new();
    run(&mut vm, &[0x1FFF]);
    assert_eq!(vm.execute_instruction(), Err(Chip8Error::MemoryAccessOutOfRange));
    assert_eq!(vm.program_counter(), 0xFFF);
}

#[test]
fn index_register_operations() {
    let mut vm = VirtualMachine::new();
    run(&mut vm, &[0x6010, 0xB123]);
    assert_eq!(vm.index_register(), 0x133);
    run(&mut vm, &[0x61FF, 0xF11E]);
    assert_eq!(vm.index_register(), 0x232);
    run(&mut vm, &[0x621A, 0xF229]);
    assert_eq!(vm.index_register(), 50);
    run(&mut vm, &[0x6207, 0xF229]);
    assert_eq!(vm.index_register(), 35);
}

#[test]
fn random_masks_drawn_byte() {
    let mut vm = VirtualMachine::new();
    assert_eq!(vm.execute_opcode(0xC30F, 0xAB), Ok(()));
    assert_eq!(vm.registers()[3], 0x0B);
    let mut vm = with_rom(&[0xC4, 0x00, 0xC5, 0x0F]);
    vm.execute_instruction().unwrap();
    assert_eq!(vm.registers()[4], 0);
    vm.execute_instruction().unwrap();
    assert!(vm.registers()[5] <= 0x0F);
    assert_eq!(vm.program_counter(), 0x204);
}

#[test]
fn run_cycle_executes_and_ticks_timers() {
    let mut vm = with_rom(&[0x60, 0x04, 0xF0, 0x15, 0x70, 0x01]);
    vm.run_cyle().unwrap();
    vm.run_cyle().unwrap();
    assert_eq!(vm.delay_timer(), 3);
    vm.run_cyle().unwrap();
    assert_eq!(vm.delay_timer(), 2);
    assert_eq!(vm.registers()[0], 5);
    assert_eq!(vm.program_counter(), 0x206);
}

#[test]
fn decode_classifies_words() {
    assert_eq!(decode(0x00E0), Ok(Instruction::ClearScreen));
    assert_eq!(decode(0x00EE), Ok(Instruction::Return));
    assert_eq!(decode(0x1ABC), Ok(Instruction::Jump { addr: 0xABC }));
    assert_eq!(decode(0xD12F), Ok(Instruction::Draw { x: 1, y: 2, n: 15 }));
    assert_eq!(decode(0x8ABE), Ok(Instruction::ShiftLeft { x: 0xA }));
    assert_eq!(decode(0xF165), Ok(Instruction::LoadRegisters { x: 1 }));
    assert_eq!(decode(0xF529), Ok(Instruction::FontAddress { x: 5 }));
    assert_eq!(decode(0xE5A1), Ok(Instruction::SkipIfNotKey { x: 5 }));
    assert_eq!(decode(0x5AB0), Ok(Instruction::SkipIfEqualReg { x: 0xA, y: 0xB }));
    assert_eq!(decode(0xF145), Err(Chip8Error::UnknownOpcode { opcode: 0xF145 }));
}

#[test]
fn register_fields_of_opcode() {
    assert_eq!(VirtualMachine::get_register_x(0x8AB4), 0xA);
    assert_eq!(VirtualMachine::get_register_y(0x8AB4), 0xB);
    assert_eq!(VirtualMachine::get_sprite_address(0xF), 75);
    assert_eq!(VirtualMachine::get_sprite_address(0), 0);
}

#[test]
fn host_keys_map_to_keypad_values() {
    assert_eq!(KeyValue::from_host_key(HostKey::Key1), KeyValue(0x1));
    assert_eq!(KeyValue::from_host_key(HostKey::Key4), KeyValue(0xC));
    assert_eq!(KeyValue::from_host_key(HostKey::Q), KeyValue(0x4));
    assert_eq!(KeyValue::from_host_key(HostKey::R), KeyValue(0xD));
    assert_eq!(KeyValue::from_host_key(HostKey::F), KeyValue(0xE));
    assert_eq!(KeyValue::from_host_key(HostKey::Z), KeyValue(0xA));
    assert_eq!(KeyValue::from_host_key(HostKey::X), KeyValue(0x0));
    assert_eq!(KeyValue::from_host_key(HostKey::V), KeyValue(0xF));
}

#[test]
fn screen_rows_has_grid_shape() {
    let vm = VirtualMachine::new();
    let rows = vm.screen_rows();
    assert_eq!(rows.len(), 32);
    assert!(rows.iter().all(|r| r.len() == 64));
}
