use chip8_emulator::chip8::Chip8;
use chip8_emulator::error::Chip8Error;
use chip8_emulator::quirks::QuirkConfig;

fn with_registers(values: &[(u8, u8)]) -> Chip8 {
    let mut vm = Chip8::new();
    for &(register, value) in values {
        assert_eq!(vm.set_v_register(register, value), Ok(()));
    }
    vm
}

fn run(vm: &mut Chip8, words: &[u16]) {
    for &word in words {
        vm.execute(word, None);
    }
}

#[test]
fn add_wraps_and_sets_carry_for_all_pairs() {
    for a in 0u16..=255 {
        for b in [0u16, 1, 2, 55, 127, 128, 200, 254, 255] {
            let mut vm = with_registers(&[(3, a as u8), (7, b as u8)]);
            vm.execute(0x8374, None);
            assert_eq!(vm.register(3), Ok(((a + b) % 256) as u8));
            assert_eq!(vm.register(0xF), Ok(if a + b > 255 { 1 } else { 0 }));
            assert_eq!(vm.register(7), Ok(b as u8));
        }
    }
}

#[test]
fn add_into_flag_register_keeps_the_carry() {
    let mut vm = with_registers(&[(0xF, 200), (1, 100)]);
    vm.execute(0x8F14, None);
    assert_eq!(vm.register(0xF), Ok(1));
    let mut vm = with_registers(&[(0xF, 20), (1, 100)]);
    vm.execute(0x8F14, None);
    assert_eq!(vm.register(0xF), Ok(0));
}

#[test]
fn add_register_to_itself() {
    let mut vm = with_registers(&[(4, 0x90)]);
    vm.execute(0x8444, None);
    assert_eq!(vm.register(4), Ok(0x20));
    assert_eq!(vm.register(0xF), Ok(1));
}

#[test]
fn subtract_wraps_and_flags_no_borrow() {
    for a in 0i32..=255 {
        for b in [0i32, 1, 2, 55, 127, 128, 200, 254, 255] {
            let mut vm = with_registers(&[(3, a as u8), (7, b as u8)]);
            vm.execute(0x8375, None);
            assert_eq!(vm.register(3), Ok((a - b).rem_euclid(256) as u8));
            assert_eq!(vm.register(0xF), Ok(if a >= b { 1 } else { 0 }));
        }
    }
}

#[test]
fn subtract_exact_values() {
    let mut vm = with_registers(&[(0, 5), (1, 7)]);
    vm.execute(0x8015, None);
    assert_eq!(vm.register(0), Ok(254));
    assert_eq!(vm.register(0xF), Ok(0));
    let mut vm = with_registers(&[(0, 7), (1, 7)]);
    vm.execute(0x8015, None);
    assert_eq!(vm.register(0), Ok(0));
    assert_eq!(vm.register(0xF), Ok(1));
}

#[test]
fn reverse_subtract_swaps_operands() {
    let mut vm = with_registers(&[(0, 5), (1, 7)]);
    vm.execute(0x8017, None);
    assert_eq!(vm.register(0), Ok(2));
    assert_eq!(vm.register(0xF), Ok(1));
    let mut vm = with_registers(&[(0, 7), (1, 5)]);
    vm.execute(0x8017, None);
    assert_eq!(vm.register(0), Ok(254));
    assert_eq!(vm.register(0xF), Ok(0));
}

#[test]
fn logic_operations_clear_the_flag() {
    let mut vm = with_registers(&[(0, 0b1100), (1, 0b1010), (0xF, 1)]);
    vm.execute(0x8011, None);
    assert_eq!(vm.register(0), Ok(0b1110));
    assert_eq!(vm.register(0xF), Ok(0));
    let mut vm = with_registers(&[(0, 0b1100), (1, 0b1010), (0xF, 1)]);
    vm.execute(0x8012, None);
    assert_eq!(vm.register(0), Ok(0b1000));
    assert_eq!(vm.register(0xF), Ok(0));
    let mut vm = with_registers(&[(0, 0b1100), (1, 0b1010), (0xF, 1)]);
    vm.execute(0x8013, None);
    assert_eq!(vm.register(0), Ok(0b0110));
    assert_eq!(vm.register(0xF), Ok(0));
}

#[test]
fn logic_operations_read_the_cleared_flag() {
    let mut vm = with_registers(&[(0, 0b0001), (0xF, 0b0110)]);
    vm.execute(0x80F1, None);
    assert_eq!(vm.register(0), Ok(0b0001));
    assert_eq!(vm.register(0xF), Ok(0));
    let mut vm = with_registers(&[(0, 0b0101), (0xF, 0b0110)]);
    vm.execute(0x8F01, None);
    assert_eq!(vm.register(0xF), Ok(0b0101));
}

#[test]
fn copy_load_and_add_immediate() {
    let mut vm = Chip8::new();
    run(&mut vm, &[0x6A12, 0x8BA0, 0x7AF0, 0x7B01]);
    assert_eq!(vm.register(0xA), Ok(0x02));
    assert_eq!(vm.register(0xB), Ok(0x13));
    assert_eq!(vm.register(0xF), Ok(0));
}

#[test]
fn shift_in_place_without_quirk() {
    let mut vm = with_registers(&[(2, 0b1000_0101), (3, 0b0000_0010)]);
    vm.execute(0x8236, None);
    assert_eq!(vm.register(2), Ok(0b0100_0010));
    assert_eq!(vm.register(0xF), Ok(1));
    assert_eq!(vm.register(3), Ok(0b0000_0010));
    let mut vm = with_registers(&[(2, 0b1000_0101), (3, 0b0000_0010)]);
    vm.execute(0x823E, None);
    assert_eq!(vm.register(2), Ok(0b0000_1010));
    assert_eq!(vm.register(0xF), Ok(1));
    let mut vm = with_registers(&[(2, 0b0100_0100)]);
    vm.execute(0x823E, None);
    assert_eq!(vm.register(2), Ok(0b1000_1000));
    assert_eq!(vm.register(0xF), Ok(0));
    vm.execute(0x8236, None);
    assert_eq!(vm.register(2), Ok(0b0100_0100));
    assert_eq!(vm.register(0xF), Ok(0));
}

#[test]
fn shift_takes_vy_with_quirk() {
    let mut vm = Chip8::with_quirks(QuirkConfig::create(false, true));
    assert_eq!(vm.set_v_register(2, 0xFF), Ok(()));
    assert_eq!(vm.set_v_register(3, 0b0000_0110), Ok(()));
    vm.execute(0x8236, None);
    assert_eq!(vm.register(2), Ok(0b0000_0011));
    assert_eq!(vm.register(0xF), Ok(0));
    assert_eq!(vm.register(3), Ok(0b0000_0110));
    assert_eq!(vm.set_v_register(3, 0b1000_0001), Ok(()));
    vm.execute(0x823E, None);
    assert_eq!(vm.register(2), Ok(0b0000_0010));
    assert_eq!(vm.register(0xF), Ok(1));
}

#[test]
fn skips_on_values_and_registers() {
    let mut vm = with_registers(&[(1, 0x42), (2, 0x42), (3, 0x43)]);
    vm.execute(0x3142, None);
    assert_eq!(vm.program_counter(), 0x202);
    vm.execute(0x3143, None);
    assert_eq!(vm.program_counter(), 0x202);
    vm.execute(0x4143, None);
    assert_eq!(vm.program_counter(), 0x204);
    vm.execute(0x4142, None);
    assert_eq!(vm.program_counter(), 0x204);
    vm.execute(0x5120, None);
    assert_eq!(vm.program_counter(), 0x206);
    vm.execute(0x5130, None);
    assert_eq!(vm.program_counter(), 0x206);
    vm.execute(0x9130, None);
    assert_eq!(vm.program_counter(), 0x208);
    vm.execute(0x9120, None);
    assert_eq!(vm.program_counter(), 0x208);
}

#[test]
fn index_register_instructions() {
    let mut vm = with_registers(&[(0, 0x10), (1, 0xFF)]);
    vm.execute(0xA123, None);
    assert_eq!(vm.index_register(), 0x123);
    vm.execute(0xF01E, None);
    assert_eq!(vm.index_register(), 0x133);
    vm.execute(0xF129, None);
    assert_eq!(vm.index_register(), 0x050 + 255 * 5);
}

#[test]
fn index_register_addition_wraps_at_sixteen_bits() {
    let mut vm = with_registers(&[(0, 0xFF)]);
    vm.execute(0xAFFF, None);
    for _ in 0..240 {
        vm.execute(0xF01E, None);
    }
    assert_eq!(vm.index_register(), 0xFFF + 240 * 0xFF);
    assert_eq!(vm.index_register(), 65295);
    vm.execute(0xF01E, None);
    assert_eq!(vm.index_register(), 14);
}

#[test]
fn jump_with_offset_adds_v0() {
    let mut vm = with_registers(&[(0, 0xFF), (1, 0x10)]);
    vm.execute(0xBFFF, None);
    assert_eq!(vm.program_counter(), 0x10FE);
    vm.execute(0xB200, None);
    assert_eq!(vm.program_counter(), 0x2FF);
}

#[test]
fn return_with_no_open_call_changes_nothing() {
    let mut vm = Chip8::new();
    vm.execute(0x00EE, None);
    assert_eq!(vm.program_counter(), 0x200);
    assert!(vm.call_stack().is_empty());
    assert_eq!(vm.fault(), None);
}

#[test]
fn nested_calls_return_innermost_first() {
    let mut vm = Chip8::new();
    run(&mut vm, &[0x2300, 0x2400, 0x2500]);
    assert_eq!(vm.call_stack(), &vec![0x200u16, 0x300, 0x400]);
    assert_eq!(vm.program_counter(), 0x500);
    vm.execute(0x00EE, None);
    assert_eq!(vm.program_counter(), 0x400);
    vm.execute(0x00EE, None);
    assert_eq!(vm.program_counter(), 0x300);
    assert_eq!(vm.call_stack(), &vec![0x200u16]);
}

#[test]
fn call_stack_grows_past_sixteen() {
    let mut vm = Chip8::new();
    for _ in 0..100 {
        vm.execute(0x2300, None);
    }
    assert_eq!(vm.call_stack().len(), 100);
    assert_eq!(vm.fault(), None);
}

#[test]
fn timers_through_registers() {
    let mut vm = with_registers(&[(1, 3), (2, 1)]);
    run(&mut vm, &[0xF115, 0xF218]);
    assert_eq!(vm.delay_timer(), 3);
    assert_eq!(vm.sound_timer(), 1);
    vm.update();
    assert_eq!(vm.delay_timer(), 2);
    assert_eq!(vm.sound_timer(), 0);
    vm.update();
    vm.execute(0xF507, None);
    assert_eq!(vm.register(5), Ok(1));
    assert_eq!(vm.sound_timer(), 0);
    vm.update();
    vm.update();
    assert_eq!(vm.delay_timer(), 0);
    assert_eq!(vm.sound_timer(), 0);
}

#[test]
fn decimal_digits_go_to_memory() {
    let mut vm = with_registers(&[(4, 254)]);
    run(&mut vm, &[0xA300, 0xF433]);
    assert_eq!(&vm.memory()[0x300..0x303], &[2, 5, 4]);
    let mut vm = with_registers(&[(4, 7)]);
    run(&mut vm, &[0xA300, 0xF433]);
    assert_eq!(&vm.memory()[0x300..0x303], &[0, 0, 7]);
    assert_eq!(vm.index_register(), 0x300);
}

#[test]
fn decimal_digits_wrap_around_memory() {
    let mut vm = with_registers(&[(4, 123), (0, 0xFF)]);
    // I = 0x0FFF, so the digits land at 4095, 0 and 1.
    run(&mut vm, &[0xAFFF, 0xF433]);
    assert_eq!(vm.memory()[4095], 1);
    assert_eq!(vm.memory()[0], 2);
    assert_eq!(vm.memory()[1], 3);
}

#[test]
fn store_then_load_restores_registers() {
    for x in 0u16..16 {
        let mut vm = Chip8::new();
        for register in 0u8..16 {
            assert_eq!(vm.set_v_register(register, 0x10 + register), Ok(()));
        }
        run(&mut vm, &[0xA400, 0xF055 | (x << 8)]);
        assert_eq!(vm.index_register(), 0x400);
        for register in 0u8..16 {
            assert_eq!(vm.set_v_register(register, 0xEE), Ok(()));
        }
        vm.execute(0xF065 | (x << 8), None);
        for register in 0u8..16 {
            let expected: u8 = if (register as u16) <= x { 0x10 + register } else { 0xEE };
            assert_eq!(vm.register(register), Ok(expected));
        }
        for offset in 0usize..16 {
            let expected: u8 = if (offset as u16) <= x { 0x10 + offset as u8 } else { 0 };
            assert_eq!(vm.memory()[0x400 + offset], expected);
        }
    }
}

#[test]
fn store_and_load_advance_index_with_quirk() {
    let mut vm = Chip8::with_quirks(QuirkConfig::create(true, false));
    for register in 0u8..16 {
        assert_eq!(vm.set_v_register(register, 0x10 + register), Ok(()));
    }
    run(&mut vm, &[0xA400, 0xF355]);
    assert_eq!(vm.index_register(), 0x404);
    assert_eq!(&vm.memory()[0x400..0x405], &[0x10, 0x11, 0x12, 0x13, 0]);
    run(&mut vm, &[0x6000, 0x6100, 0xA400, 0xF165]);
    assert_eq!(vm.index_register(), 0x402);
    assert_eq!(vm.register(0), Ok(0x10));
    assert_eq!(vm.register(1), Ok(0x11));
}

#[test]
fn store_wraps_around_memory() {
    let mut vm = with_registers(&[(0, 0xA0), (1, 0xA1), (2, 0xA2)]);
    run(&mut vm, &[0xAFFF, 0xF255]);
    assert_eq!(vm.memory()[4095], 0xA0);
    assert_eq!(vm.memory()[0], 0xA1);
    assert_eq!(vm.memory()[1], 0xA2);
    run(&mut vm, &[0x6000, 0x6100, 0x6200, 0xF265]);
    assert_eq!(vm.register(0), Ok(0xA0));
    assert_eq!(vm.register(1), Ok(0xA1));
    assert_eq!(vm.register(2), Ok(0xA2));
}

#[test]
fn random_byte_is_masked() {
    let mut vm = Chip8::new();
    vm.execute(0xC30F, Some(0xA7));
    assert_eq!(vm.register(3), Ok(0x07));
    vm.execute(0xC3F0, Some(0xA7));
    assert_eq!(vm.register(3), Ok(0xA0));
    vm.execute(0xC300, Some(0xFF));
    assert_eq!(vm.register(3), Ok(0));
    assert_eq!(vm.fault(), None);
}

#[test]
fn missing_random_byte_halts() {
    let mut vm = with_registers(&[(3, 9)]);
    vm.execute(0xC3FF, None);
    assert_eq!(vm.fault(), Some(Chip8Error::RandomSourceUnavailable));
    assert_eq!(vm.register(3), Ok(9));
    vm.cycle();
    assert_eq!(vm.program_counter(), 0x200);
}

#[test]
fn random_instruction_through_cycle_respects_mask() {
    for _ in 0..64 {
        let mut vm = Chip8::new();
        vm.set_rom(&[0xC5, 0x0F, 0xC6, 0x00]);
        vm.cycle();
        vm.cycle();
        assert_eq!(vm.fault(), None);
        assert_eq!(vm.register(5).map(|value| value & 0xF0), Ok(0));
        assert_eq!(vm.register(6), Ok(0));
        assert_eq!(vm.program_counter(), 0x204);
    }
}

#[test]
fn random_instruction_through_cycle_varies() {
    let mut seen: Vec<u8> = Vec::new();
    for _ in 0..64 {
        let mut vm = Chip8::new();
        vm.set_rom(&[0xC5, 0xFF]);
        vm.cycle();
        let value: u8 = vm.register(5).unwrap();
        if !seen.contains(&value) {
            seen.push(value);
        }
    }
    assert!(seen.len() > 1);
}

#[test]
fn key_skips_follow_the_latches() {
    let mut vm = with_registers(&[(1, 0x7)]);
    vm.execute(0xE19E, None);
    assert_eq!(vm.program_counter(), 0x200);
    vm.execute(0xE1A1, None);
    assert_eq!(vm.program_counter(), 0x202);
    assert_eq!(vm.set_input(7, true), Ok(()));
    vm.execute(0xE19E, None);
    assert_eq!(vm.program_counter(), 0x204);
    vm.execute(0xE1A1, None);
    assert_eq!(vm.program_counter(), 0x204);
}

#[test]
fn key_skips_take_the_key_number_modulo_sixteen() {
    let mut vm = with_registers(&[(1, 0x37)]);
    assert_eq!(vm.set_input(7, true), Ok(()));
    vm.execute(0xE19E, None);
    assert_eq!(vm.program_counter(), 0x202);
    vm.execute(0xE1A1, None);
    assert_eq!(vm.program_counter(), 0x202);
}

#[test]
fn wait_for_key_captures_then_commits_on_release() {
    let mut vm = Chip8::new();
    vm.set_rom(&[0xF4, 0x0A, 0x6A, 0x07]);
    // No key held: the instruction repeats.
    vm.cycle();
    assert_eq!(vm.program_counter(), 0x200);
    assert_eq!(vm.blocking_input(), None);
    vm.cycle();
    assert_eq!(vm.program_counter(), 0x200);
    // Two keys held: the lowest is captured and the instruction completes.
    assert_eq!(vm.set_input(9, true), Ok(()));
    assert_eq!(vm.set_input(5, true), Ok(()));
    vm.cycle();
    assert_eq!(vm.blocking_input(), Some(5));
    assert_eq!(vm.program_counter(), 0x202);
    assert_eq!(vm.register(4), Ok(0));
    vm.cycle();
    assert_eq!(vm.register(0xA), Ok(7));
    assert_eq!(vm.program_counter(), 0x204);
}

#[test]
fn wait_for_key_second_phase_waits_for_release() {
    let mut vm = Chip8::new();
    assert_eq!(vm.set_input(5, true), Ok(()));
    vm.execute(0xF40A, None);
    assert_eq!(vm.blocking_input(), Some(5));
    assert_eq!(vm.program_counter(), 0x200);
    // Still held: rewind by one instruction.
    vm.execute(0xF40A, None);
    assert_eq!(vm.program_counter(), 0x1FE);
    assert_eq!(vm.blocking_input(), Some(5));
    assert_eq!(vm.register(4), Ok(0));
    // Released: commit.
    assert_eq!(vm.set_input(5, false), Ok(()));
    vm.execute(0xF40A, None);
    assert_eq!(vm.program_counter(), 0x1FE);
    assert_eq!(vm.blocking_input(), None);
    assert_eq!(vm.register(4), Ok(5));
}

#[test]
fn wait_for_key_sees_key_zero_and_key_fifteen() {
    let mut vm = Chip8::new();
    assert_eq!(vm.set_input(15, true), Ok(()));
    vm.execute(0xF40A, None);
    assert_eq!(vm.blocking_input(), Some(15));
    let mut vm = Chip8::new();
    assert_eq!(vm.set_input(15, true), Ok(()));
    assert_eq!(vm.set_input(0, true), Ok(()));
    vm.execute(0xF40A, None);
    assert_eq!(vm.blocking_input(), Some(0));
}

#[test]
fn wait_for_key_rewind_wraps_below_zero() {
    let mut vm = Chip8::new();
    vm.execute(0x1001, None);
    vm.execute(0xF40A, None);
    assert_eq!(vm.program_counter(), 0xFFFF);
}
