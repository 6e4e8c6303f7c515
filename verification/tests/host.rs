use chip8_emulator::application::{display_cells, on_message, AppCommand, RuntimeData};
use chip8_emulator::chip8::Chip8Rom;
use chip8_emulator::quirks::QuirkConfig;
use chip8_emulator::wgpu_math::Vec2i;

fn shelf() -> Vec<Chip8Rom> {
    vec![
        Chip8Rom::new("First", vec![0x6A, 0x01]),
        Chip8Rom::new_quirks("Second", vec![0x6A, 0x02], QuirkConfig::create(true, false)),
        Chip8Rom::new("Third", vec![0x6A, 0x03]),
    ]
}

#[test]
fn runtime_starts_with_first_rom() {
    let data = RuntimeData::new(shelf());
    assert_eq!(data.current_rom, 0);
    assert_eq!(data.roms.len(), 3);
    assert_eq!(&data.chip8.memory()[0x200..0x202], &[0x6A, 0x01]);
}

#[test]
fn rom_list_gives_names_in_order() {
    let data = RuntimeData::new(shelf());
    assert_eq!(data.rom_list(), vec!["First".to_string(), "Second".to_string(), "Third".to_string()]);
}

#[test]
fn load_rom_replaces_the_machine() {
    let mut data = RuntimeData::new(shelf());
    data.chip8.cycle();
    assert_eq!(data.chip8.register(0xA), Ok(1));
    on_message(&mut data, AppCommand::LOAD_ROM(1));
    assert_eq!(data.current_rom, 1);
    assert_eq!(data.chip8.register(0xA), Ok(0));
    assert_eq!(data.chip8.program_counter(), 0x200);
    assert_eq!(&data.chip8.memory()[0x200..0x202], &[0x6A, 0x02]);
    assert_eq!(data.chip8.quirk_config(), QuirkConfig::create(true, false));
    data.set_rom(2);
    assert_eq!(data.current_rom, 2);
    assert_eq!(&data.chip8.memory()[0x200..0x202], &[0x6A, 0x03]);
    assert_eq!(data.chip8.quirk_config(), QuirkConfig::new());
}

#[test]
fn reset_restarts_the_current_rom() {
    let mut data = RuntimeData::new(shelf());
    data.set_rom(2);
    data.chip8.cycle();
    assert_eq!(data.chip8.set_input(4, true), Ok(()));
    assert_eq!(data.chip8.register(0xA), Ok(3));
    on_message(&mut data, AppCommand::RESET);
    assert_eq!(data.current_rom, 2);
    assert_eq!(data.chip8.register(0xA), Ok(0));
    assert_eq!(data.chip8.program_counter(), 0x200);
    assert_eq!(data.chip8.input(), &[false; 16]);
    data.chip8.cycle();
    data.reset_device();
    assert_eq!(data.chip8.program_counter(), 0x200);
    assert_eq!(data.roms.len(), 3);
}

#[test]
fn commands_are_accepted_only_for_roms_on_offer() {
    let mut data = RuntimeData::new(shelf());
    assert!(data.accepts(AppCommand::RESET));
    assert!(data.accepts(AppCommand::LOAD_ROM(0)));
    assert!(data.accepts(AppCommand::LOAD_ROM(2)));
    assert!(!data.accepts(AppCommand::LOAD_ROM(3)));
    assert!(!data.accepts(AppCommand::LOAD_ROM(255)));
    data.current_rom = 3;
    assert!(!data.accepts(AppCommand::RESET));
}

#[test]
fn commands_compare_by_value() {
    assert_eq!(AppCommand::LOAD_ROM(3), AppCommand::LOAD_ROM(3));
    assert_ne!(AppCommand::LOAD_ROM(3), AppCommand::LOAD_ROM(4));
    assert_ne!(AppCommand::RESET, AppCommand::LOAD_ROM(0));
}

#[test]
fn display_cells_are_row_major() {
    let mut display = [[false; 64]; 32];
    display[0][0] = true;
    display[0][63] = true;
    display[1][0] = true;
    display[31][59] = true;
    display[31][63] = true;
    let cells = display_cells(&display);
    let lit: Vec<usize> = (0..2048).filter(|&cell| cells[cell] != 0).collect();
    assert_eq!(lit, vec![0, 63, 64, 31 * 64 + 59, 2047]);
    assert!(cells.iter().all(|&cell| cell == 0 || cell == 1));
}

#[test]
fn display_cells_of_blank_and_full_display() {
    assert_eq!(display_cells(&[[false; 64]; 32]), [0u32; 2048]);
    assert_eq!(display_cells(&[[true; 64]; 32]), [1u32; 2048]);
}

#[test]
fn display_cells_follow_the_machine() {
    let rom = Chip8Rom::new("Glyph", vec![0xA0, 0x50, 0xD0, 0x05]);
    let mut vm = rom.to_device();
    vm.cycle();
    vm.cycle();
    let cells = display_cells(vm.display());
    // The glyph for 0 is F0 90 90 90 F0.
    let expected: [[u32; 4]; 5] = [[1, 1, 1, 1], [1, 0, 0, 1], [1, 0, 0, 1], [1, 0, 0, 1], [1, 1, 1, 1]];
    for row in 0..5 {
        assert_eq!(&cells[row * 64..row * 64 + 4], &expected[row]);
        assert_eq!(&cells[row * 64 + 4..row * 64 + 64], &[0u32; 60]);
    }
    assert_eq!(cells.iter().sum::<u32>(), 14);
}

#[test]
fn vec2i_constructors() {
    let v = Vec2i::new(640, -320);
    assert_eq!((v.x, v.y), (640, -320));
    let v = Vec2i::zero();
    assert_eq!((v.x, v.y), (0, 0));
    let v = Vec2i::new_dim((1280, 640));
    assert_eq!((v.x, v.y), (1280, 640));
    let v = Vec2i::new_dim((u32::MAX, 0x8000_0000));
    assert_eq!((v.x, v.y), (-1, i32::MIN));
}

#[test]
fn vec2i_arithmetic() {
    let v = Vec2i::new(7, -7);
    let w = v.multiply(-3);
    assert_eq!((w.x, w.y), (-21, 21));
    let w = v.subtract(Vec2i::new(10, -10));
    assert_eq!((w.x, w.y), (-3, 3));
    let w = v.divide_single(2);
    assert_eq!((w.x, w.y), (3, -3));
    let w = v.divide_single(-2);
    assert_eq!((w.x, w.y), (-3, 3));
    let w = v.divide(7, 8);
    assert_eq!((w.x, w.y), (1, 0));
    let w = Vec2i::new(i32::MIN, i32::MAX).divide(1, -1);
    assert_eq!((w.x, w.y), (i32::MIN, -i32::MAX));
    let w = Vec2i::new(i32::MIN, i32::MIN).divide_single(2);
    assert_eq!((w.x, w.y), (i32::MIN / 2, -1073741824));
}

#[test]
fn vec2i_division_matches_machine_division() {
    for a in [-100i32, -7, -1, 0, 1, 7, 100, i32::MAX, i32::MIN + 1] {
        for b in [-13i32, -2, -1, 1, 2, 13, i32::MAX, i32::MIN] {
            let w = Vec2i::new(a, a).divide(b, b);
            assert_eq!((w.x, w.y), (a / b, a / b));
        }
    }
}
