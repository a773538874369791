use chip8_core::display::draw_sprite;
use chip8_core::{Emu, Fault};

fn run(program: &[u8], steps: usize) -> Emu {
    let mut emu = Emu::new();
    assert_eq!(emu.load(program), Ok(()));
    for _ in 0..steps {
        assert_eq!(emu.tick(), Ok(()));
    }
    emu
}

fn lit_pixels(emu: &Emu) -> Vec<(usize, usize)> {
    let mut lit = Vec::new();
    for (index, pixel) in emu.get_display().iter().enumerate() {
        if *pixel {
            lit.push((index % 64, index / 64));
        }
    }
    lit
}

#[test]
fn draw_paints_the_glyph_zero() {
    // I = 0 (glyph 0); V0 = 2; V1 = 1; draw 5 rows at (V0, V1)
    let emu = run(&[0xA0, 0x00, 0x60, 0x02, 0x61, 0x01, 0xD0, 0x15], 4);
    let expected = vec![
        (2, 1), (3, 1), (4, 1), (5, 1),
        (2, 2), (5, 2),
        (2, 3), (5, 3),
        (2, 4), (5, 4),
        (2, 5), (3, 5), (4, 5), (5, 5),
    ];
    assert_eq!(lit_pixels(&emu), expected);
    assert_eq!(emu.registers()[0xF], 0);
    assert_eq!(emu.program_counter(), 520);
}

#[test]
fn draw_reads_bits_from_the_most_significant() {
    // sprite row 0b1010_0001 stored behind the program
    let emu = run(&[0xA2, 0x04, 0xD0, 0x01, 0xA1], 2);
    assert_eq!(lit_pixels(&emu), vec![(0, 0), (2, 0), (7, 0)]);
}

#[test]
fn drawing_twice_erases_and_reports_the_collision() {
    let mut emu = run(&[0xA0, 0x00, 0x60, 0x02, 0x61, 0x01, 0xD0, 0x15, 0xD0, 0x15], 4);
    assert_eq!(emu.registers()[0xF], 0);
    assert_eq!(lit_pixels(&emu).len(), 14);
    assert_eq!(emu.tick(), Ok(()));
    assert_eq!(emu.registers()[0xF], 1);
    assert!(lit_pixels(&emu).is_empty());
}

#[test]
fn drawing_an_empty_sprite_twice_never_collides() {
    // the sprite is one zero byte, at 0x300
    let emu = run(&[0xA3, 0x00, 0xD0, 0x01, 0xD0, 0x01], 3);
    assert_eq!(emu.registers()[0xF], 0);
    assert!(lit_pixels(&emu).is_empty());
}

#[test]
fn draw_clears_a_flag_left_by_an_earlier_instruction() {
    let emu = run(&[0x6F, 0x01, 0xA0, 0x00, 0xD0, 0x05], 3);
    assert_eq!(emu.registers()[0xF], 0);
}

#[test]
fn partial_overlap_toggles_and_collides() {
    // row 0b1100_0000 at (0,0), then row 0b1100_0000 at (1,0): pixel 1 goes off, pixel 2 on
    let emu = run(&[0xA2, 0x08, 0xD0, 0x01, 0x60, 0x01, 0xD0, 0x11, 0xC0], 4);
    assert_eq!(lit_pixels(&emu), vec![(0, 0), (2, 0)]);
    assert_eq!(emu.registers()[0xF], 1);
}

#[test]
fn sprite_wraps_around_the_right_edge() {
    // V0 = 63; V1 = 31; I -> 0xFF; draw one row at (63, 31)
    let emu = run(&[0x60, 0x3F, 0x61, 0x1F, 0xA2, 0x08, 0xD0, 0x11, 0xFF], 4);
    let expected = vec![(0, 31), (1, 31), (2, 31), (3, 31), (4, 31), (5, 31), (6, 31), (63, 31)];
    assert_eq!(lit_pixels(&emu), expected);
    assert_eq!(emu.registers()[0xF], 0);
}

#[test]
fn sprite_wraps_around_the_bottom_edge() {
    // V0 = 0; V1 = 31; two rows of 0x80 at (0, 31): rows 31 and 0
    let emu = run(&[0x61, 0x1F, 0xA2, 0x06, 0xD0, 0x12, 0x80, 0x80], 3);
    assert_eq!(lit_pixels(&emu), vec![(0, 0), (0, 31)]);
}

#[test]
fn coordinates_are_taken_modulo_the_display_size() {
    // V0 = 64 + 3; V1 = 32 + 2
    let emu = run(&[0x60, 0x43, 0x61, 0x22, 0xA2, 0x08, 0xD0, 0x11, 0x80], 4);
    assert_eq!(lit_pixels(&emu), vec![(3, 2)]);

    // V0 = 255; V1 = 255: 255 % 64 = 63, 255 % 32 = 31
    let emu = run(&[0x60, 0xFF, 0x61, 0xFF, 0xA2, 0x08, 0xD0, 0x11, 0x80], 4);
    assert_eq!(lit_pixels(&emu), vec![(63, 31)]);
}

#[test]
fn drawing_zero_rows_draws_nothing_and_clears_the_flag() {
    let emu = run(&[0x6F, 0x01, 0xA0, 0x00, 0xD0, 0x00], 3);
    assert!(lit_pixels(&emu).is_empty());
    assert_eq!(emu.registers()[0xF], 0);
    assert_eq!(emu.program_counter(), 518);
}

#[test]
fn drawing_zero_rows_needs_no_memory() {
    // I = 0xFFF, V0 = 0xFF; I += V0 seventeen times puts I beyond memory
    let mut program = vec![0xAF, 0xFF, 0x60, 0xFF];
    for _ in 0..17 {
        program.extend_from_slice(&[0xF0, 0x1E]);
    }
    program.extend_from_slice(&[0xD1, 0x10]);
    let emu = run(&program, 2 + 17 + 1);
    assert!(emu.index_register() > 4096);
    assert!(lit_pixels(&emu).is_empty());
}

#[test]
fn draw_at_the_end_of_memory() {
    // the last byte of memory is zero: one row from 0xFFF is fine
    let emu = run(&[0xAF, 0xFF, 0xD0, 0x01], 2);
    assert!(lit_pixels(&emu).is_empty());
}

#[test]
fn draw_beyond_the_end_of_memory_is_refused() {
    let mut emu = run(&[0xA0, 0x00, 0xD0, 0x05, 0xAF, 0xFF, 0xD0, 0x02], 3);
    let before: Vec<bool> = emu.get_display().to_vec();
    assert_eq!(emu.tick(), Err(Fault::MemoryOutOfRange));
    assert_eq!(emu.get_display(), &before[..]);
    assert_eq!(emu.program_counter(), 518);
    assert_eq!(emu.registers()[0xF], 0);
}

#[test]
fn clear_screen_turns_every_pixel_off() {
    let mut emu = run(&[0xA0, 0x00, 0xD0, 0x05, 0x00, 0xE0], 2);
    assert!(!lit_pixels(&emu).is_empty());
    assert_eq!(emu.tick(), Ok(()));
    assert!(lit_pixels(&emu).is_empty());
    assert_eq!(emu.get_display().len(), 2048);
    assert_eq!(emu.program_counter(), 518);
}

#[test]
fn display_is_row_major() {
    // one pixel at (5, 3)
    let emu = run(&[0x60, 0x05, 0x61, 0x03, 0xA2, 0x08, 0xD0, 0x11, 0x80], 4);
    let display = emu.get_display();
    assert!(display[5 + 64 * 3]);
    assert_eq!(display.iter().filter(|pixel| **pixel).count(), 1);
}

#[test]
fn draw_sprite_toggles_pixels_and_reports_collisions() {
    let mut screen = [false; 2048];
    let mut ram = [0u8; 4096];
    ram[10] = 0b1000_0001;
    ram[11] = 0b0100_0000;
    assert!(!draw_sprite(&mut screen, &ram, 10, 2, 60, 30));
    let mut expected = [false; 2048];
    expected[60 + 64 * 30] = true;
    expected[3 + 64 * 30] = true;
    expected[61 + 64 * 31] = true;
    assert_eq!(&screen[..], &expected[..]);

    assert!(draw_sprite(&mut screen, &ram, 11, 1, 60, 31));
    expected[61 + 64 * 31] = false;
    assert_eq!(&screen[..], &expected[..]);
}

#[test]
fn draw_sprite_with_no_rows_does_nothing() {
    let mut screen = [false; 2048];
    screen[100] = true;
    let ram = [0xFFu8; 4096];
    assert!(!draw_sprite(&mut screen, &ram, 0, 0, 0, 0));
    let mut expected = [false; 2048];
    expected[100] = true;
    assert_eq!(&screen[..], &expected[..]);
}
