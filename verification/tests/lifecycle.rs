use chip8_core::state::{FONTSET, FONTSET_SIZE, MAX_PROGRAM_SIZE, RAM_SIZE, SCREEN_SIZE, START_ADDR};
use chip8_core::{Emu, Fault, SCREEN_HEIGHT, SCREEN_WIDTH};

fn assert_initial(emu: &Emu) {
    assert_eq!(emu.program_counter(), 512);
    assert_eq!(emu.index_register(), 0);
    assert_eq!(emu.stack_pointer(), 0);
    assert_eq!(emu.delay_timer(), 0);
    assert_eq!(emu.sound_timer(), 0);
    assert_eq!(emu.registers(), &[0u8; 16][..]);
    assert_eq!(emu.stack(), &[0u16; 16][..]);
    assert_eq!(emu.keypad(), &[false; 16][..]);
    assert_eq!(emu.get_display().len(), 2048);
    assert!(emu.get_display().iter().all(|pixel| !pixel));
    assert_eq!(emu.memory().len(), 4096);
    assert_eq!(&emu.memory()[..80], &FONTSET[..]);
    assert!(emu.memory()[80..].iter().all(|byte| *byte == 0));
}

#[test]
fn constants_have_their_documented_values() {
    assert_eq!(SCREEN_WIDTH, 64);
    assert_eq!(SCREEN_HEIGHT, 32);
    assert_eq!(SCREEN_SIZE, SCREEN_WIDTH * SCREEN_HEIGHT);
    assert_eq!(RAM_SIZE, 4096);
    assert_eq!(START_ADDR, 0x200);
    assert_eq!(FONTSET_SIZE, 80);
    assert_eq!(MAX_PROGRAM_SIZE, RAM_SIZE - START_ADDR as usize);
}

#[test]
fn font_glyphs_are_five_bytes_each() {
    assert_eq!(&FONTSET[0..5], &[0xF0, 0x90, 0x90, 0x90, 0xF0]);
    assert_eq!(&FONTSET[5..10], &[0x20, 0x60, 0x20, 0x20, 0x70]);
    assert_eq!(&FONTSET[75..80], &[0xF0, 0x80, 0xF0, 0x80, 0x80]);
}

#[test]
fn new_machine_is_in_initial_state() {
    let emu = Emu::new();
    assert_initial(&emu);
}

#[test]
fn reset_restores_initial_state() {
    let mut emu = Emu::new();
    // V3 = 0x2A, I = 0x300, delay = sound = V3, store V0..V3 at I, call 0x20E, draw the glyph 0.
    let program = [
        0x63, 0x2A, 0xA3, 0x00, 0xF3, 0x15, 0xF3, 0x18, 0xF3, 0x55, 0x22, 0x0E, 0x00, 0x00, 0xA0,
        0x00, 0xD0, 0x05,
    ];
    assert_eq!(emu.load(&program), Ok(()));
    for _ in 0..8 {
        assert_eq!(emu.tick(), Ok(()));
    }
    emu.keypress(7, true);
    assert_eq!(emu.registers()[3], 0x2A);
    assert_eq!(emu.stack_pointer(), 1);
    assert_eq!(emu.delay_timer(), 0x2A);
    assert_eq!(emu.sound_timer(), 0x2A);
    assert_eq!(emu.memory()[0x303], 0x2A);
    assert!(emu.get_display().iter().any(|pixel| *pixel));
    assert!(emu.keypad()[7]);

    emu.reset();
    assert_initial(&emu);
}

#[test]
fn reset_of_a_new_machine_changes_nothing() {
    let mut emu = Emu::new();
    emu.reset();
    assert_initial(&emu);
}

#[test]
fn load_copies_the_program_to_address_512() {
    let mut emu = Emu::new();
    assert_eq!(emu.load(&[0x12, 0x34, 0x56]), Ok(()));
    assert_eq!(&emu.memory()[512..515], &[0x12, 0x34, 0x56]);
    assert_eq!(emu.memory()[511], 0);
    assert_eq!(emu.memory()[515], 0);
    assert_eq!(&emu.memory()[..80], &FONTSET[..]);
    assert_eq!(emu.program_counter(), 512);
}

#[test]
fn load_overwrites_but_does_not_clear() {
    let mut emu = Emu::new();
    assert_eq!(emu.load(&[1, 2, 3, 4]), Ok(()));
    assert_eq!(emu.load(&[9, 8]), Ok(()));
    assert_eq!(&emu.memory()[512..516], &[9, 8, 3, 4]);
}

#[test]
fn load_of_nothing_changes_nothing() {
    let mut emu = Emu::new();
    assert_eq!(emu.load(&[]), Ok(()));
    assert_initial(&emu);
}

#[test]
fn load_accepts_a_program_that_fills_memory() {
    let mut emu = Emu::new();
    let program = vec![0xAB; MAX_PROGRAM_SIZE];
    assert_eq!(emu.load(&program), Ok(()));
    assert_eq!(emu.memory()[512], 0xAB);
    assert_eq!(emu.memory()[4095], 0xAB);
    assert_eq!(emu.memory()[511], 0);
}

#[test]
fn load_refuses_a_program_that_does_not_fit() {
    let mut emu = Emu::new();
    assert_eq!(emu.load(&[7, 7]), Ok(()));
    let program = vec![0xAB; MAX_PROGRAM_SIZE + 1];
    assert_eq!(emu.load(&program), Err(Fault::ProgramTooLarge));
    assert_eq!(&emu.memory()[512..515], &[7, 7, 0]);
    assert_eq!(emu.memory()[4095], 0);
}

#[test]
fn keypress_sets_and_clears_one_key() {
    let mut emu = Emu::new();
    emu.keypress(0, true);
    emu.keypress(15, true);
    let mut expected = [false; 16];
    expected[0] = true;
    expected[15] = true;
    assert_eq!(emu.keypad(), &expected[..]);
    emu.keypress(0, false);
    expected[0] = false;
    assert_eq!(emu.keypad(), &expected[..]);
}

#[test]
fn tick_timers_leaves_zero_timers_at_zero() {
    let mut emu = Emu::new();
    assert!(!emu.tick_timers());
    assert_eq!(emu.delay_timer(), 0);
    assert_eq!(emu.sound_timer(), 0);
}

#[test]
fn tick_timers_counts_each_timer_down_by_one() {
    let mut emu = Emu::new();
    // V0 = 3, delay = V0, V1 = 2, sound = V1
    assert_eq!(emu.load(&[0x60, 0x03, 0xF0, 0x15, 0x61, 0x02, 0xF1, 0x18]), Ok(()));
    for _ in 0..4 {
        assert_eq!(emu.tick(), Ok(()));
    }
    assert_eq!((emu.delay_timer(), emu.sound_timer()), (3, 2));
    assert!(!emu.tick_timers());
    assert_eq!((emu.delay_timer(), emu.sound_timer()), (2, 1));
    assert!(emu.tick_timers());
    assert_eq!((emu.delay_timer(), emu.sound_timer()), (1, 0));
    assert!(!emu.tick_timers());
    assert_eq!((emu.delay_timer(), emu.sound_timer()), (0, 0));
    assert!(!emu.tick_timers());
    assert_eq!((emu.delay_timer(), emu.sound_timer()), (0, 0));
}

#[test]
fn tick_timers_touches_nothing_but_the_timers() {
    let mut emu = Emu::new();
    assert_eq!(emu.load(&[0x60, 0x03, 0xF0, 0x15]), Ok(()));
    assert_eq!(emu.tick(), Ok(()));
    assert_eq!(emu.tick(), Ok(()));
    emu.tick_timers();
    assert_eq!(emu.program_counter(), 516);
    assert_eq!(emu.registers()[0], 3);
    assert_eq!(&emu.memory()[512..516], &[0x60, 0x03, 0xF0, 0x15]);
}
