//! Laws of the machine: general facts that follow from the semantics, stated and proved.

use vstd::prelude::*;
use crate::display::{bit_set, collides, drawn, pixel_col, pixel_row, sprite_pixel, sprite_rows};
use crate::instruction::{lemma_decode_wf, Instruction};
use crate::semantics::{
    apply, draws_random, fetched, is_lowest_pressed, lowest_pressed, next_instruction, opcode_at,
    step,
};
use crate::state::{
    Fault, State, FLAG_REG, FONTSET, FONTSET_SIZE, NUM_KEYS, NUM_REGS, RAM_SIZE, SCREEN_SIZE,
    STACK_SIZE, START_ADDR,
};

verus! {

/// A machine that has just been built or reset has every register, both timers, the index
/// register, the stack pointer and every stack slot at zero, no key held down, a blank
/// display, the program counter at `START_ADDR`, the font in the first `FONTSET_SIZE`
/// bytes of memory and zero in every other byte.
pub proof fn lemma_initial_state()
    ensures
        State::initial().wf(),
        State::initial().pc == START_ADDR,
        State::initial().i == 0,
        State::initial().sp == 0,
        State::initial().dt == 0,
        State::initial().st == 0,
        forall|r: int| 0 <= r < NUM_REGS ==> State::initial().v[r] == 0,
        forall|k: int| 0 <= k < STACK_SIZE ==> State::initial().stack[k] == 0,
        forall|k: int| 0 <= k < NUM_KEYS ==> !State::initial().keys[k],
        forall|p: int| 0 <= p < SCREEN_SIZE ==> !State::initial().screen[p],
        forall|a: int| 0 <= a < FONTSET_SIZE ==> State::initial().ram[a] == FONTSET@[a],
        forall|a: int| FONTSET_SIZE <= a < RAM_SIZE ==> State::initial().ram[a] == 0,
{
}

/// A step that succeeds takes a well-formed state to a well-formed state.
pub proof fn lemma_step_preserves_wf(s: State, rnd: u8)
    requires
        s.wf(),
    ensures
        step(s, rnd) matches Ok(next) ==> next.wf(),
{
    if let Some(instr) = next_instruction(s) {
        lemma_decode_wf(opcode_at(s.ram, s.pc as int));
        lemma_apply_preserves_wf(fetched(s), instr, rnd);
    }
}

/// An instruction that succeeds takes a well-formed state to a well-formed state.
pub proof fn lemma_apply_preserves_wf(s: State, instr: Instruction, rnd: u8)
    requires
        s.wf(),
        instr.wf(),
    ensures
        apply(s, instr, rnd) matches Ok(next) ==> next.wf(),
{
}

/// The byte drawn matters to a `Random` instruction only: any other step goes the same way
/// whatever the byte.
pub proof fn lemma_step_ignores_unused_byte(s: State, rnd1: u8, rnd2: u8)
    requires
        !draws_random(s),
    ensures
        step(s, rnd1) == step(s, rnd2),
{
}

/// Adding an immediate (`7XNN`) leaves `VX + nn` modulo 256 in `VX` and changes nothing
/// else but the program counter, which moves on by two: no other register is written, `VF`
/// included, even when the sum passes 255.
pub proof fn lemma_add_immediate(s: State, x: u8, nn: u8, rnd: u8)
    requires
        s.wf(),
        next_instruction(s) == Some(Instruction::AddImm { x, nn }),
    ensures
        step(s, rnd) == Ok::<State, Fault>(fetched(s).with_reg(x, ((s.reg(x) + nn) % 256) as u8)),
        step(s, rnd)->Ok_0.reg(x) == (s.reg(x) + nn) % 256,
        forall|r: int| 0 <= r < NUM_REGS && r != x ==> step(s, rnd)->Ok_0.v[r] == s.v[r],
{
    lemma_decode_wf(opcode_at(s.ram, s.pc as int));
}

/// Whether `instr` is one of the six instructions that may skip the instruction after it.
pub open spec fn is_skip(instr: Instruction) -> bool {
    instr is SkipEqImm || instr is SkipNeImm || instr is SkipEqReg || instr is SkipNeReg
        || instr is SkipKey || instr is SkipNoKey
}

/// The condition under which the skip instruction `instr` skips, in state `s`.
pub open spec fn skip_condition(s: State, instr: Instruction) -> bool {
    match instr {
        Instruction::SkipEqImm { x, nn } => s.reg(x) == nn,
        Instruction::SkipNeImm { x, nn } => s.reg(x) != nn,
        Instruction::SkipEqReg { x, y } => s.reg(x) == s.reg(y),
        Instruction::SkipNeReg { x, y } => s.reg(x) != s.reg(y),
        Instruction::SkipKey { x } => s.keys[s.reg(x) as int],
        Instruction::SkipNoKey { x } => !s.keys[s.reg(x) as int],
        _ => false,
    }
}

/// The key that a key-skip instruction asks about exists. Holds of every other instruction.
pub open spec fn names_a_key(s: State, instr: Instruction) -> bool {
    match instr {
        Instruction::SkipKey { x } => s.reg(x) < NUM_KEYS,
        Instruction::SkipNoKey { x } => s.reg(x) < NUM_KEYS,
        _ => true,
    }
}

/// A skip instruction moves the program counter on by four where its condition holds and by
/// two where it does not, and changes nothing else.
pub proof fn lemma_skip_advance(s: State, instr: Instruction, rnd: u8)
    requires
        s.wf(),
        next_instruction(s) == Some(instr),
        is_skip(instr),
        names_a_key(s, instr),
    ensures
        skip_condition(s, instr) ==> step(s, rnd) == Ok::<State, Fault>(s.with_pc((s.pc + 4) as u16)),
        !skip_condition(s, instr) ==> step(s, rnd) == Ok::<State, Fault>(
            s.with_pc((s.pc + 2) as u16),
        ),
        step(s, rnd)->Ok_0.pc == s.pc + if skip_condition(s, instr) { 4int } else { 2int },
{
}

/// While no key is held down, a step on a wait-for-key instruction (`FX0A`) succeeds and
/// leaves the machine exactly as it was, program counter included; so does any number of
/// such steps in a row.
pub proof fn lemma_wait_key_blocks(s: State, x: u8, rnd: u8)
    requires
        s.wf(),
        next_instruction(s) == Some(Instruction::WaitKey { x }),
        forall|k: int| 0 <= k < NUM_KEYS ==> !s.keys[k],
    ensures
        step(s, rnd) == Ok::<State, Fault>(s),
{
    assert(lowest_pressed(s.keys) is None);
    assert(fetched(s).with_pc((fetched(s).pc - 2) as u16) == s);
}

/// Once a key is held down, a step on a wait-for-key instruction (`FX0A`) stores the lowest
/// such key in `VX` and moves the program counter on by two.
pub proof fn lemma_wait_key_resumes(s: State, x: u8, k: u8, rnd: u8)
    requires
        s.wf(),
        next_instruction(s) == Some(Instruction::WaitKey { x }),
        is_lowest_pressed(s.keys, k as int),
    ensures
        step(s, rnd) == Ok::<State, Fault>(fetched(s).with_reg(x, k)),
        step(s, rnd)->Ok_0.pc == s.pc + 2,
        step(s, rnd)->Ok_0.reg(x) == k,
{
    lemma_decode_wf(opcode_at(s.ram, s.pc as int));
    let found = choose|j: int| is_lowest_pressed(s.keys, j);
    assert(found == k);
}

/// With no key held down, a step on a wait-for-key instruction (`FX0A`) right after key `k`
/// has been pressed stores `k` in `VX` and moves the program counter on by two.
pub proof fn lemma_wait_key_after_keypress(s: State, x: u8, k: u8, rnd: u8)
    requires
        s.wf(),
        next_instruction(s) == Some(Instruction::WaitKey { x }),
        forall|j: int| 0 <= j < NUM_KEYS ==> !s.keys[j],
        k < NUM_KEYS,
    ensures
        step(s.with_key(k as int, true), rnd) == Ok::<State, Fault>(
            fetched(s.with_key(k as int, true)).with_reg(x, k),
        ),
        step(s.with_key(k as int, true), rnd)->Ok_0.pc == s.pc + 2,
{
    let pressed = s.with_key(k as int, true);
    assert(is_lowest_pressed(pressed.keys, k as int));
    lemma_wait_key_resumes(pressed, x, k, rnd);
}

/// Drawing a sprite twice at the same place gives the display back as it was.
pub proof fn lemma_draw_twice_restores(screen: Seq<bool>, sprite: Seq<u8>, vx: u8, vy: u8)
    ensures
        drawn(drawn(screen, sprite, vx, vy), sprite, vx, vy) == screen,
{
    assert(drawn(drawn(screen, sprite, vx, vy), sprite, vx, vy) =~= screen);
}

/// The sprite has a set bit in one of its first 32 rows.
pub open spec fn has_set_bit(sprite: Seq<u8>) -> bool {
    exists|r: int| 0 <= r < sprite.len() && r < 32 && sprite[r] != 0
}

/// Every pixel that the sprite, placed at `(vx, vy)`, would toggle is off.
pub open spec fn blank_under(screen: Seq<bool>, sprite: Seq<u8>, vx: u8, vy: u8) -> bool {
    forall|p: int| 0 <= p < screen.len() && sprite_pixel(sprite, vx, vy, p) ==> !screen[p]
}

/// Drawing a sprite over pixels that are all off reports no collision; drawing it again at
/// the same place reports one, provided that the sprite has a set bit at all.
pub proof fn lemma_draw_twice_collides(screen: Seq<bool>, sprite: Seq<u8>, vx: u8, vy: u8)
    requires
        screen.len() == SCREEN_SIZE,
        blank_under(screen, sprite, vx, vy),
    ensures
        !collides(screen, sprite, vx, vy),
        has_set_bit(sprite) ==> collides(drawn(screen, sprite, vx, vy), sprite, vx, vy),
{
    if has_set_bit(sprite) {
        let r = choose|r: int| 0 <= r < sprite.len() && r < 32 && sprite[r] != 0;
        let b = sprite[r];
        assert(b != 0 ==> (b & (0x80u8 >> 0u8) != 0 || b & (0x80u8 >> 1u8) != 0 || b & (0x80u8
            >> 2u8) != 0 || b & (0x80u8 >> 3u8) != 0 || b & (0x80u8 >> 4u8) != 0 || b & (0x80u8
            >> 5u8) != 0 || b & (0x80u8 >> 6u8) != 0 || b & (0x80u8 >> 7u8) != 0))
            by (bit_vector);
        let c: int = if bit_set(b, 0) {
            0
        } else if bit_set(b, 1) {
            1
        } else if bit_set(b, 2) {
            2
        } else if bit_set(b, 3) {
            3
        } else if bit_set(b, 4) {
            4
        } else if bit_set(b, 5) {
            5
        } else if bit_set(b, 6) {
            6
        } else {
            7
        };
        assert(bit_set(b, c));
        let p = (vx + c) % 64 + 64 * ((vy + r) % 32);
        assert(pixel_row(vy, p) == r && pixel_col(vx, p) == c);
        assert(sprite_pixel(sprite, vx, vy, p));
        assert(drawn(screen, sprite, vx, vy)[p]);
    }
}

/// The draw instruction (`DXYN`), run twice in a row on pixels that were all off, clears
/// `VF` the first time and gives the display back as it was the second time; the second
/// time it sets `VF` to 1, provided that the sprite has a set bit. `VX` and `VY` must not
/// be `VF` itself, or the first draw would move the place of the second.
pub proof fn lemma_draw_instruction_twice(s: State, x: u8, y: u8, n: u8, rnd: u8)
    requires
        s.wf(),
        x < FLAG_REG,
        y < FLAG_REG,
        n < 16,
        s.i + n <= RAM_SIZE,
        blank_under(s.screen, sprite_rows(s.ram, s.i as int, n as int), s.reg(x), s.reg(y)),
    ensures
        ({
            let draw = Instruction::Draw { x, y, n };
            let once = apply(s, draw, rnd);
            let twice = apply(once->Ok_0, draw, rnd);
            &&& once is Ok
            &&& once->Ok_0.v[FLAG_REG as int] == 0
            &&& twice is Ok
            &&& twice->Ok_0.screen == s.screen
            &&& has_set_bit(sprite_rows(s.ram, s.i as int, n as int)) ==> twice->Ok_0.v[FLAG_REG as int]
                == 1
        }),
{
    let sprite = sprite_rows(s.ram, s.i as int, n as int);
    lemma_draw_twice_restores(s.screen, sprite, s.reg(x), s.reg(y));
    lemma_draw_twice_collides(s.screen, sprite, s.reg(x), s.reg(y));
}

} // verus!
