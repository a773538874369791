//! The abstract machine state: what a CHIP-8 machine is, as plain mathematical values.

use vstd::prelude::*;

verus! {

/// Width of the display in pixels.
pub const SCREEN_WIDTH: usize = 64;

/// Height of the display in pixels.
pub const SCREEN_HEIGHT: usize = 32;

/// Number of pixels of the display, `SCREEN_WIDTH * SCREEN_HEIGHT`.
pub const SCREEN_SIZE: usize = 2048;

/// Number of bytes of memory.
pub const RAM_SIZE: usize = 4096;

/// Number of general-purpose registers, `V0` to `VF`.
pub const NUM_REGS: usize = 16;

/// Index of `VF`, the register that receives carry, borrow and collision flags.
pub const FLAG_REG: usize = 15;

/// Number of return addresses the call stack can hold.
pub const STACK_SIZE: usize = 16;

/// Number of keys of the keypad.
pub const NUM_KEYS: usize = 16;

/// Address at which programs are loaded and at which execution starts.
pub const START_ADDR: u16 = 0x200;

/// Largest program, in bytes, that fits between `START_ADDR` and the end of memory.
pub const MAX_PROGRAM_SIZE: usize = 3584;

/// Number of bytes of the built-in font: sixteen glyphs of five bytes each.
pub const FONTSET_SIZE: usize = 80;

/// The built-in font. Glyph `d` (a hexadecimal digit) occupies bytes `5 * d .. 5 * d + 5`;
/// each byte is one row of the glyph, its four high bits being the pixels.
pub const FONTSET: [u8; 80] = [
    0xF0, 0x90, 0x90, 0x90, 0xF0,
    0x20, 0x60, 0x20, 0x20, 0x70,
    0xF0, 0x10, 0xF0, 0x80, 0xF0,
    0xF0, 0x10, 0xF0, 0x10, 0xF0,
    0x90, 0x90, 0xF0, 0x10, 0x10,
    0xF0, 0x80, 0xF0, 0x10, 0xF0,
    0xF0, 0x80, 0xF0, 0x90, 0xF0,
    0xF0, 0x10, 0x20, 0x40, 0x40,
    0xF0, 0x90, 0xF0, 0x90, 0xF0,
    0xF0, 0x90, 0xF0, 0x10, 0xF0,
    0xF0, 0x90, 0xF0, 0x90, 0x90,
    0xE0, 0x90, 0xE0, 0x90, 0xE0,
    0xF0, 0x80, 0x80, 0x80, 0xF0,
    0xE0, 0x90, 0x90, 0x90, 0xE0,
    0xF0, 0x80, 0xF0, 0x80, 0xF0,
    0xF0, 0x80, 0xF0, 0x80, 0x80,
];

/// Why a step or a load was refused. A refused operation leaves the machine as it was.
#[derive(Clone, Copy, Debug, PartialEq, Eq, Structural)]
pub enum Fault {
    /// The instruction word matches no instruction of the set.
    UnknownOpcode(u16),
    /// An instruction fetch or a memory operand reaches beyond the last byte of memory.
    MemoryOutOfRange,
    /// A call was made with sixteen return addresses already on the stack.
    StackOverflow,
    /// A return was made with no return address on the stack.
    StackUnderflow,
    /// A key instruction named a key that the keypad does not have.
    KeyOutOfRange,
    /// A program is longer than the memory that follows `START_ADDR`.
    ProgramTooLarge,
}

/// The state of a machine. Sequences have fixed lengths, stated by `wf`.
pub struct State {
    /// Program counter: address of the next instruction.
    pub pc: u16,
    /// Memory, `RAM_SIZE` bytes.
    pub ram: Seq<u8>,
    /// Display, `SCREEN_SIZE` pixels in row-major order: pixel `(x, y)` is at `x + 64 * y`.
    pub screen: Seq<bool>,
    /// Registers `V0` to `VF`.
    pub v: Seq<u8>,
    /// Index register `I`.
    pub i: u16,
    /// Stack pointer: number of return addresses on the stack.
    pub sp: u16,
    /// Stack slots; those below `sp` hold the return addresses, oldest first.
    pub stack: Seq<u16>,
    /// Keypad: `keys[k]` says whether key `k` is held down.
    pub keys: Seq<bool>,
    /// Delay timer.
    pub dt: u8,
    /// Sound timer.
    pub st: u8,
}

impl State {
    /// Every sequence has its fixed length and the stack pointer is within the stack.
    pub open spec fn wf(self) -> bool {
        &&& self.ram.len() == RAM_SIZE
        &&& self.screen.len() == SCREEN_SIZE
        &&& self.v.len() == NUM_REGS
        &&& self.stack.len() == STACK_SIZE
        &&& self.keys.len() == NUM_KEYS
        &&& self.sp <= STACK_SIZE
    }

    /// The state of a machine that has just been built or reset: everything is zero, except
    /// for the font at the bottom of memory and the program counter, which is `START_ADDR`.
    pub open spec fn initial() -> State {
        State {
            pc: START_ADDR,
            ram: Seq::new(RAM_SIZE as nat, |a: int| if a < FONTSET_SIZE { FONTSET@[a] } else { 0u8 }),
            screen: blank_screen(),
            v: Seq::new(NUM_REGS as nat, |r: int| 0u8),
            i: 0,
            sp: 0,
            stack: Seq::new(STACK_SIZE as nat, |k: int| 0u16),
            keys: Seq::new(NUM_KEYS as nat, |k: int| false),
            dt: 0,
            st: 0,
        }
    }

    /// This state, but with `data` copied into memory from `START_ADDR` on.
    pub open spec fn loaded(self, data: Seq<u8>) -> State {
        State {
            ram: Seq::new(
                RAM_SIZE as nat,
                |a: int|
                    if START_ADDR <= a < START_ADDR + data.len() {
                        data[a - START_ADDR]
                    } else {
                        self.ram[a]
                    },
            ),
            ..self
        }
    }

    /// This state, but with key `k` held down or released.
    pub open spec fn with_key(self, k: int, pressed: bool) -> State {
        State { keys: self.keys.update(k, pressed), ..self }
    }

    /// This state after one tick of the timers: each timer that is not zero loses one.
    pub open spec fn timers_ticked(self) -> State {
        State {
            dt: if self.dt > 0 { (self.dt - 1) as u8 } else { 0 },
            st: if self.st > 0 { (self.st - 1) as u8 } else { 0 },
            ..self
        }
    }
}

/// A display with every pixel off.
pub open spec fn blank_screen() -> Seq<bool> {
    Seq::new(SCREEN_SIZE as nat, |p: int| false)
}

} // verus!
