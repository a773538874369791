//! What each instruction does to a machine, and what one fetch-decode-execute step does,
//! as functions on the abstract state.

use vstd::prelude::*;
use crate::display::{collides, drawn, sprite_rows};
use crate::instruction::{spec_decode, Instruction};
use crate::state::{blank_screen, Fault, State, FLAG_REG, NUM_KEYS, NUM_REGS, RAM_SIZE, STACK_SIZE};

verus! {

/// The instruction word stored at `pc`: two bytes, the more significant one first.
pub open spec fn opcode_at(ram: Seq<u8>, pc: int) -> u16 {
    (256 * ram[pc] + ram[pc + 1]) as u16
}

/// Key `k` is held down and no key below it is.
pub open spec fn is_lowest_pressed(keys: Seq<bool>, k: int) -> bool {
    &&& 0 <= k < keys.len()
    &&& keys[k]
    &&& forall|j: int| 0 <= j < k ==> !keys[j]
}

/// The lowest key that is held down, if any key is.
pub open spec fn lowest_pressed(keys: Seq<bool>) -> Option<u8> {
    if exists|k: int| is_lowest_pressed(keys, k) {
        Some((choose|k: int| is_lowest_pressed(keys, k)) as u8)
    } else {
        None
    }
}

impl State {
    /// Register `VX`.
    pub open spec fn reg(self, x: u8) -> u8 {
        self.v[x as int]
    }

    /// This state, but with the program counter at `pc`.
    pub open spec fn with_pc(self, pc: u16) -> State {
        State { pc, ..self }
    }

    /// This state, but with the next instruction skipped if `cond` holds.
    pub open spec fn skip_if(self, cond: bool) -> State {
        if cond {
            self.with_pc((self.pc + 2) as u16)
        } else {
            self
        }
    }

    /// This state, but with `VX = val`.
    pub open spec fn with_reg(self, x: u8, val: u8) -> State {
        State { v: self.v.update(x as int, val), ..self }
    }

    /// This state, but with `VX = val` and then `VF = flag`. Where `x` is 15 the flag stays.
    pub open spec fn with_reg_and_flag(self, x: u8, val: u8, flag: u8) -> State {
        State { v: self.v.update(x as int, val).update(FLAG_REG as int, flag), ..self }
    }

    /// This state, but with the index register at `i`.
    pub open spec fn with_index(self, i: u16) -> State {
        State { i, ..self }
    }
}

/// The effect of `instr` on the state `s`, in which the program counter already points past
/// the instruction. `rnd` is the byte that a `Random` instruction draws; no other
/// instruction looks at it. `Err` says why the instruction cannot be carried out.
pub open spec fn apply(s: State, instr: Instruction, rnd: u8) -> Result<State, Fault> {
    match instr {
        Instruction::Nop => Ok(s),
        Instruction::ClearScreen => Ok(State { screen: blank_screen(), ..s }),
        Instruction::Return => if s.sp == 0 {
            Err(Fault::StackUnderflow)
        } else {
            Ok(State { sp: (s.sp - 1) as u16, pc: s.stack[s.sp - 1], ..s })
        },
        Instruction::Jump { addr } => Ok(s.with_pc(addr)),
        Instruction::Call { addr } => if s.sp >= STACK_SIZE {
            Err(Fault::StackOverflow)
        } else {
            Ok(State { stack: s.stack.update(s.sp as int, s.pc), sp: (s.sp + 1) as u16, pc: addr, ..s })
        },
        Instruction::SkipEqImm { x, nn } => Ok(s.skip_if(s.reg(x) == nn)),
        Instruction::SkipNeImm { x, nn } => Ok(s.skip_if(s.reg(x) != nn)),
        Instruction::SkipEqReg { x, y } => Ok(s.skip_if(s.reg(x) == s.reg(y))),
        Instruction::LoadImm { x, nn } => Ok(s.with_reg(x, nn)),
        Instruction::AddImm { x, nn } => Ok(s.with_reg(x, ((s.reg(x) + nn) % 256) as u8)),
        Instruction::Move { x, y } => Ok(s.with_reg(x, s.reg(y))),
        Instruction::Or { x, y } => Ok(s.with_reg(x, s.reg(x) | s.reg(y))),
        Instruction::And { x, y } => Ok(s.with_reg(x, s.reg(x) & s.reg(y))),
        Instruction::Xor { x, y } => Ok(s.with_reg(x, s.reg(x) ^ s.reg(y))),
        Instruction::Add { x, y } => Ok(
            s.with_reg_and_flag(
                x,
                ((s.reg(x) + s.reg(y)) % 256) as u8,
                if s.reg(x) + s.reg(y) > 255 { 1 } else { 0 },
            ),
        ),
        Instruction::Sub { x, y } => Ok(
            s.with_reg_and_flag(
                x,
                ((s.reg(x) - s.reg(y)) % 256) as u8,
                if s.reg(x) < s.reg(y) { 0 } else { 1 },
            ),
        ),
        Instruction::ShiftRight { x } => Ok(s.with_reg_and_flag(x, s.reg(x) / 2, s.reg(x) % 2)),
        Instruction::SubFrom { x, y } => Ok(
            s.with_reg_and_flag(
                x,
                ((s.reg(y) - s.reg(x)) % 256) as u8,
                if s.reg(y) < s.reg(x) { 0 } else { 1 },
            ),
        ),
        Instruction::ShiftLeft { x } => Ok(
            s.with_reg_and_flag(x, ((2 * s.reg(x)) % 256) as u8, s.reg(x) / 128),
        ),
        Instruction::SkipNeReg { x, y } => Ok(s.skip_if(s.reg(x) != s.reg(y))),
        Instruction::LoadIndex { addr } => Ok(s.with_index(addr)),
        Instruction::JumpOffset { addr } => Ok(s.with_pc((s.v[0] + addr) as u16)),
        Instruction::Random { x, nn } => Ok(s.with_reg(x, rnd & nn)),
        Instruction::Draw { x, y, n } => if n > 0 && s.i + n > RAM_SIZE {
            Err(Fault::MemoryOutOfRange)
        } else {
            let sprite = sprite_rows(s.ram, s.i as int, n as int);
            Ok(
                State {
                    screen: drawn(s.screen, sprite, s.reg(x), s.reg(y)),
                    v: s.v.update(
                        FLAG_REG as int,
                        if collides(s.screen, sprite, s.reg(x), s.reg(y)) { 1u8 } else { 0u8 },
                    ),
                    ..s
                },
            )
        },
        Instruction::SkipKey { x } => if s.reg(x) >= NUM_KEYS {
            Err(Fault::KeyOutOfRange)
        } else {
            Ok(s.skip_if(s.keys[s.reg(x) as int]))
        },
        Instruction::SkipNoKey { x } => if s.reg(x) >= NUM_KEYS {
            Err(Fault::KeyOutOfRange)
        } else {
            Ok(s.skip_if(!s.keys[s.reg(x) as int]))
        },
        Instruction::GetDelay { x } => Ok(s.with_reg(x, s.dt)),
        Instruction::WaitKey { x } => match lowest_pressed(s.keys) {
            Some(k) => Ok(s.with_reg(x, k)),
            None => Ok(s.with_pc((s.pc - 2) as u16)),
        },
        Instruction::SetDelay { x } => Ok(State { dt: s.reg(x), ..s }),
        Instruction::SetSound { x } => Ok(State { st: s.reg(x), ..s }),
        Instruction::AddIndex { x } => Ok(s.with_index(((s.i + s.reg(x)) % 0x10000) as u16)),
        Instruction::FontAddr { x } => Ok(s.with_index((5 * s.reg(x)) as u16)),
        Instruction::Bcd { x } => if s.i + 2 >= RAM_SIZE {
            Err(Fault::MemoryOutOfRange)
        } else {
            Ok(
                State {
                    ram: s.ram.update(s.i as int, s.reg(x) / 100).update(
                        s.i + 1,
                        (s.reg(x) / 10) % 10,
                    ).update(s.i + 2, s.reg(x) % 10),
                    ..s
                },
            )
        },
        Instruction::Store { x } => if s.i + x >= RAM_SIZE {
            Err(Fault::MemoryOutOfRange)
        } else {
            Ok(
                State {
                    ram: Seq::new(
                        RAM_SIZE as nat,
                        |a: int| if s.i <= a <= s.i + x { s.v[a - s.i] } else { s.ram[a] },
                    ),
                    ..s
                },
            )
        },
        Instruction::Load { x } => if s.i + x >= RAM_SIZE {
            Err(Fault::MemoryOutOfRange)
        } else {
            Ok(
                State {
                    v: Seq::new(
                        NUM_REGS as nat,
                        |r: int| if r <= x { s.ram[s.i + r] } else { s.v[r] },
                    ),
                    ..s
                },
            )
        },
    }
}

/// The effect of the instruction word `op` on the state `s`, in which the program counter
/// already points past the word.
pub open spec fn spec_execute(s: State, op: u16, rnd: u8) -> Result<State, Fault> {
    match spec_decode(op) {
        Some(instr) => apply(s, instr, rnd),
        None => Err(Fault::UnknownOpcode(op)),
    }
}

/// Whether the next instruction can be fetched: both of its bytes lie within memory.
pub open spec fn can_fetch(s: State) -> bool {
    s.pc + 1 < RAM_SIZE
}

/// The state `s` after the fetch of the instruction at the program counter.
pub open spec fn fetched(s: State) -> State {
    s.with_pc((s.pc + 2) as u16)
}

/// One step: fetch the word at the program counter, advance the program counter by two,
/// then carry the instruction out. `rnd` is the byte drawn if the instruction is `Random`.
pub open spec fn step(s: State, rnd: u8) -> Result<State, Fault> {
    if can_fetch(s) {
        spec_execute(fetched(s), opcode_at(s.ram, s.pc as int), rnd)
    } else {
        Err(Fault::MemoryOutOfRange)
    }
}

/// The instruction that the next step carries out, if it gets that far: the one that the
/// word at the program counter names.
pub open spec fn next_instruction(s: State) -> Option<Instruction> {
    if can_fetch(s) {
        spec_decode(opcode_at(s.ram, s.pc as int))
    } else {
        None
    }
}

/// Whether the next step draws a random byte.
pub open spec fn draws_random(s: State) -> bool {
    next_instruction(s) matches Some(Instruction::Random { .. })
}

/// What an operation that was to turn `pre` into `expected` has reported and left behind:
/// on success `Ok` and the expected state, on a fault that fault and the state as it was.
pub open spec fn outcome(expected: Result<State, Fault>, pre: State, r: Result<(), Fault>, post: State) -> bool {
    match expected {
        Ok(next) => r is Ok && post == next,
        Err(fault) => r == Err::<(), Fault>(fault) && post == pre,
    }
}

/// `outcome` for one step that drew the byte `rnd`.
pub open spec fn stepped(pre: State, rnd: u8, r: Result<(), Fault>, post: State) -> bool {
    outcome(step(pre, rnd), pre, r, post)
}

} // verus!
