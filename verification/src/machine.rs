//! The machine itself: the state held in fixed-size arrays, and the operations on it.

use vstd::prelude::*;
use crate::display::draw_sprite;
use crate::instruction::{decode, Instruction};
use crate::rng::random_byte;
use crate::semantics::{
    apply, can_fetch, draws_random, fetched, is_lowest_pressed, lowest_pressed, opcode_at,
    outcome, spec_execute, stepped,
};
use crate::state::{
    blank_screen, Fault, State, FLAG_REG, FONTSET, FONTSET_SIZE, MAX_PROGRAM_SIZE, NUM_KEYS,
    NUM_REGS, RAM_SIZE, SCREEN_SIZE, STACK_SIZE, START_ADDR,
};

verus! {

/// A CHIP-8 machine. Its abstract state is its view, `self@`.
pub struct Emu {
    pc: u16,
    ram: [u8; RAM_SIZE],
    screen: [bool; SCREEN_SIZE],
    v_reg: [u8; NUM_REGS],
    i_reg: u16,
    sp: u16,
    stack: [u16; STACK_SIZE],
    keys: [bool; NUM_KEYS],
    dt: u8,
    st: u8,
}

impl View for Emu {
    type V = State;

    closed spec fn view(&self) -> State {
        State {
            pc: self.pc,
            ram: self.ram@,
            screen: self.screen@,
            v: self.v_reg@,
            i: self.i_reg,
            sp: self.sp,
            stack: self.stack@,
            keys: self.keys@,
            dt: self.dt,
            st: self.st,
        }
    }
}

impl Emu {
    /// The stack pointer never leaves the stack.
    #[verifier::type_invariant]
    spec fn inv(&self) -> bool {
        self.sp <= STACK_SIZE
    }

    /// A machine in its initial state.
    pub fn new() -> (emu: Emu)
        ensures
            emu@ == State::initial(),
            emu@.wf(),
    {
        let mut emu = Emu {
            pc: START_ADDR,
            ram: [0; RAM_SIZE],
            screen: [false; SCREEN_SIZE],
            v_reg: [0; NUM_REGS],
            i_reg: 0,
            sp: 0,
            stack: [0; STACK_SIZE],
            keys: [false; NUM_KEYS],
            dt: 0,
            st: 0,
        };
        emu.install_font();
        proof {
            let init = State::initial();
            assert(emu@.ram =~= init.ram);
            assert(emu@.screen =~= init.screen);
            assert(emu@.v =~= init.v);
            assert(emu@.stack =~= init.stack);
            assert(emu@.keys =~= init.keys);
        }
        emu
    }

    /// Copies the font into the first `FONTSET_SIZE` bytes of memory.
    fn install_font(&mut self)
        ensures
            final(self)@ == (State {
                ram: Seq::new(
                    RAM_SIZE as nat,
                    |a: int| if a < FONTSET_SIZE { FONTSET@[a] } else { old(self)@.ram[a] },
                ),
                ..old(self)@
            }),
    {
        let mut k: usize = 0;
        while k < FONTSET_SIZE
            invariant
                k <= FONTSET_SIZE,
                self@ == (State { ram: self@.ram, ..old(self)@ }),
                forall|a: int| 0 <= a < k ==> self@.ram[a] == FONTSET@[a],
                forall|a: int| k <= a < RAM_SIZE ==> self@.ram[a] == old(self)@.ram[a],
            decreases FONTSET_SIZE - k,
        {
            proof {
                use_type_invariant(&*self);
            }
            self.ram[k] = FONTSET[k];
            k += 1;
        }
        assert(self@.ram =~= Seq::new(
            RAM_SIZE as nat,
            |a: int| if a < FONTSET_SIZE { FONTSET@[a] } else { old(self)@.ram[a] },
        ));
    }

    /// Puts the machine back into its initial state, whatever state it was in.
    pub fn reset(&mut self)
        ensures
            final(self)@ == State::initial(),
            final(self)@.wf(),
    {
        proof {
            use_type_invariant(&*self);
        }
        self.pc = START_ADDR;
        self.ram = [0; RAM_SIZE];
        self.screen = [false; SCREEN_SIZE];
        self.v_reg = [0; NUM_REGS];
        self.i_reg = 0;
        self.sp = 0;
        self.stack = [0; STACK_SIZE];
        self.keys = [false; NUM_KEYS];
        self.dt = 0;
        self.st = 0;
        self.install_font();
        proof {
            let init = State::initial();
            assert(self@.ram =~= init.ram);
            assert(self@.screen =~= init.screen);
            assert(self@.v =~= init.v);
            assert(self@.stack =~= init.stack);
            assert(self@.keys =~= init.keys);
        }
    }

    /// Copies the program `data` into memory from `START_ADDR` on, over whatever was there;
    /// the rest of the machine is not touched. A program that does not fit is refused.
    pub fn load(&mut self, data: &[u8]) -> (r: Result<(), Fault>)
        ensures
            final(self)@.wf(),
            data@.len() <= MAX_PROGRAM_SIZE ==> r is Ok && final(self)@ == old(self)@.loaded(data@),
            data@.len() > MAX_PROGRAM_SIZE ==> r == Err::<(), Fault>(Fault::ProgramTooLarge)
                && final(self)@ == old(self)@,
    {
        proof {
            use_type_invariant(&*self);
        }
        if data.len() > MAX_PROGRAM_SIZE {
            return Err(Fault::ProgramTooLarge);
        }
        let start: usize = START_ADDR as usize;
        let mut k: usize = 0;
        while k < data.len()
            invariant
                k <= data@.len() <= MAX_PROGRAM_SIZE,
                start == START_ADDR,
                self@ == (State { ram: self@.ram, ..old(self)@ }),
                forall|a: int| start <= a < start + k ==> self@.ram[a] == data@[a - start],
                forall|a: int|
                    0 <= a < RAM_SIZE && !(start <= a < start + k) ==> self@.ram[a] == old(
                        self,
                    )@.ram[a],
            decreases data@.len() - k,
        {
            proof {
                use_type_invariant(&*self);
            }
            self.ram[start + k] = data[k];
            k += 1;
        }
        assert(self@.ram =~= old(self)@.loaded(data@).ram);
        Ok(())
    }

    /// Marks key `idx` as held down or released.
    pub fn keypress(&mut self, idx: usize, pressed: bool)
        requires
            idx < NUM_KEYS,
        ensures
            final(self)@ == old(self)@.with_key(idx as int, pressed),
            final(self)@.wf(),
    {
        proof {
            use_type_invariant(&*self);
        }
        self.keys[idx] = pressed;
    }

    /// Counts both timers down by one, stopping at zero. The result says whether the sound
    /// timer has just gone from one to zero, which is when the tone is due.
    pub fn tick_timers(&mut self) -> (beep: bool)
        ensures
            final(self)@ == old(self)@.timers_ticked(),
            final(self)@.wf(),
            beep == (old(self)@.st == 1),
    {
        proof {
            use_type_invariant(&*self);
        }
        if self.dt > 0 {
            self.dt -= 1;
        }
        let mut beep = false;
        if self.st > 0 {
            if self.st == 1 {
                beep = true;
            }
            self.st -= 1;
        }
        beep
    }

    /// Runs one step: fetches the instruction at the program counter and carries it out.
    /// A `Random` instruction draws its byte from the random source, so the contract can
    /// only say that the step went as `step` describes for some byte; for every other
    /// instruction the byte plays no part and the step is fixed. A step that faults leaves
    /// the machine as it was.
    pub fn tick(&mut self) -> (r: Result<(), Fault>)
        ensures
            final(self)@.wf(),
            exists|rnd: u8| stepped(old(self)@, rnd, r, final(self)@),
            !draws_random(old(self)@) ==> stepped(old(self)@, 0, r, final(self)@),
    {
        let op = match self.fetch() {
            Ok(op) => op,
            Err(fault) => {
                assert(stepped(old(self)@, 0, Err(fault), self@));
                return Err(fault);
            },
        };
        let rnd: u8 = if op & 0xF000 == 0xC000 {
            random_byte()
        } else {
            0
        };
        assert((op & 0xF000 == 0xC000) == (op / 0x1000 == 0xC)) by (bit_vector);
        let r = self.execute_or_rewind(op, rnd);
        assert(stepped(old(self)@, rnd, r, self@));
        r
    }

    /// Runs one step like `tick`, but with `rnd` as the byte that a `Random` instruction
    /// draws. The step is then fixed by the state alone.
    pub fn tick_with(&mut self, rnd: u8) -> (r: Result<(), Fault>)
        ensures
            final(self)@.wf(),
            stepped(old(self)@, rnd, r, final(self)@),
    {
        let op = self.fetch()?;
        self.execute_or_rewind(op, rnd)
    }

    /// Carries out the fetched word `op`; if that faults, moves the program counter back
    /// onto the instruction, so that the machine is as it was before the fetch.
    fn execute_or_rewind(&mut self, op: u16, rnd: u8) -> (r: Result<(), Fault>)
        requires
            2 <= old(self)@.pc <= RAM_SIZE,
        ensures
            final(self)@.wf(),
            match spec_execute(old(self)@, op, rnd) {
                Ok(next) => r is Ok && final(self)@ == next,
                Err(fault) => r == Err::<(), Fault>(fault) && final(self)@ == old(self)@.with_pc(
                    (old(self)@.pc - 2) as u16,
                ),
            },
    {
        let r = self.execute(op, rnd);
        if r.is_err() {
            proof {
                use_type_invariant(&*self);
            }
            self.pc = self.pc - 2;
        }
        r
    }

    /// Reads the instruction word at the program counter and moves the program counter
    /// past it.
    fn fetch(&mut self) -> (r: Result<u16, Fault>)
        ensures
            final(self)@.wf(),
            match r {
                Ok(op) => can_fetch(old(self)@) && op == opcode_at(
                    old(self)@.ram,
                    old(self)@.pc as int,
                ) && final(self)@ == fetched(old(self)@),
                Err(fault) => !can_fetch(old(self)@) && fault == Fault::MemoryOutOfRange
                    && final(self)@ == old(self)@,
            },
    {
        proof {
            use_type_invariant(&*self);
        }
        let pc = self.pc as usize;
        if pc + 1 >= RAM_SIZE {
            return Err(Fault::MemoryOutOfRange);
        }
        let higher_byte = self.ram[pc] as u16;
        let lower_byte = self.ram[pc + 1] as u16;
        let op = (higher_byte << 8) | lower_byte;
        assert(op == 256 * higher_byte + lower_byte) by (bit_vector)
            requires
                op == (higher_byte << 8) | lower_byte,
                higher_byte < 256,
                lower_byte < 256,
        ;
        self.pc += 2;
        Ok(op)
    }

    /// Pushes `val` onto the stack.
    fn push(&mut self, val: u16) -> (r: Result<(), Fault>)
        ensures
            final(self)@.wf(),
            outcome(
                if old(self)@.sp >= STACK_SIZE {
                    Err(Fault::StackOverflow)
                } else {
                    Ok(
                        State {
                            stack: old(self)@.stack.update(old(self)@.sp as int, val),
                            sp: (old(self)@.sp + 1) as u16,
                            ..old(self)@
                        },
                    )
                },
                old(self)@,
                r,
                final(self)@,
            ),
    {
        proof {
            use_type_invariant(&*self);
        }
        if self.sp as usize >= STACK_SIZE {
            return Err(Fault::StackOverflow);
        }
        self.stack[self.sp as usize] = val;
        self.sp += 1;
        Ok(())
    }

    /// Pops the top of the stack.
    fn pop(&mut self) -> (r: Result<u16, Fault>)
        ensures
            final(self)@.wf(),
            match r {
                Ok(val) => old(self)@.sp > 0 && val == old(self)@.stack[old(self)@.sp - 1]
                    && final(self)@ == (State { sp: (old(self)@.sp - 1) as u16, ..old(self)@ }),
                Err(fault) => old(self)@.sp == 0 && fault == Fault::StackUnderflow && final(self)@
                    == old(self)@,
            },
    {
        proof {
            use_type_invariant(&*self);
        }
        if self.sp == 0 {
            return Err(Fault::StackUnderflow);
        }
        self.sp -= 1;
        Ok(self.stack[self.sp as usize])
    }

    /// Carries out the instruction word `op`, the program counter pointing past it already.
    /// `rnd` is the byte that a `Random` instruction draws. An instruction that faults
    /// changes nothing.
    fn execute(&mut self, op: u16, rnd: u8) -> (r: Result<(), Fault>)
        requires
            2 <= old(self)@.pc <= RAM_SIZE,
        ensures
            final(self)@.wf(),
            outcome(spec_execute(old(self)@, op, rnd), old(self)@, r, final(self)@),
    {
        match decode(op) {
            Some(instr) => self.run(instr, rnd),
            None => {
                proof {
                    use_type_invariant(&*self);
                }
                Err(Fault::UnknownOpcode(op))
            },
        }
    }

    /// Carries out `instr`, the program counter pointing past it already.
    fn run(&mut self, instr: Instruction, rnd: u8) -> (r: Result<(), Fault>)
        requires
            instr.wf(),
            2 <= old(self)@.pc <= RAM_SIZE,
        ensures
            final(self)@.wf(),
            outcome(apply(old(self)@, instr, rnd), old(self)@, r, final(self)@),
    {
        proof {
            use_type_invariant(&*self);
        }
        match instr {
            Instruction::Nop => Ok(()),
            Instruction::ClearScreen => {
                self.screen = [false; SCREEN_SIZE];
                assert(self@.screen =~= blank_screen());
                Ok(())
            },
            Instruction::Return => {
                let ret_addr = self.pop()?;
                self.pc = ret_addr;
                Ok(())
            },
            Instruction::Jump { addr } => {
                self.pc = addr;
                Ok(())
            },
            Instruction::Call { addr } => {
                self.push(self.pc)?;
                self.pc = addr;
                Ok(())
            },
            Instruction::SkipEqImm { x, nn } => {
                self.skip_if(self.v_reg[x as usize] == nn);
                Ok(())
            },
            Instruction::SkipNeImm { x, nn } => {
                self.skip_if(self.v_reg[x as usize] != nn);
                Ok(())
            },
            Instruction::SkipEqReg { x, y } => {
                self.skip_if(self.v_reg[x as usize] == self.v_reg[y as usize]);
                Ok(())
            },
            Instruction::LoadImm { x, nn } => {
                self.set_reg(x, nn);
                Ok(())
            },
            Instruction::AddImm { x, nn } => {
                self.set_reg(x, self.v_reg[x as usize].wrapping_add(nn));
                Ok(())
            },
            Instruction::Move { x, y } => {
                self.set_reg(x, self.v_reg[y as usize]);
                Ok(())
            },
            Instruction::Or { x, y } => {
                self.set_reg(x, self.v_reg[x as usize] | self.v_reg[y as usize]);
                Ok(())
            },
            Instruction::And { x, y } => {
                self.set_reg(x, self.v_reg[x as usize] & self.v_reg[y as usize]);
                Ok(())
            },
            Instruction::Xor { x, y } => {
                self.set_reg(x, self.v_reg[x as usize] ^ self.v_reg[y as usize]);
                Ok(())
            },
            Instruction::Add { x, y } => {
                let vx = self.v_reg[x as usize];
                let vy = self.v_reg[y as usize];
                let carry = vx as u16 + vy as u16 > 255;
                self.set_reg_and_flag(x, vx.wrapping_add(vy), if carry { 1 } else { 0 });
                Ok(())
            },
            Instruction::Sub { x, y } => {
                let vx = self.v_reg[x as usize];
                let vy = self.v_reg[y as usize];
                let borrow = vx < vy;
                self.set_reg_and_flag(x, vx.wrapping_sub(vy), if borrow { 0 } else { 1 });
                Ok(())
            },
            Instruction::ShiftRight { x } => {
                let vx = self.v_reg[x as usize];
                assert(vx & 1 == vx % 2 && vx >> 1 == vx / 2) by (bit_vector);
                self.set_reg_and_flag(x, vx >> 1, vx & 1);
                Ok(())
            },
            Instruction::SubFrom { x, y } => {
                let vx = self.v_reg[x as usize];
                let vy = self.v_reg[y as usize];
                let borrow = vy < vx;
                self.set_reg_and_flag(x, vy.wrapping_sub(vx), if borrow { 0 } else { 1 });
                Ok(())
            },
            Instruction::ShiftLeft { x } => {
                let vx = self.v_reg[x as usize];
                assert((vx >> 7) & 1 == vx / 128 && vx << 1 == (2 * vx) % 256) by (bit_vector);
                self.set_reg_and_flag(x, vx << 1, (vx >> 7) & 1);
                Ok(())
            },
            Instruction::SkipNeReg { x, y } => {
                self.skip_if(self.v_reg[x as usize] != self.v_reg[y as usize]);
                Ok(())
            },
            Instruction::LoadIndex { addr } => {
                self.i_reg = addr;
                Ok(())
            },
            Instruction::JumpOffset { addr } => {
                self.pc = self.v_reg[0] as u16 + addr;
                Ok(())
            },
            Instruction::Random { x, nn } => {
                self.set_reg(x, rnd & nn);
                Ok(())
            },
            Instruction::Draw { x, y, n } => self.draw(x, y, n),
            Instruction::SkipKey { x } => {
                let vx = self.v_reg[x as usize] as usize;
                if vx >= NUM_KEYS {
                    return Err(Fault::KeyOutOfRange);
                }
                self.skip_if(self.keys[vx]);
                Ok(())
            },
            Instruction::SkipNoKey { x } => {
                let vx = self.v_reg[x as usize] as usize;
                if vx >= NUM_KEYS {
                    return Err(Fault::KeyOutOfRange);
                }
                self.skip_if(!self.keys[vx]);
                Ok(())
            },
            Instruction::GetDelay { x } => {
                self.set_reg(x, self.dt);
                Ok(())
            },
            Instruction::WaitKey { x } => {
                match self.first_pressed_key() {
                    Some(k) => {
                        self.set_reg(x, k);
                    },
                    None => {
                        self.pc -= 2;
                    },
                }
                Ok(())
            },
            Instruction::SetDelay { x } => {
                self.dt = self.v_reg[x as usize];
                Ok(())
            },
            Instruction::SetSound { x } => {
                self.st = self.v_reg[x as usize];
                Ok(())
            },
            Instruction::AddIndex { x } => {
                let vx = self.v_reg[x as usize] as u16;
                self.i_reg = self.i_reg.wrapping_add(vx);
                Ok(())
            },
            Instruction::FontAddr { x } => {
                let c = self.v_reg[x as usize] as u16;
                self.i_reg = c * 5;
                Ok(())
            },
            Instruction::Bcd { x } => self.store_bcd(x),
            Instruction::Store { x } => self.store_registers(x),
            Instruction::Load { x } => self.load_registers(x),
        }
    }

    /// Moves the program counter past the next instruction if `cond` holds.
    fn skip_if(&mut self, cond: bool)
        requires
            old(self)@.pc <= RAM_SIZE,
        ensures
            final(self)@ == old(self)@.skip_if(cond),
    {
        proof {
            use_type_invariant(&*self);
        }
        if cond {
            self.pc += 2;
        }
    }

    /// Sets `VX = val`.
    fn set_reg(&mut self, x: u8, val: u8)
        requires
            x < NUM_REGS,
        ensures
            final(self)@ == old(self)@.with_reg(x, val),
    {
        proof {
            use_type_invariant(&*self);
        }
        self.v_reg[x as usize] = val;
    }

    /// Sets `VX = val`, then `VF = flag`.
    fn set_reg_and_flag(&mut self, x: u8, val: u8, flag: u8)
        requires
            x < NUM_REGS,
        ensures
            final(self)@ == old(self)@.with_reg_and_flag(x, val, flag),
    {
        proof {
            use_type_invariant(&*self);
        }
        self.v_reg[x as usize] = val;
        self.v_reg[FLAG_REG] = flag;
    }

    /// The draw instruction, `DXYN`.
    fn draw(&mut self, x: u8, y: u8, n: u8) -> (r: Result<(), Fault>)
        requires
            x < NUM_REGS,
            y < NUM_REGS,
            n < 16,
        ensures
            final(self)@.wf(),
            outcome(
                apply(old(self)@, Instruction::Draw { x, y, n }, 0),
                old(self)@,
                r,
                final(self)@,
            ),
    {
        proof {
            use_type_invariant(&*self);
        }
        let start = self.i_reg as usize;
        let num_rows = n as usize;
        if num_rows > 0 && start + num_rows > RAM_SIZE {
            return Err(Fault::MemoryOutOfRange);
        }
        let x_coord = self.v_reg[x as usize];
        let y_coord = self.v_reg[y as usize];
        let flipped = draw_sprite(&mut self.screen, &self.ram, start, num_rows, x_coord, y_coord);
        self.v_reg[FLAG_REG] = if flipped { 1 } else { 0 };
        Ok(())
    }

    /// The decimal-digits instruction, `FX33`.
    fn store_bcd(&mut self, x: u8) -> (r: Result<(), Fault>)
        requires
            x < NUM_REGS,
        ensures
            final(self)@.wf(),
            outcome(apply(old(self)@, Instruction::Bcd { x }, 0), old(self)@, r, final(self)@),
    {
        proof {
            use_type_invariant(&*self);
        }
        let i = self.i_reg as usize;
        if i + 2 >= RAM_SIZE {
            return Err(Fault::MemoryOutOfRange);
        }
        let vx = self.v_reg[x as usize];
        let hundreds = vx / 100;
        let tens = (vx / 10) % 10;
        let ones = vx % 10;
        self.ram[i] = hundreds;
        self.ram[i + 1] = tens;
        self.ram[i + 2] = ones;
        Ok(())
    }

    /// The register-dump instruction, `FX55`.
    fn store_registers(&mut self, x: u8) -> (r: Result<(), Fault>)
        requires
            x < NUM_REGS,
        ensures
            final(self)@.wf(),
            outcome(apply(old(self)@, Instruction::Store { x }, 0), old(self)@, r, final(self)@),
    {
        proof {
            use_type_invariant(&*self);
        }
        let i = self.i_reg as usize;
        let last = x as usize;
        if i + last >= RAM_SIZE {
            return Err(Fault::MemoryOutOfRange);
        }
        let mut idx: usize = 0;
        while idx <= last
            invariant
                idx <= last + 1,
                last < NUM_REGS,
                i + last < RAM_SIZE,
                i == old(self)@.i,
                self@ == (State { ram: self@.ram, ..old(self)@ }),
                forall|a: int|
                    0 <= a < RAM_SIZE ==> self@.ram[a] == if i <= a < i + idx {
                        old(self)@.v[a - i]
                    } else {
                        old(self)@.ram[a]
                    },
            decreases last + 1 - idx,
        {
            proof {
                use_type_invariant(&*self);
            }
            self.ram[i + idx] = self.v_reg[idx];
            idx += 1;
        }
        assert(self@.ram =~= apply(old(self)@, Instruction::Store { x }, 0)->Ok_0.ram);
        Ok(())
    }

    /// The register-fill instruction, `FX65`.
    fn load_registers(&mut self, x: u8) -> (r: Result<(), Fault>)
        requires
            x < NUM_REGS,
        ensures
            final(self)@.wf(),
            outcome(apply(old(self)@, Instruction::Load { x }, 0), old(self)@, r, final(self)@),
    {
        proof {
            use_type_invariant(&*self);
        }
        let i = self.i_reg as usize;
        let last = x as usize;
        if i + last >= RAM_SIZE {
            return Err(Fault::MemoryOutOfRange);
        }
        let mut idx: usize = 0;
        while idx <= last
            invariant
                idx <= last + 1,
                last < NUM_REGS,
                i + last < RAM_SIZE,
                i == old(self)@.i,
                self@ == (State { v: self@.v, ..old(self)@ }),
                forall|r: int|
                    0 <= r < NUM_REGS ==> self@.v[r] == if r < idx {
                        old(self)@.ram[i + r]
                    } else {
                        old(self)@.v[r]
                    },
            decreases last + 1 - idx,
        {
            proof {
                use_type_invariant(&*self);
            }
            self.v_reg[idx] = self.ram[i + idx];
            idx += 1;
        }
        assert(self@.v =~= apply(old(self)@, Instruction::Load { x }, 0)->Ok_0.v);
        Ok(())
    }

    /// The lowest key that is held down, if any key is.
    fn first_pressed_key(&self) -> (r: Option<u8>)
        ensures
            r == lowest_pressed(self@.keys),
    {
        let mut k: usize = 0;
        while k < NUM_KEYS
            invariant
                k <= NUM_KEYS,
                forall|j: int| 0 <= j < k ==> !self@.keys[j],
            decreases NUM_KEYS - k,
        {
            if self.keys[k] {
                assert(is_lowest_pressed(self@.keys, k as int));
                return Some(k as u8);
            }
            k += 1;
        }
        None
    }

    /// The display: `SCREEN_SIZE` pixels in row-major order, pixel `(x, y)` at `x + 64 * y`.
    pub fn get_display(&self) -> (pixels: &[bool])
        ensures
            pixels@ == self@.screen,
            pixels@.len() == SCREEN_SIZE,
    {
        &self.screen
    }

    /// The registers `V0` to `VF`.
    pub fn registers(&self) -> (regs: &[u8])
        ensures
            regs@ == self@.v,
            regs@.len() == NUM_REGS,
    {
        &self.v_reg
    }

    /// The whole memory.
    pub fn memory(&self) -> (bytes: &[u8])
        ensures
            bytes@ == self@.ram,
            bytes@.len() == RAM_SIZE,
    {
        &self.ram
    }

    /// The stack slots; the first `stack_pointer()` of them hold return addresses.
    pub fn stack(&self) -> (slots: &[u16])
        ensures
            slots@ == self@.stack,
            slots@.len() == STACK_SIZE,
    {
        &self.stack
    }

    /// The keypad: for each key, whether it is held down.
    pub fn keypad(&self) -> (keys: &[bool])
        ensures
            keys@ == self@.keys,
            keys@.len() == NUM_KEYS,
    {
        &self.keys
    }

    /// The program counter.
    pub fn program_counter(&self) -> (pc: u16)
        ensures
            pc == self@.pc,
    {
        self.pc
    }

    /// The index register `I`.
    pub fn index_register(&self) -> (i: u16)
        ensures
            i == self@.i,
    {
        self.i_reg
    }

    /// The number of return addresses on the stack.
    pub fn stack_pointer(&self) -> (sp: u16)
        ensures
            sp == self@.sp,
            sp <= STACK_SIZE,
    {
        proof {
            use_type_invariant(self);
        }
        self.sp
    }

    /// The delay timer.
    pub fn delay_timer(&self) -> (dt: u8)
        ensures
            dt == self@.dt,
    {
        self.dt
    }

    /// The sound timer. The tone sounds while it is not zero.
    pub fn sound_timer(&self) -> (st: u8)
        ensures
            st == self@.st,
    {
        self.st
    }
}

} // verus!
