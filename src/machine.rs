use vstd::prelude::*;
use crate::instruction::{Instruction, decode};
use crate::semantics::{
    skip, rewind, skip_if, set_reg, exec_spec, step_spec, fetchable, opcode_at, first_pressed,
    sprite_covers, drawn_screen, collides,
};
use crate::state::{
    MachineState, Fault, font, font_spec, MEMORY_SIZE, SCREEN_PIXELS, SCREEN_WIDTH,
    SCREEN_HEIGHT, PROGRAM_START, FONT_OFFSET, GLYPH_BYTES, STACK_LIMIT, VF,
};

verus! {

/// A CHIP-8 machine: memory, registers, call stack, timers and framebuffer.
pub struct Chip8 {
    memory: Vec<u8>,
    pc: u16,
    index: u16,
    stack: Vec<u16>,
    delay_timer: u8,
    sound_timer: u8,
    v: Vec<u8>,
    screen: Vec<u8>,
    index_overflow_sets_vf: bool,
}

impl View for Chip8 {
    type V = MachineState;

    closed spec fn view(&self) -> MachineState {
        MachineState {
            memory: self.memory@,
            pc: self.pc,
            index: self.index,
            stack: self.stack@,
            v: self.v@,
            delay_timer: self.delay_timer,
            sound_timer: self.sound_timer,
            screen: self.screen@,
            index_overflow_sets_vf: self.index_overflow_sets_vf,
        }
    }
}

/// Pixel `(px, py)` lies before position `(col, row)` of the sprite at `(x0, y0)`,
/// in the order in which drawing visits the sprite.
spec fn visited(px: int, py: int, x0: int, y0: int, row: int, col: int) -> bool {
    py - y0 < row || (py - y0 == row && px - x0 < col)
}

/// The framebuffer once drawing has reached `(col, row)`.
spec fn partial_screen(s: MachineState, x0: int, y0: int, n: int, row: int, col: int) -> Seq<u8> {
    Seq::new(
        SCREEN_PIXELS as nat,
        |p: int|
            if sprite_covers(s.memory, s.index, x0, y0, n, p % 64, p / 64) && visited(
                p % 64,
                p / 64,
                x0,
                y0,
                row,
                col,
            ) {
                (1 - s.screen[p]) as u8
            } else {
                s.screen[p]
            },
    )
}

/// Whether drawing up to `(col, row)` has turned off a pixel that was on.
spec fn partial_collides(s: MachineState, x0: int, y0: int, n: int, row: int, col: int) -> bool {
    exists|p: int|
        0 <= p < SCREEN_PIXELS && #[trigger] sprite_covers(s.memory, s.index, x0, y0, n, p % 64, p / 64)
            && visited(p % 64, p / 64, x0, y0, row, col) && s.screen[p] == 1
}

/// `pc` advanced past one instruction, wrapping at 16 bits.
fn skip_pc(pc: u16) -> (r: u16)
    ensures
        r == skip(pc),
{
    pc.wrapping_add(2)
}

/// The lowest held key, or 16 when none is held.
fn first_pressed_key(keys: &[bool; 16]) -> (r: usize)
    ensures
        r == first_pressed(keys@, 0),
{
    let mut i: usize = 0;
    while i < 16
        invariant
            0 <= i <= 16,
            keys@.len() == 16,
            first_pressed(keys@, 0) == first_pressed(keys@, i as int),
        decreases 16 - i,
    {
        if keys[i] {
            return i;
        }
        i += 1;
    }
    16
}

/// A random byte. Relies on `rand::random::<u8>`, which draws from the
/// thread-local generator; nothing is assumed of the value.
#[verifier::external_body]
fn random_byte() -> (r: u8) {
    rand::random::<u8>()
}

/// `pc` moved back by one instruction, wrapping at 16 bits.
fn rewind_pc(pc: u16) -> (r: u16)
    ensures
        r == rewind(pc),
{
    if pc >= 2 {
        pc - 2
    } else {
        pc + 0xFFFE
    }
}

impl Chip8 {
    /// The machine's state is well formed (see `MachineState::wf`).
    pub open spec fn wf(&self) -> bool {
        self@.wf()
    }

    /// A machine with cleared memory, registers, stack, timers and screen,
    /// the glyph table at `FONT_OFFSET` and `pc` at `PROGRAM_START`.
    pub fn new() -> (r: Chip8)
        ensures
            r.wf(),
            r@.pc == PROGRAM_START,
            r@.index == 0,
            r@.stack.len() == 0,
            r@.delay_timer == 0,
            r@.sound_timer == 0,
            r@.index_overflow_sets_vf == false,
            forall|i: int| 0 <= i < 16 ==> r@.v[i] == 0,
            forall|i: int| 0 <= i < SCREEN_PIXELS ==> r@.screen[i] == 0,
            forall|i: int|
                0 <= i < MEMORY_SIZE ==> r@.memory[i] == if FONT_OFFSET <= i < FONT_OFFSET + 80 {
                    font_spec()[i - FONT_OFFSET]
                } else {
                    0
                },
    {
        let mut memory: Vec<u8> = vec![0u8; MEMORY_SIZE];
        let glyphs = font();
        let base: usize = FONT_OFFSET as usize;
        let mut i: usize = 0;
        while i < glyphs.len()
            invariant
                glyphs@ == font_spec(),
                base == FONT_OFFSET,
                0 <= i <= 80,
                memory@.len() == MEMORY_SIZE,
                forall|j: int|
                    0 <= j < MEMORY_SIZE ==> memory@[j] == if base <= j < base + i {
                        font_spec()[j - base]
                    } else {
                        0
                    },
            decreases glyphs.len() - i,
        {
            memory.set(base + i, glyphs[i]);
            i += 1;
        }
        Chip8 {
            memory,
            pc: PROGRAM_START,
            index: 0,
            stack: Vec::new(),
            delay_timer: 0,
            sound_timer: 0,
            v: vec![0u8; 16],
            screen: vec![0u8; SCREEN_PIXELS],
            index_overflow_sets_vf: false,
        }
    }

    /// Selects whether `FX1E` sets VF when the index passes 0xFFF.
    pub fn set_index_overflow_sets_vf(&mut self, on: bool)
        requires
            old(self).wf(),
        ensures
            final(self)@ == (MachineState { index_overflow_sets_vf: on, ..old(self)@ }),
            final(self).wf(),
    {
        self.index_overflow_sets_vf = on;
    }

    /// Copies a program into memory at `PROGRAM_START`; a program that does not
    /// fit is refused and memory is left as it was.
    pub fn load_program(&mut self, program: &Vec<u8>) -> (r: Result<(), Fault>)
        requires
            old(self).wf(),
        ensures
            final(self).wf(),
            PROGRAM_START + program@.len() <= MEMORY_SIZE ==> r is Ok && final(self)@ == (
            MachineState {
                memory: Seq::new(
                    MEMORY_SIZE as nat,
                    |i: int|
                        if PROGRAM_START <= i < PROGRAM_START + program@.len() {
                            program@[i - PROGRAM_START]
                        } else {
                            old(self)@.memory[i]
                        },
                ),
                ..old(self)@
            }),
            PROGRAM_START + program@.len() > MEMORY_SIZE ==> r == Err::<(), Fault>(
                Fault::ProgramTooLarge,
            ) && final(self)@ == old(self)@,
    {
        let base: usize = PROGRAM_START as usize;
        if program.len() > MEMORY_SIZE - base {
            return Err(Fault::ProgramTooLarge);
        }
        let ghost mem0 = self.memory@;
        let mut i: usize = 0;
        while i < program.len()
            invariant
                self.wf(),
                base == PROGRAM_START,
                base + program@.len() <= MEMORY_SIZE,
                0 <= i <= program@.len(),
                self@ == (MachineState { memory: self.memory@, ..old(self)@ }),
                mem0 == old(self)@.memory,
                forall|j: int|
                    0 <= j < MEMORY_SIZE ==> self.memory@[j] == if base <= j < base + i {
                        program@[j - base]
                    } else {
                        mem0[j]
                    },
            decreases program.len() - i,
        {
            self.memory.set(base + i, program[i]);
            i += 1;
        }
        assert(self.memory@ =~= Seq::new(
            MEMORY_SIZE as nat,
            |j: int|
                if PROGRAM_START <= j < PROGRAM_START + program@.len() {
                    program@[j - PROGRAM_START]
                } else {
                    mem0[j]
                },
        ));
        Ok(())
    }

    /// Reads the big-endian opcode at `pc`, or faults when `pc + 1` lies past
    /// the end of memory.
    pub fn fetch(&self) -> (r: Result<u16, Fault>)
        requires
            self.wf(),
        ensures
            fetchable(self@) ==> r == Ok::<u16, Fault>(opcode_at(self@)),
            !fetchable(self@) ==> r == Err::<u16, Fault>(Fault::PcOutOfBounds),
    {
        if self.pc as usize + 1 >= self.memory.len() {
            return Err(Fault::PcOutOfBounds);
        }
        let hi = self.memory[self.pc as usize] as u16;
        let lo = self.memory[self.pc as usize + 1] as u16;
        proof {
            assert((hi << 8) | lo == hi * 256 + lo) by (bit_vector)
                requires
                    hi < 256,
                    lo < 256,
            ;
        }
        Ok((hi << 8) | lo)
    }

    /// Decrements each nonzero timer by one; a timer at zero stays there.
    pub fn tick_timers(&mut self)
        requires
            old(self).wf(),
        ensures
            final(self).wf(),
            final(self)@ == (MachineState {
                delay_timer: if old(self)@.delay_timer > 0 {
                    (old(self)@.delay_timer - 1) as u8
                } else {
                    0
                },
                sound_timer: if old(self)@.sound_timer > 0 {
                    (old(self)@.sound_timer - 1) as u8
                } else {
                    0
                },
                ..old(self)@
            }),
    {
        if self.delay_timer > 0 {
            self.delay_timer -= 1;
        }
        if self.sound_timer > 0 {
            self.sound_timer -= 1;
        }
    }

    /// Sends `pc` back to `PROGRAM_START` once it has run past the last
    /// instruction of a program of `program_len` bytes.
    pub fn restart_if_past_end(&mut self, program_len: usize)
        requires
            old(self).wf(),
        ensures
            final(self).wf(),
            final(self)@ == (MachineState {
                pc: if old(self)@.pc >= PROGRAM_START + program_len {
                    PROGRAM_START
                } else {
                    old(self)@.pc
                },
                ..old(self)@
            }),
    {
        if self.pc >= PROGRAM_START && (self.pc - PROGRAM_START) as usize >= program_len {
            self.pc = PROGRAM_START;
        }
    }

    /// XOR-draws the `n`-row sprite at `memory[index..]` at `(vx mod 64, vy mod 32)`,
    /// clipped at the right and bottom edges; VF reports whether a lit pixel
    /// was turned off.
    fn draw_sprite(&mut self, vx: u8, vy: u8, n: u8)
        requires
            old(self).wf(),
            n < 16,
            old(self)@.index + n <= MEMORY_SIZE,
        ensures
            final(self).wf(),
            final(self)@ == set_reg(
                MachineState {
                    screen: drawn_screen(old(self)@, (vx % 64) as int, (vy % 32) as int, n as int),
                    ..old(self)@
                },
                VF as u8,
                if collides(old(self)@, (vx % 64) as int, (vy % 32) as int, n as int) {
                    1
                } else {
                    0
                },
            ),
    {
        let x0: usize = (vx % 64) as usize;
        let y0: usize = (vy % 32) as usize;
        let ghost s0 = self@;
        let mut collided = false;
        let mut row: usize = 0;
        assert(self.screen@ =~= partial_screen(s0, x0 as int, y0 as int, n as int, 0, 0));
        while row < n as usize && y0 + row < SCREEN_HEIGHT
            invariant
                self.wf(),
                s0.wf(),
                s0.index + n <= MEMORY_SIZE,
                self@ == (MachineState { screen: self.screen@, ..s0 }),
                x0 == vx % 64,
                y0 == vy % 32,
                row <= n,
                self.screen@ == partial_screen(s0, x0 as int, y0 as int, n as int, row as int, 0),
                collided == partial_collides(s0, x0 as int, y0 as int, n as int, row as int, 0),
            decreases n - row,
        {
            let byte = self.memory[self.index as usize + row];
            let mut col: usize = 0;
            while col < 8 && x0 + col < SCREEN_WIDTH
                invariant
                    self.wf(),
                    s0.wf(),
                    s0.index + n <= MEMORY_SIZE,
                    self@ == (MachineState { screen: self.screen@, ..s0 }),
                    x0 == vx % 64,
                    y0 == vy % 32,
                    row < n,
                    y0 + row < SCREEN_HEIGHT,
                    col <= 8,
                    byte == s0.memory[s0.index + row],
                    self.screen@ == partial_screen(
                        s0,
                        x0 as int,
                        y0 as int,
                        n as int,
                        row as int,
                        col as int,
                    ),
                    collided == partial_collides(
                        s0,
                        x0 as int,
                        y0 as int,
                        n as int,
                        row as int,
                        col as int,
                    ),
                decreases 8 - col,
            {
                let i: usize = (y0 + row) * SCREEN_WIDTH + x0 + col;
                let ghost (px, py) = ((x0 + col) as int, (y0 + row) as int);
                assert(i as int % 64 == px && i as int / 64 == py);
                let lit = (byte >> (7 - col as u8)) & 1 == 1;
                assert(lit == sprite_covers(s0.memory, s0.index, x0 as int, y0 as int, n as int, px, py));
                let ghost before = self.screen@;
                if lit {
                    if self.screen[i] == 1 {
                        self.screen.set(i, 0);
                        collided = true;
                    } else {
                        self.screen.set(i, 1);
                    }
                }
                proof {
                    let (x0i, y0i, ni, r, c) = (x0 as int, y0 as int, n as int, row as int, col as int);
                    assert forall|p: int| 0 <= p < SCREEN_PIXELS && p != i implies
                        (#[trigger] visited(p % 64, p / 64, x0i, y0i, r, c + 1) <==> visited(p % 64, p / 64, x0i, y0i, r, c)) by {
                        if p % 64 == px && p / 64 == py {
                            assert(p == py * 64 + px);
                        }
                    }
                    assert(self.screen@ =~= partial_screen(s0, x0i, y0i, ni, r, c + 1));
                    if collided {
                        if partial_collides(s0, x0i, y0i, ni, r, c) {
                            let q = choose|q: int|
                                0 <= q < SCREEN_PIXELS && #[trigger] sprite_covers(s0.memory, s0.index, x0i, y0i, ni, q % 64, q / 64)
                                    && visited(q % 64, q / 64, x0i, y0i, r, c) && s0.screen[q] == 1;
                            if q != i {
                                assert(visited(q % 64, q / 64, x0i, y0i, r, c + 1));
                            }
                        } else {
                            assert(sprite_covers(s0.memory, s0.index, x0i, y0i, ni, i as int % 64, i as int / 64));
                        }
                        assert(partial_collides(s0, x0i, y0i, ni, r, c + 1));
                    } else {
                        if partial_collides(s0, x0i, y0i, ni, r, c + 1) {
                            let q = choose|q: int|
                                0 <= q < SCREEN_PIXELS && #[trigger] sprite_covers(s0.memory, s0.index, x0i, y0i, ni, q % 64, q / 64)
                                    && visited(q % 64, q / 64, x0i, y0i, r, c + 1) && s0.screen[q] == 1;
                            if q == i {
                                assert(before[q] == s0.screen[q]);
                            }
                            assert(visited(q % 64, q / 64, x0i, y0i, r, c));
                        }
                    }
                }
                col += 1;
            }
            proof {
                let (x0i, y0i, ni, r, c) = (x0 as int, y0 as int, n as int, row as int, col as int);
                assert forall|p: int| 0 <= p < SCREEN_PIXELS && #[trigger] sprite_covers(s0.memory, s0.index, x0i, y0i, ni, p % 64, p / 64) implies
                    (visited(p % 64, p / 64, x0i, y0i, r, c) <==> visited(p % 64, p / 64, x0i, y0i, r + 1, 0)) by {}
                assert(self.screen@ =~= partial_screen(s0, x0i, y0i, ni, r + 1, 0));
                if collided {
                    let q = choose|q: int|
                        0 <= q < SCREEN_PIXELS && #[trigger] sprite_covers(s0.memory, s0.index, x0i, y0i, ni, q % 64, q / 64)
                            && visited(q % 64, q / 64, x0i, y0i, r, c) && s0.screen[q] == 1;
                    assert(visited(q % 64, q / 64, x0i, y0i, r + 1, 0));
                }
                if partial_collides(s0, x0i, y0i, ni, r + 1, 0) {
                    let q = choose|q: int|
                        0 <= q < SCREEN_PIXELS && #[trigger] sprite_covers(s0.memory, s0.index, x0i, y0i, ni, q % 64, q / 64)
                            && visited(q % 64, q / 64, x0i, y0i, r + 1, 0) && s0.screen[q] == 1;
                    assert(visited(q % 64, q / 64, x0i, y0i, r, c));
                }
            }
            row += 1;
        }
        proof {
            let (x0i, y0i, ni, r) = (x0 as int, y0 as int, n as int, row as int);
            assert(self.screen@ =~= drawn_screen(s0, x0i, y0i, ni));
            if collided {
                let q = choose|q: int|
                    0 <= q < SCREEN_PIXELS && #[trigger] sprite_covers(s0.memory, s0.index, x0i, y0i, ni, q % 64, q / 64)
                        && visited(q % 64, q / 64, x0i, y0i, r, 0) && s0.screen[q] == 1;
            }
            if collides(s0, x0i, y0i, ni) {
                let q = choose|q: int|
                    0 <= q < SCREEN_PIXELS && #[trigger] sprite_covers(s0.memory, s0.index, x0i, y0i, ni, q % 64, q / 64)
                        && s0.screen[q] == 1;
                assert(visited(q % 64, q / 64, x0i, y0i, r, 0));
            }
        }
        self.v.set(VF, if collided { 1 } else { 0 });
    }

    /// Runs one decoded instruction on a machine whose `pc` already points past
    /// it. `rnd` is the byte that `CXNN` masks, `keys` tells which keys are held.
    /// A fault leaves the machine unchanged.
    pub fn execute(&mut self, ins: Instruction, rnd: u8, keys: &[bool; 16]) -> (r: Result<(), Fault>)
        requires
            old(self).wf(),
            ins.wf(),
        ensures
            final(self).wf(),
            match exec_spec(old(self)@, ins, rnd, keys@) {
                Ok(t) => r == Ok::<(), Fault>(()) && final(self)@ == t,
                Err(f) => r == Err::<(), Fault>(f) && final(self)@ == old(self)@,
            },
    {
        match ins {
            Instruction::ClearScreen => {
                let mut i: usize = 0;
                while i < SCREEN_PIXELS
                    invariant
                        old(self).wf(),
                        self.wf(),
                        0 <= i <= SCREEN_PIXELS,
                        self@ == (MachineState { screen: self.screen@, ..old(self)@ }),
                        forall|j: int| 0 <= j < SCREEN_PIXELS ==> self.screen@[j] == if j < i {
                            0
                        } else {
                            old(self)@.screen[j]
                        },
                    decreases SCREEN_PIXELS - i,
                {
                    self.screen.set(i, 0);
                    i += 1;
                }
                assert(self.screen@ =~= Seq::new(SCREEN_PIXELS as nat, |p: int| 0u8));
            },
            Instruction::Return => {
                match self.stack.pop() {
                    Some(addr) => self.pc = addr,
                    None => return Err(Fault::StackUnderflow),
                }
            },
            Instruction::Jump { nnn } => self.pc = nnn,
            Instruction::Call { nnn } => {
                if self.stack.len() >= STACK_LIMIT {
                    return Err(Fault::StackOverflow);
                }
                self.stack.push(self.pc);
                self.pc = nnn;
            },
            Instruction::SkipIfEqualImm { x, nn } => {
                let c = self.v[x as usize] == nn;
                self.skip_if(c);
            },
            Instruction::SkipIfNotEqualImm { x, nn } => {
                let c = self.v[x as usize] != nn;
                self.skip_if(c);
            },
            Instruction::SkipIfEqualReg { x, y } => {
                let c = self.v[x as usize] == self.v[y as usize];
                self.skip_if(c);
            },
            Instruction::SkipIfNotEqualReg { x, y } => {
                let c = self.v[x as usize] != self.v[y as usize];
                self.skip_if(c);
            },
            Instruction::SetImm { x, nn } => self.set_reg(x, nn),
            Instruction::AddImm { x, nn } => {
                let sum = self.v[x as usize] as u16 + nn as u16;
                self.set_reg(x, (sum % 256) as u8);
            },
            Instruction::Assign { x, y } => {
                let val = self.v[y as usize];
                self.set_reg(x, val);
            },
            Instruction::Or { x, y } => {
                let val = self.v[x as usize] | self.v[y as usize];
                self.set_reg(x, val);
            },
            Instruction::And { x, y } => {
                let val = self.v[x as usize] & self.v[y as usize];
                self.set_reg(x, val);
            },
            Instruction::Xor { x, y } => {
                let val = self.v[x as usize] ^ self.v[y as usize];
                self.set_reg(x, val);
            },
            Instruction::AddReg { x, y } => {
                let sum = self.v[x as usize] as u16 + self.v[y as usize] as u16;
                self.set_reg(x, (sum % 256) as u8);
                self.set_reg(VF as u8, if sum > 255 { 1 } else { 0 });
            },
            Instruction::SubReg { x, y } => {
                let (a, b) = (self.v[x as usize], self.v[y as usize]);
                self.set_reg(x, ((a as u16 + 256 - b as u16) % 256) as u8);
                self.set_reg(VF as u8, if a >= b { 1 } else { 0 });
            },
            Instruction::SubReversed { x, y } => {
                let (a, b) = (self.v[x as usize], self.v[y as usize]);
                self.set_reg(x, ((b as u16 + 256 - a as u16) % 256) as u8);
                self.set_reg(VF as u8, if b >= a { 1 } else { 0 });
            },
            Instruction::ShiftRight { x } => {
                let low = self.v[x as usize] % 2;
                self.set_reg(VF as u8, low);
                let val = self.v[x as usize] / 2;
                self.set_reg(x, val);
            },
            Instruction::ShiftLeft { x } => {
                let high = self.v[x as usize] / 128;
                self.set_reg(VF as u8, high);
                let val = ((self.v[x as usize] as u16 * 2) % 256) as u8;
                self.set_reg(x, val);
            },
            Instruction::SetIndex { nnn } => self.index = nnn,
            Instruction::JumpOffset { x, nnn } => self.pc = nnn + self.v[x as usize] as u16,
            Instruction::Random { x, nn } => self.set_reg(x, nn & rnd),
            Instruction::Draw { x, y, n } => {
                if self.index as usize + n as usize > MEMORY_SIZE {
                    return Err(Fault::MemoryOutOfBounds);
                }
                let (vx, vy) = (self.v[x as usize], self.v[y as usize]);
                self.draw_sprite(vx, vy, n);
            },
            Instruction::SkipIfKey { x } => {
                let k = self.v[x as usize];
                let c = k < 16 && keys[k as usize];
                self.skip_if(c);
            },
            Instruction::SkipIfNotKey { x } => {
                let k = self.v[x as usize];
                let c = !(k < 16 && keys[k as usize]);
                self.skip_if(c);
            },
            Instruction::GetDelay { x } => {
                let val = self.delay_timer;
                self.set_reg(x, val);
            },
            Instruction::WaitKey { x } => {
                let k = first_pressed_key(keys);
                if k < 16 {
                    self.set_reg(x, k as u8);
                } else {
                    self.pc = rewind_pc(self.pc);
                }
            },
            Instruction::SetDelay { x } => self.delay_timer = self.v[x as usize],
            Instruction::SetSound { x } => self.sound_timer = self.v[x as usize],
            Instruction::AddIndex { x } => {
                let sum = self.index as u32 + self.v[x as usize] as u32;
                self.index = (sum % 0x10000) as u16;
                if self.index_overflow_sets_vf {
                    self.set_reg(VF as u8, if sum > 0xFFF { 1 } else { 0 });
                }
            },
            Instruction::FontGlyph { x } => {
                self.index = self.v[x as usize] as u16 * GLYPH_BYTES + FONT_OFFSET;
            },
            Instruction::Bcd { x } => {
                let i = self.index as usize;
                if i + 3 > MEMORY_SIZE {
                    return Err(Fault::MemoryOutOfBounds);
                }
                let val = self.v[x as usize];
                self.memory.set(i, val / 100);
                self.memory.set(i + 1, (val / 10) % 10);
                self.memory.set(i + 2, val % 10);
            },
            Instruction::Dump { x } => {
                let base = self.index as usize;
                if base + x as usize >= MEMORY_SIZE {
                    return Err(Fault::MemoryOutOfBounds);
                }
                let mut i: usize = 0;
                while i <= x as usize
                    invariant
                        old(self).wf(),
                        self.wf(),
                        x < 16,
                        base == old(self)@.index,
                        base + x < MEMORY_SIZE,
                        0 <= i <= x + 1,
                        self@ == (MachineState { memory: self.memory@, ..old(self)@ }),
                        forall|j: int| 0 <= j < MEMORY_SIZE ==> self.memory@[j] == if base <= j < base + i {
                            old(self)@.v[j - base]
                        } else {
                            old(self)@.memory[j]
                        },
                    decreases x + 1 - i,
                {
                    let val = self.v[i];
                    self.memory.set(base + i, val);
                    i += 1;
                }
                assert(self.memory@ =~= Seq::new(
                    old(self)@.memory.len(),
                    |j: int|
                        if old(self)@.index <= j <= old(self)@.index + x {
                            old(self)@.v[j - old(self)@.index]
                        } else {
                            old(self)@.memory[j]
                        },
                ));
            },
            Instruction::Load { x } => {
                let base = self.index as usize;
                if base + x as usize >= MEMORY_SIZE {
                    return Err(Fault::MemoryOutOfBounds);
                }
                let mut i: usize = 0;
                while i <= x as usize
                    invariant
                        old(self).wf(),
                        self.wf(),
                        x < 16,
                        base == old(self)@.index,
                        base + x < MEMORY_SIZE,
                        0 <= i <= x + 1,
                        self@ == (MachineState { v: self.v@, ..old(self)@ }),
                        forall|j: int| 0 <= j < 16 ==> self.v@[j] == if j < i {
                            old(self)@.memory[base + j]
                        } else {
                            old(self)@.v[j]
                        },
                    decreases x + 1 - i,
                {
                    let val = self.memory[base + i];
                    self.v.set(i, val);
                    i += 1;
                }
                assert(self.v@ =~= Seq::new(
                    old(self)@.v.len(),
                    |j: int|
                        if j <= x {
                            old(self)@.memory[old(self)@.index + j]
                        } else {
                            old(self)@.v[j]
                        },
                ));
            },
            Instruction::Unknown { .. } => {},
        }
        Ok(())
    }

    /// One cycle with the random byte given: fetch the opcode at `pc`, move `pc`
    /// past it, decode it and run it. Returns the instruction that ran; on a
    /// fault the machine is left as it was.
    pub fn step_with(&mut self, keys: &[bool; 16], rnd: u8) -> (r: Result<Instruction, Fault>)
        requires
            old(self).wf(),
        ensures
            final(self).wf(),
            match step_spec(old(self)@, rnd, keys@) {
                Ok((t, ins)) => r == Ok::<Instruction, Fault>(ins) && final(self)@ == t,
                Err(f) => r == Err::<Instruction, Fault>(f) && final(self)@ == old(self)@,
            },
    {
        let opcode = match self.fetch() {
            Ok(op) => op,
            Err(f) => return Err(f),
        };
        let ins = decode(opcode);
        let saved = self.pc;
        self.pc = saved + 2;
        match self.execute(ins, rnd, keys) {
            Ok(()) => Ok(ins),
            Err(f) => {
                self.pc = saved;
                Err(f)
            },
        }
    }

    /// One cycle, with a fresh random byte for `CXNN`.
    pub fn step(&mut self, keys: &[bool; 16]) -> (r: Result<Instruction, Fault>)
        requires
            old(self).wf(),
        ensures
            final(self).wf(),
            exists|rnd: u8|
                match #[trigger] step_spec(old(self)@, rnd, keys@) {
                    Ok((t, ins)) => r == Ok::<Instruction, Fault>(ins) && final(self)@ == t,
                    Err(f) => r == Err::<Instruction, Fault>(f) && final(self)@ == old(self)@,
                },
    {
        let rnd = random_byte();
        self.step_with(keys, rnd)
    }

    /// The program counter.
    pub fn pc(&self) -> (r: u16)
        ensures
            r == self@.pc,
    {
        self.pc
    }

    /// The index register.
    pub fn index(&self) -> (r: u16)
        ensures
            r == self@.index,
    {
        self.index
    }

    /// The delay timer.
    pub fn delay_timer(&self) -> (r: u8)
        ensures
            r == self@.delay_timer,
    {
        self.delay_timer
    }

    /// The sound timer.
    pub fn sound_timer(&self) -> (r: u8)
        ensures
            r == self@.sound_timer,
    {
        self.sound_timer
    }

    /// Register `Vx`.
    pub fn register(&self, x: usize) -> (r: u8)
        requires
            self.wf(),
            x < 16,
        ensures
            r == self@.v[x as int],
    {
        self.v[x]
    }

    /// All sixteen registers, V0 first.
    pub fn registers(&self) -> (r: &Vec<u8>)
        ensures
            r@ == self@.v,
    {
        &self.v
    }

    /// The byte at `addr`.
    pub fn memory_at(&self, addr: usize) -> (r: u8)
        requires
            self.wf(),
            addr < MEMORY_SIZE,
        ensures
            r == self@.memory[addr as int],
    {
        self.memory[addr]
    }

    /// The whole memory.
    pub fn memory(&self) -> (r: &Vec<u8>)
        ensures
            r@ == self@.memory,
    {
        &self.memory
    }

    /// Number of return addresses on the call stack.
    pub fn stack_depth(&self) -> (r: usize)
        ensures
            r == self@.stack.len(),
    {
        self.stack.len()
    }

    /// The pixel in column `x` and row `y`: 1 when lit, 0 otherwise.
    pub fn pixel(&self, x: usize, y: usize) -> (r: u8)
        requires
            self.wf(),
            x < SCREEN_WIDTH,
            y < SCREEN_HEIGHT,
        ensures
            r == self@.screen[y * SCREEN_WIDTH + x],
            r <= 1,
    {
        self.screen[y * SCREEN_WIDTH + x]
    }

    /// The framebuffer, row by row, one byte per pixel.
    pub fn screen(&self) -> (r: &Vec<u8>)
        ensures
            r@ == self@.screen,
    {
        &self.screen
    }

    fn set_reg(&mut self, x: u8, val: u8)
        requires
            old(self).wf(),
            x < 16,
        ensures
            final(self).wf(),
            final(self)@ == set_reg(old(self)@, x, val),
    {
        self.v.set(x as usize, val);
    }

    fn skip_if(&mut self, cond: bool)
        requires
            old(self).wf(),
        ensures
            final(self).wf(),
            final(self)@ == skip_if(old(self)@, cond),
    {
        if cond {
            self.pc = skip_pc(self.pc);
        }
    }
}

} // verus!
