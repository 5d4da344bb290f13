use vstd::prelude::*;
use crate::instruction::{Instruction, decode_spec};
use crate::state::{MachineState, Fault, MEMORY_SIZE, SCREEN_PIXELS, STACK_LIMIT, VF};

verus! {

/// `pc` moved past one more two-byte instruction, in 16-bit arithmetic.
pub open spec fn skip(pc: u16) -> u16 {
    ((pc as int + 2) % 0x10000) as u16
}

/// `pc` moved back by one instruction, in 16-bit arithmetic.
pub open spec fn rewind(pc: u16) -> u16 {
    ((pc as int + 0x10000 - 2) % 0x10000) as u16
}

/// Whether key `k` is held, for a key value that may lie outside 0..=15.
pub open spec fn key_pressed(keys: Seq<bool>, k: u8) -> bool {
    k < 16 && keys[k as int]
}

/// The lowest held key at or above `from`, or 16 if none is held.
pub open spec fn first_pressed(keys: Seq<bool>, from: int) -> int
    decreases 16 - from,
{
    if from >= 16 || from < 0 {
        16
    } else if keys[from] {
        from
    } else {
        first_pressed(keys, from + 1)
    }
}

/// Bit `col` of a sprite row, counting from the most significant bit.
pub open spec fn sprite_bit(byte: u8, col: int) -> bool {
    (byte >> ((7 - col) as u8)) & 1u8 == 1u8
}

/// Whether the sprite of `n` rows read from `memory[index..]`, placed at
/// `(x0, y0)` and clipped at the right and bottom edges, has a set bit on
/// pixel `(px, py)`.
pub open spec fn sprite_covers(
    memory: Seq<u8>,
    index: u16,
    x0: int,
    y0: int,
    n: int,
    px: int,
    py: int,
) -> bool {
    &&& x0 <= px < x0 + 8
    &&& y0 <= py < y0 + n
    &&& px < 64
    &&& py < 32
    &&& sprite_bit(memory[index + (py - y0)], px - x0)
}

/// The framebuffer after XOR-drawing the sprite.
pub open spec fn drawn_screen(s: MachineState, x0: int, y0: int, n: int) -> Seq<u8> {
    Seq::new(
        SCREEN_PIXELS as nat,
        |p: int|
            if sprite_covers(s.memory, s.index, x0, y0, n, p % 64, p / 64) {
                (1 - s.screen[p]) as u8
            } else {
                s.screen[p]
            },
    )
}

/// Whether drawing the sprite turns off a pixel that was on.
pub open spec fn collides(s: MachineState, x0: int, y0: int, n: int) -> bool {
    exists|p: int|
        0 <= p < SCREEN_PIXELS && #[trigger] sprite_covers(s.memory, s.index, x0, y0, n, p % 64, p / 64)
            && s.screen[p] == 1
}

/// `s` with register `x` set to `val`.
pub open spec fn set_reg(s: MachineState, x: u8, val: u8) -> MachineState {
    MachineState { v: s.v.update(x as int, val), ..s }
}

/// `s` with `pc` advanced by one instruction when `cond` holds.
pub open spec fn skip_if(s: MachineState, cond: bool) -> MachineState {
    if cond {
        MachineState { pc: skip(s.pc), ..s }
    } else {
        s
    }
}

/// Register `x` set to `val`, then VF set to `flag`.
pub open spec fn set_with_flag(s: MachineState, x: u8, val: int, flag: bool) -> MachineState {
    set_reg(set_reg(s, x, (val % 256) as u8), VF as u8, if flag { 1 } else { 0 })
}

/// The effect of one instruction on a machine whose `pc` already points past it.
/// `rnd` is the random byte that `CXNN` uses, `keys` the state of the sixteen keys.
pub open spec fn exec_spec(s: MachineState, ins: Instruction, rnd: u8, keys: Seq<bool>) -> Result<
    MachineState,
    Fault,
> {
    match ins {
        Instruction::ClearScreen => Ok(
            MachineState { screen: Seq::new(SCREEN_PIXELS as nat, |p: int| 0u8), ..s },
        ),
        Instruction::Return => if s.stack.len() == 0 {
            Err(Fault::StackUnderflow)
        } else {
            Ok(MachineState { pc: s.stack.last(), stack: s.stack.drop_last(), ..s })
        },
        Instruction::Jump { nnn } => Ok(MachineState { pc: nnn, ..s }),
        Instruction::Call { nnn } => if s.stack.len() >= STACK_LIMIT {
            Err(Fault::StackOverflow)
        } else {
            Ok(MachineState { pc: nnn, stack: s.stack.push(s.pc), ..s })
        },
        Instruction::SkipIfEqualImm { x, nn } => Ok(skip_if(s, s.v[x as int] == nn)),
        Instruction::SkipIfNotEqualImm { x, nn } => Ok(skip_if(s, s.v[x as int] != nn)),
        Instruction::SkipIfEqualReg { x, y } => Ok(skip_if(s, s.v[x as int] == s.v[y as int])),
        Instruction::SkipIfNotEqualReg { x, y } => Ok(skip_if(s, s.v[x as int] != s.v[y as int])),
        Instruction::SetImm { x, nn } => Ok(set_reg(s, x, nn)),
        Instruction::AddImm { x, nn } => Ok(set_reg(s, x, ((s.v[x as int] + nn) % 256) as u8)),
        Instruction::Assign { x, y } => Ok(set_reg(s, x, s.v[y as int])),
        Instruction::Or { x, y } => Ok(set_reg(s, x, s.v[x as int] | s.v[y as int])),
        Instruction::And { x, y } => Ok(set_reg(s, x, s.v[x as int] & s.v[y as int])),
        Instruction::Xor { x, y } => Ok(set_reg(s, x, s.v[x as int] ^ s.v[y as int])),
        Instruction::AddReg { x, y } => {
            let sum = s.v[x as int] + s.v[y as int];
            Ok(set_with_flag(s, x, sum, sum > 255))
        },
        Instruction::SubReg { x, y } => {
            let (a, b) = (s.v[x as int] as int, s.v[y as int] as int);
            Ok(set_with_flag(s, x, a - b + 256, a >= b))
        },
        Instruction::SubReversed { x, y } => {
            let (a, b) = (s.v[x as int] as int, s.v[y as int] as int);
            Ok(set_with_flag(s, x, b - a + 256, b >= a))
        },
        Instruction::ShiftRight { x } => {
            let t = set_reg(s, VF as u8, s.v[x as int] % 2);
            Ok(set_reg(t, x, t.v[x as int] / 2))
        },
        Instruction::ShiftLeft { x } => {
            let t = set_reg(s, VF as u8, s.v[x as int] / 128);
            Ok(set_reg(t, x, ((t.v[x as int] * 2) % 256) as u8))
        },
        Instruction::SetIndex { nnn } => Ok(MachineState { index: nnn, ..s }),
        Instruction::JumpOffset { x, nnn } => Ok(
            MachineState { pc: (nnn + s.v[x as int]) as u16, ..s },
        ),
        Instruction::Random { x, nn } => Ok(set_reg(s, x, nn & rnd)),
        Instruction::Draw { x, y, n } => {
            if s.index + n > MEMORY_SIZE {
                Err(Fault::MemoryOutOfBounds)
            } else {
                let x0 = (s.v[x as int] % 64) as int;
                let y0 = (s.v[y as int] % 32) as int;
                let t = MachineState { screen: drawn_screen(s, x0, y0, n as int), ..s };
                Ok(set_reg(t, VF as u8, if collides(s, x0, y0, n as int) { 1 } else { 0 }))
            }
        },
        Instruction::SkipIfKey { x } => Ok(skip_if(s, key_pressed(keys, s.v[x as int]))),
        Instruction::SkipIfNotKey { x } => Ok(skip_if(s, !key_pressed(keys, s.v[x as int]))),
        Instruction::GetDelay { x } => Ok(set_reg(s, x, s.delay_timer)),
        Instruction::WaitKey { x } => {
            let k = first_pressed(keys, 0);
            if k < 16 {
                Ok(set_reg(s, x, k as u8))
            } else {
                Ok(MachineState { pc: rewind(s.pc), ..s })
            }
        },
        Instruction::SetDelay { x } => Ok(MachineState { delay_timer: s.v[x as int], ..s }),
        Instruction::SetSound { x } => Ok(MachineState { sound_timer: s.v[x as int], ..s }),
        Instruction::AddIndex { x } => {
            let sum = s.index + s.v[x as int];
            let t = MachineState { index: (sum % 0x10000) as u16, ..s };
            if s.index_overflow_sets_vf {
                Ok(set_reg(t, VF as u8, if sum > 0xFFF { 1 } else { 0 }))
            } else {
                Ok(t)
            }
        },
        Instruction::FontGlyph { x } => Ok(
            MachineState { index: (s.v[x as int] * 5 + 0x50) as u16, ..s },
        ),
        Instruction::Bcd { x } => {
            if s.index + 3 > MEMORY_SIZE {
                Err(Fault::MemoryOutOfBounds)
            } else {
                let val = s.v[x as int];
                let i = s.index as int;
                Ok(
                    MachineState {
                        memory: s.memory.update(i, (val / 100) as u8).update(
                            i + 1,
                            ((val / 10) % 10) as u8,
                        ).update(i + 2, (val % 10) as u8),
                        ..s
                    },
                )
            }
        },
        Instruction::Dump { x } => {
            if s.index + x >= MEMORY_SIZE {
                Err(Fault::MemoryOutOfBounds)
            } else {
                Ok(
                    MachineState {
                        memory: Seq::new(
                            s.memory.len(),
                            |i: int|
                                if s.index <= i <= s.index + x {
                                    s.v[i - s.index]
                                } else {
                                    s.memory[i]
                                },
                        ),
                        ..s
                    },
                )
            }
        },
        Instruction::Load { x } => {
            if s.index + x >= MEMORY_SIZE {
                Err(Fault::MemoryOutOfBounds)
            } else {
                Ok(
                    MachineState {
                        v: Seq::new(
                            s.v.len(),
                            |i: int|
                                if i <= x {
                                    s.memory[s.index + i]
                                } else {
                                    s.v[i]
                                },
                        ),
                        ..s
                    },
                )
            }
        },
        Instruction::Unknown { .. } => Ok(s),
    }
}

/// Whether memory holds both bytes of the instruction at `pc`.
pub open spec fn fetchable(s: MachineState) -> bool {
    s.pc + 1 < s.memory.len()
}

/// The big-endian opcode at `pc`.
pub open spec fn opcode_at(s: MachineState) -> u16 {
    (s.memory[s.pc as int] * 256 + s.memory[s.pc + 1]) as u16
}

/// One fetch/decode/execute cycle: the instruction at `pc` is fetched, `pc`
/// moves past it, and the instruction runs. On a fault nothing changes.
pub open spec fn step_spec(s: MachineState, rnd: u8, keys: Seq<bool>) -> Result<
    (MachineState, Instruction),
    Fault,
> {
    if !fetchable(s) {
        Err(Fault::PcOutOfBounds)
    } else {
        let ins = decode_spec(opcode_at(s));
        match exec_spec(MachineState { pc: (s.pc + 2) as u16, ..s }, ins, rnd, keys) {
            Ok(t) => Ok((t, ins)),
            Err(f) => Err(f),
        }
    }
}

} // verus!
