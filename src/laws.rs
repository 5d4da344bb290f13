//! Properties of the instruction set, proved over the model.
use vstd::prelude::*;
use crate::instruction::{Instruction, decode_spec, family, x_of, y_of, n_of, nn_of, nnn_of};
use crate::semantics::{exec_spec, step_spec, opcode_at, fetchable, sprite_covers, collides};
use crate::state::{MachineState, SCREEN_PIXELS, STACK_LIMIT, VF};

verus! {

/// `6XNN` leaves exactly `NN` in `VX`.
pub proof fn set_then_read(s: MachineState, op: u16, rnd: u8, keys: Seq<bool>)
    requires
        s.wf(),
        family(op) == 0x6,
    ensures
        exec_spec(s, decode_spec(op), rnd, keys) is Ok,
        exec_spec(s, decode_spec(op), rnd, keys)->Ok_0.v[x_of(op) as int] == nn_of(op),
{
}

/// `8XY4` sets VF to 1 exactly when `VX + VY` exceeds 255, and (unless X names
/// VF itself, which the flag then overwrites) leaves the sum modulo 256 in VX.
pub proof fn add_carry(s: MachineState, op: u16, rnd: u8, keys: Seq<bool>)
    requires
        s.wf(),
        family(op) == 0x8,
        n_of(op) == 0x4,
    ensures
        ({
            let (a, b) = (s.v[x_of(op) as int] as int, s.v[y_of(op) as int] as int);
            let r = exec_spec(s, decode_spec(op), rnd, keys);
            &&& r is Ok
            &&& (r->Ok_0.v[VF as int] == 1) == (a + b > 255)
            &&& (r->Ok_0.v[VF as int] == 0) == (a + b <= 255)
            &&& x_of(op) != VF ==> r->Ok_0.v[x_of(op) as int] == (a + b) % 256
        }),
{
}

/// `8XY5` sets VF to 0 exactly when `VX < VY` (a borrow) and to 1 otherwise,
/// and (unless X names VF) leaves the difference modulo 256 in VX.
pub proof fn sub_borrow(s: MachineState, op: u16, rnd: u8, keys: Seq<bool>)
    requires
        s.wf(),
        family(op) == 0x8,
        n_of(op) == 0x5,
    ensures
        ({
            let (a, b) = (s.v[x_of(op) as int] as int, s.v[y_of(op) as int] as int);
            let r = exec_spec(s, decode_spec(op), rnd, keys);
            &&& r is Ok
            &&& (r->Ok_0.v[VF as int] == 0) == (a < b)
            &&& (r->Ok_0.v[VF as int] == 1) == (a >= b)
            &&& x_of(op) != VF ==> r->Ok_0.v[x_of(op) as int] == (a - b + 256) % 256
        }),
{
}

/// Dumping V0..=VX to memory at the index and loading them back from the same
/// place gives back the registers unchanged.
pub proof fn dump_then_load(s: MachineState, x: u8, rnd: u8, keys: Seq<bool>)
    requires
        s.wf(),
        x < 16,
        s.index + x < s.memory.len(),
    ensures
        exec_spec(s, Instruction::Dump { x }, rnd, keys) is Ok,
        exec_spec(exec_spec(s, Instruction::Dump { x }, rnd, keys)->Ok_0, Instruction::Load { x }, rnd, keys) is Ok,
        exec_spec(
            exec_spec(s, Instruction::Dump { x }, rnd, keys)->Ok_0,
            Instruction::Load { x },
            rnd,
            keys,
        )->Ok_0.v == s.v,
{
    let t = exec_spec(s, Instruction::Dump { x }, rnd, keys)->Ok_0;
    let u = exec_spec(t, Instruction::Load { x }, rnd, keys)->Ok_0;
    assert(u.v =~= s.v);
}

/// `FX33` writes the three decimal digits of `VX`, most significant first,
/// at the index.
pub proof fn bcd_digits(s: MachineState, x: u8, rnd: u8, keys: Seq<bool>)
    requires
        s.wf(),
        x < 16,
        s.index + 3 <= s.memory.len(),
    ensures
        exec_spec(s, Instruction::Bcd { x }, rnd, keys) is Ok,
        ({
            let m = exec_spec(s, Instruction::Bcd { x }, rnd, keys)->Ok_0.memory;
            let i = s.index as int;
            &&& m[i] < 10 && m[i + 1] < 10 && m[i + 2] < 10
            &&& m[i] * 100 + m[i + 1] * 10 + m[i + 2] == s.v[x as int]
        }),
{
}

/// Drawing the same sprite twice at the same place restores the framebuffer,
/// and the second draw reports a collision exactly when the sprite lights a
/// pixel that was off before the first. The coordinate registers must not be
/// VF, which the first draw overwrites.
pub proof fn draw_twice(s: MachineState, x: u8, y: u8, n: u8, rnd: u8, keys: Seq<bool>)
    requires
        s.wf(),
        x < 15,
        y < 15,
        n < 16,
        s.index + n <= s.memory.len(),
    ensures
        ({
            let ins = Instruction::Draw { x, y, n };
            let t = exec_spec(s, ins, rnd, keys)->Ok_0;
            let u = exec_spec(t, ins, rnd, keys)->Ok_0;
            let (x0, y0) = ((s.v[x as int] % 64) as int, (s.v[y as int] % 32) as int);
            &&& exec_spec(s, ins, rnd, keys) is Ok
            &&& exec_spec(t, ins, rnd, keys) is Ok
            &&& u.screen == s.screen
            &&& (u.v[VF as int] == 1) == (exists|p: int|
                0 <= p < SCREEN_PIXELS && #[trigger] sprite_covers(s.memory, s.index, x0, y0, n as int, p % 64, p / 64)
                    && s.screen[p] == 0)
        }),
{
    let ins = Instruction::Draw { x, y, n };
    let t = exec_spec(s, ins, rnd, keys)->Ok_0;
    let u = exec_spec(t, ins, rnd, keys)->Ok_0;
    let (x0, y0) = ((s.v[x as int] % 64) as int, (s.v[y as int] % 32) as int);
    assert(u.screen =~= s.screen);
    assert(t.v[x as int] == s.v[x as int] && t.v[y as int] == s.v[y as int]);
    if collides(t, x0, y0, n as int) {
        let p = choose|p: int|
            0 <= p < SCREEN_PIXELS && #[trigger] sprite_covers(t.memory, t.index, x0, y0, n as int, p % 64, p / 64)
                && t.screen[p] == 1;
        assert(s.screen[p] == 0);
    }
    if exists|p: int|
        0 <= p < SCREEN_PIXELS && #[trigger] sprite_covers(s.memory, s.index, x0, y0, n as int, p % 64, p / 64)
            && s.screen[p] == 0 {
        let p = choose|p: int|
            0 <= p < SCREEN_PIXELS && #[trigger] sprite_covers(s.memory, s.index, x0, y0, n as int, p % 64, p / 64)
                && s.screen[p] == 0;
        assert(t.screen[p] == 1);
        assert(collides(t, x0, y0, n as int));
    }
}

/// `00E0` leaves every pixel off, whatever the framebuffer held.
pub proof fn clear_blanks(s: MachineState, rnd: u8, keys: Seq<bool>)
    requires
        s.wf(),
    ensures
        exec_spec(s, Instruction::ClearScreen, rnd, keys) is Ok,
        forall|p: int|
            0 <= p < SCREEN_PIXELS ==> #[trigger] exec_spec(
                s,
                Instruction::ClearScreen,
                rnd,
                keys,
            )->Ok_0.screen[p] == 0,
{
}

/// A `2NNN` call followed by the `00EE` at its target returns to the
/// instruction right after the call, with the stack as it was.
pub proof fn call_then_return(s: MachineState, rnd: u8, keys: Seq<bool>)
    requires
        s.wf(),
        fetchable(s),
        family(opcode_at(s)) == 0x2,
        s.stack.len() < STACK_LIMIT,
    ensures
        step_spec(s, rnd, keys) is Ok,
        ({
            let t = step_spec(s, rnd, keys)->Ok_0.0;
            t.pc == nnn_of(opcode_at(s)) && (fetchable(t) && opcode_at(t) == 0x00EE ==> {
                &&& step_spec(t, rnd, keys) is Ok
                &&& step_spec(t, rnd, keys)->Ok_0.0.pc == s.pc + 2
                &&& step_spec(t, rnd, keys)->Ok_0.0.stack == s.stack
            })
        }),
{
    let t = step_spec(s, rnd, keys)->Ok_0.0;
    assert(t.stack.drop_last() =~= s.stack);
}

/// The skip instructions `3XNN`, `4XNN`, `5XY0` and `9XY0` move `pc` past the
/// next instruction (4 bytes in all) exactly when their condition holds, and
/// by the usual 2 bytes otherwise.
pub proof fn skips(s: MachineState, rnd: u8, keys: Seq<bool>)
    requires
        s.wf(),
        fetchable(s),
        family(opcode_at(s)) == 0x3 || family(opcode_at(s)) == 0x4 || family(opcode_at(s))
            == 0x5 || family(opcode_at(s)) == 0x9,
    ensures
        step_spec(s, rnd, keys) is Ok,
        ({
            let op = opcode_at(s);
            let (vx, vy) = (s.v[x_of(op) as int], s.v[y_of(op) as int]);
            let cond = if family(op) == 0x3 {
                vx == nn_of(op)
            } else if family(op) == 0x4 {
                vx != nn_of(op)
            } else if family(op) == 0x5 {
                vx == vy
            } else {
                vx != vy
            };
            step_spec(s, rnd, keys)->Ok_0.0.pc == if cond {
                s.pc + 4
            } else {
                s.pc + 2
            }
        }),
{
}

} // verus!
