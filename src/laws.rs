use vstd::prelude::*;

use crate::instruction::Instruction;
use crate::machine::Machine;
use crate::sprite::{
    cell_at, collides, coverage, lemma_bits, lemma_cell_position, sprite_col, sprite_pixel, sprite_row,
};

verus! {

/// The machine after `k` timer ticks.
pub open spec fn ticked(m: Machine, k: nat) -> Machine
    decreases k,
{
    if k == 0 {
        m
    } else {
        ticked(m.tick(), (k - 1) as nat)
    }
}

/// `6XNN` sets register `X` to exactly `NN`, for every register and byte.
pub proof fn lemma_set_immediate(m: Machine, x: u8, nn: u8, random: u8)
    requires
        m.wf(),
        m.pc <= 0xFFE,
        x < 16,
    ensures
        m.step(Instruction::SetImmediate { x, nn }, random) is Ok,
        m.step(Instruction::SetImmediate { x, nn }, random)->Ok_0.v[x as int] == nn,
{
}

/// `00E0` turns every framebuffer cell off and asks for a redraw, whatever
/// the framebuffer held before.
pub proof fn lemma_clear_screen(m: Machine, random: u8)
    requires
        m.wf(),
        m.pc <= 0xFFE,
    ensures
        m.step(Instruction::ClearScreen, random) is Ok,
        ({
            let after = m.step(Instruction::ClearScreen, random)->Ok_0;
            &&& after.frame.len() == 2048
            &&& forall|p: int| 0 <= p < 2048 ==> after.frame[p] == 0
            &&& after.draw_flag
        }),
{
}

/// A call followed by a return comes back to the instruction after the
/// call, with the return stack as it was.
pub proof fn lemma_call_then_return(m: Machine, addr: u16, random: u8)
    requires
        m.wf(),
        m.pc <= 0xFFE,
        m.stack.len() < 16,
        addr <= 0xFFE,
    ensures
        m.step(Instruction::Call { addr }, random) is Ok,
        m.step(Instruction::Call { addr }, random)->Ok_0.step(Instruction::Return, random) is Ok,
        ({
            let back = m.step(Instruction::Call { addr }, random)->Ok_0.step(
                Instruction::Return,
                random,
            )->Ok_0;
            back.pc == m.pc + 2 && back.stack == m.stack
        }),
{
    let called = m.step(Instruction::Call { addr }, random)->Ok_0;
    assert(called.stack.drop_last() =~= m.stack);
}

/// Drawing the same sprite twice at the same place on a blank screen gives
/// the blank screen back, and the second draw reports a collision, provided
/// the sprite has a set bit and its coordinates are not read from `VF`.
pub proof fn lemma_draw_twice(m: Machine, x: u8, y: u8, n: u8, random: u8)
    requires
        m.wf(),
        m.pc <= 0xFFC,
        x < 15,
        y < 15,
        n < 16,
        m.index + n <= 4096,
        forall|p: int| 0 <= p < 2048 ==> m.frame[p] == 0,
        exists|r: int, c: int|
            0 <= r < n && 0 <= c < 8 && #[trigger] sprite_pixel(m.memory[m.index + r], c) == 1,
    ensures
        m.step(Instruction::Draw { x, y, n }, random) is Ok,
        m.step(Instruction::Draw { x, y, n }, random)->Ok_0.step(Instruction::Draw { x, y, n }, random) is Ok,
        ({
            let once = m.step(Instruction::Draw { x, y, n }, random)->Ok_0;
            let twice = once.step(Instruction::Draw { x, y, n }, random)->Ok_0;
            &&& once.v[15] == 0
            &&& twice.frame == m.frame
            &&& twice.v[15] == 1
        }),
{
    let ins = Instruction::Draw { x, y, n };
    let once = m.step(ins, random)->Ok_0;
    let rows = m.memory.subrange(m.index as int, m.index + n);
    let (vx, vy) = (m.v[x as int], m.v[y as int]);
    assert(once.v[x as int] == vx && once.v[y as int] == vy);
    assert(once.memory == m.memory && once.index == m.index);
    let (r, c) = choose|r: int, c: int|
        0 <= r < n && 0 <= c < 8 && #[trigger] sprite_pixel(m.memory[m.index + r], c) == 1;
    let p = cell_at(vx + c, vy + r);
    assert(0 <= p < 2048 && sprite_row(vy, p) == r && sprite_col(vx, p) == c) by {
        lemma_cell_position(vx, vy, r, c, 0);
    }
    assert(coverage(rows, vx, vy, p) == 1);
    assert forall|q: int| 0 <= q < 2048 implies once.frame[q] == coverage(rows, vx, vy, q) && (
    once.frame[q] ^ coverage(rows, vx, vy, q)) == 0u8 by {
        if sprite_row(vy, q) < n && sprite_col(vx, q) < 8 {
            lemma_bits(rows[sprite_row(vy, q)], 0, (7 - sprite_col(vx, q)) as u8);
        }
        lemma_bits(0, coverage(rows, vx, vy, q), 0);
        assert(m.frame[q] == 0);
    }
    assert(!collides(m.frame, rows, vx, vy));
    assert(once.frame[p] == 1);
    assert(collides(once.frame, rows, vx, vy));
    let twice = once.step(ins, random)->Ok_0;
    assert(twice.frame =~= m.frame);
}

/// Timers count down by one per tick and stop at zero: after `k` ticks a
/// timer that stood at `t` stands at `t - k`, or at 0 once `k >= t`.
pub proof fn lemma_timers_floor(m: Machine, k: nat)
    ensures
        ticked(m, k).delay_timer == if m.delay_timer >= k { m.delay_timer - k } else { 0 },
        ticked(m, k).sound_timer == if m.sound_timer >= k { m.sound_timer - k } else { 0 },
    decreases k,
{
    if k > 0 {
        lemma_timers_floor(m.tick(), (k - 1) as nat);
    }
}

} // verus!
