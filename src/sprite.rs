use vstd::prelude::*;

verus! {

/// Width of the framebuffer in cells.
pub const SCREEN_WIDTH: usize = 64;

/// Height of the framebuffer in cells.
pub const SCREEN_HEIGHT: usize = 32;

/// Number of framebuffer cells, addressed as `x + y * 64`.
pub const FRAME_CELLS: usize = 2048;

/// Bit `col` of a sprite row, counted from the most significant bit.
pub open spec fn sprite_pixel(row: u8, col: int) -> u8 {
    (row >> ((7 - col) as u8)) & 1u8
}

/// The cell at column `x`, row `y`, both wrapped around the screen.
pub open spec fn cell_at(x: int, y: int) -> int {
    x % 64 + (y % 32) * 64
}

/// Column of cell `p` relative to a sprite drawn at column `vx`, wrapping.
pub open spec fn sprite_col(vx: u8, p: int) -> int {
    (p % 64 - vx) % 64
}

/// Row of cell `p` relative to a sprite drawn at row `vy`, wrapping.
pub open spec fn sprite_row(vy: u8, p: int) -> int {
    (p / 64 - vy) % 32
}

/// The sprite bit that lands on cell `p` when `rows` is drawn at
/// `(vx, vy)`, or 0 where the sprite does not cover `p`.
pub open spec fn coverage(rows: Seq<u8>, vx: u8, vy: u8, p: int) -> u8 {
    let r = sprite_row(vy, p);
    let c = sprite_col(vx, p);
    if r < rows.len() && c < 8 {
        sprite_pixel(rows[r], c)
    } else {
        0
    }
}

/// The framebuffer after XOR-ing the sprite `rows` onto it at `(vx, vy)`.
pub open spec fn drawn(frame: Seq<u8>, rows: Seq<u8>, vx: u8, vy: u8) -> Seq<u8> {
    Seq::new(frame.len(), |p: int| frame[p] ^ coverage(rows, vx, vy, p))
}

/// Some set sprite bit lands on a lit cell.
pub open spec fn collides(frame: Seq<u8>, rows: Seq<u8>, vx: u8, vy: u8) -> bool {
    exists|p: int| 0 <= p < frame.len() && frame[p] == 1 && #[trigger] coverage(rows, vx, vy, p) == 1
}

/// Every cell of a full-size framebuffer holds 0 or 1.
pub open spec fn is_frame(frame: Seq<u8>) -> bool {
    frame.len() == 2048 && forall|p: int| 0 <= p < frame.len() ==> #[trigger] frame[p] <= 1
}

/// Top-left corner, in screen units, of framebuffer cell `cell` drawn as a
/// `scale` by `scale` square.
pub fn cell_origin(cell: usize, scale: usize) -> (r: (usize, usize))
    requires
        cell < 2048,
        scale <= 0x10000,
    ensures
        r.0 == (cell % 64) * scale,
        r.1 == (cell / 64) * scale,
{
    proof {
        assert((cell % 64) * scale <= 64 * 0x10000) by (nonlinear_arith)
            requires
                cell % 64 < 64,
                scale <= 0x10000,
        ;
        assert((cell / 64) * scale <= 32 * 0x10000) by (nonlinear_arith)
            requires
                cell / 64 < 32,
                scale <= 0x10000,
        ;
    }
    ((cell % SCREEN_WIDTH) * scale, (cell / SCREEN_WIDTH) * scale)
}

/// Cell `p` lies under the part of the sprite whose rows before `r`, and
/// columns before `c` of row `r`, have been drawn.
spec fn done_before(vx: u8, vy: u8, p: int, r: int, c: int) -> bool {
    let pr = sprite_row(vy, p);
    let pc = sprite_col(vx, p);
    pc < 8 && (pr < r || (pr == r && pc < c))
}

/// The framebuffer with that part of the sprite drawn.
spec fn partly_drawn(frame: Seq<u8>, rows: Seq<u8>, vx: u8, vy: u8, r: int, c: int) -> Seq<u8> {
    Seq::new(
        frame.len(),
        |p: int|
            if done_before(vx, vy, p, r, c) {
                frame[p] ^ coverage(rows, vx, vy, p)
            } else {
                frame[p]
            },
    )
}

/// That part of the sprite has hit a lit cell.
spec fn partly_collides(frame: Seq<u8>, rows: Seq<u8>, vx: u8, vy: u8, r: int, c: int) -> bool {
    exists|p: int|
        0 <= p < frame.len() && done_before(vx, vy, p, r, c) && frame[p] == 1 && #[trigger] coverage(
            rows,
            vx,
            vy,
            p,
        ) == 1
}

/// The cell that sprite position `(r, c)` lands on is the only cell whose
/// sprite-relative position is `(r, c)`.
pub(crate) proof fn lemma_cell_position(vx: u8, vy: u8, r: int, c: int, q: int)
    requires
        0 <= r < 32,
        0 <= c < 64,
        0 <= q < 2048,
    ensures
        0 <= cell_at(vx + c, vy + r) < 2048,
        sprite_row(vy, cell_at(vx + c, vy + r)) == r,
        sprite_col(vx, cell_at(vx + c, vy + r)) == c,
        (q == cell_at(vx + c, vy + r)) <==> (sprite_row(vy, q) == r && sprite_col(vx, q) == c),
{
    let p = cell_at(vx + c, vy + r);
    let a = (vx + c) % 64;
    let b = (vy + r) % 32;
    assert(p % 64 == a && p / 64 == b) by (nonlinear_arith)
        requires
            p == a + b * 64,
            0 <= a < 64,
            0 <= b < 32,
    ;
    assert(q == q % 64 + (q / 64) * 64 && q / 64 < 32) by (nonlinear_arith)
        requires
            0 <= q < 2048,
    ;
}

/// Facts on one-bit cells under XOR.
pub(crate) proof fn lemma_bits(a: u8, b: u8, s: u8)
    by (bit_vector)
    ensures
        a ^ 0u8 == a,
        a <= 1 && b <= 1 ==> (a ^ b) <= 1,
        a <= 1 && b <= 1 ==> ((a ^ b) ^ b) == a,
        b <= 1 ==> ((b ^ b) == 0u8 && (0u8 ^ b) == b),
        (a >> s) & 1u8 <= 1,
{
}

/// XORs `n` sprite rows from `memory[start..start + n]` onto `frame` at
/// `(vx, vy)`, wrapping at the screen edges, and reports whether any set
/// sprite bit landed on a lit cell.
pub fn blit(frame: &mut Vec<u8>, memory: &Vec<u8>, start: usize, n: usize, vx: u8, vy: u8) -> (hit:
    bool)
    requires
        is_frame(old(frame)@),
        start + n <= memory.len(),
        n < 32,
    ensures
        final(frame)@ == drawn(old(frame)@, memory@.subrange(start as int, (start + n) as int), vx, vy),
        hit == collides(old(frame)@, memory@.subrange(start as int, (start + n) as int), vx, vy),
        is_frame(final(frame)@),
{
    let ghost rows = memory@.subrange(start as int, (start + n) as int);
    let ghost before = frame@;
    let mut hit = false;
    let mut r: usize = 0;
    while r < n
        invariant
            rows == memory@.subrange(start as int, (start + n) as int),
            start + n <= memory.len(),
            rows.len() == n,
            n < 32,
            r <= n,
            is_frame(before),
            frame@ == partly_drawn(before, rows, vx, vy, r as int, 0),
            hit == partly_collides(before, rows, vx, vy, r as int, 0),
        decreases n - r,
    {
        let row = memory[start + r];
        let mut c: usize = 0;
        while c < 8
            invariant
                rows == memory@.subrange(start as int, (start + n) as int),
                rows.len() == n,
                start + n <= memory.len(),
                row == rows[r as int],
                r < n < 32,
                c <= 8,
                is_frame(before),
                frame@ == partly_drawn(before, rows, vx, vy, r as int, c as int),
                hit == partly_collides(before, rows, vx, vy, r as int, c as int),
            decreases 8 - c,
        {
            let p = (vx as usize + c) % SCREEN_WIDTH + ((vy as usize + r) % SCREEN_HEIGHT)
                * SCREEN_WIDTH;
            let bit = (row >> ((7 - c) as u8)) & 1u8;
            proof {
                lemma_cell_position(vx, vy, r as int, c as int, 0);
                assert(p == cell_at(vx + c, vy + r));
                assert(coverage(rows, vx, vy, p as int) == bit);
                lemma_bits(row, bit, ((7 - c) as u8));
            }
            let old_cell = frame[p];
            let new_cell = old_cell ^ bit;
            proof {
                lemma_bits(old_cell, bit, 0);
                assert(old_cell == before[p as int]);
            }
            if old_cell == 1 && bit == 1 {
                hit = true;
            }
            frame.set(p, new_cell);
            proof {
                assert forall|q: int| 0 <= q < 2048 implies (done_before(vx, vy, q, r as int, c + 1)
                    <==> (done_before(vx, vy, q, r as int, c as int) || q == p)) by {
                    lemma_cell_position(vx, vy, r as int, c as int, q);
                }
                assert(frame@ =~= partly_drawn(before, rows, vx, vy, r as int, c + 1));
                if hit && !(old_cell == 1 && bit == 1) {
                    let w = choose|w: int|
                        0 <= w < before.len() && done_before(vx, vy, w, r as int, c as int)
                            && before[w] == 1 && #[trigger] coverage(rows, vx, vy, w) == 1;
                    assert(done_before(vx, vy, w, r as int, c + 1));
                }
                if old_cell == 1 && bit == 1 {
                    assert(done_before(vx, vy, p as int, r as int, c + 1));
                }
                assert(hit == partly_collides(before, rows, vx, vy, r as int, c + 1));
            }
            c = c + 1;
        }
        proof {
            assert(partly_drawn(before, rows, vx, vy, r as int, 8) =~= partly_drawn(
                before,
                rows,
                vx,
                vy,
                r + 1,
                0,
            ));
        }
        r = r + 1;
    }
    proof {
        assert forall|p: int| 0 <= p < 2048 && !done_before(vx, vy, p, n as int, 0) implies coverage(
            rows,
            vx,
            vy,
            p,
        ) == 0 by {}
        assert forall|p: int| 0 <= p < 2048 implies frame@[p] == drawn(before, rows, vx, vy)[p]
            && frame@[p] <= 1 by {
            lemma_bits(before[p], 0, 0);
            if done_before(vx, vy, p, n as int, 0) {
                lemma_bits(rows[sprite_row(vy, p)], 0, (7 - sprite_col(vx, p)) as u8);
                lemma_bits(before[p], coverage(rows, vx, vy, p), 0);
            }
        }
        assert(frame@ =~= drawn(before, rows, vx, vy));
    }
    hit
}

} // verus!
