//! Where the board's cells lie in the window, in pixels.
use vstd::prelude::*;

use crate::grid::{Position, GRID_X, GRID_Y};

verus! {

pub const WINDOW_WIDTH: i32 = 900;

pub const WINDOW_HEIGHT: i32 = 900;

/// Margin between the window's edge and the board.
pub const GRID_OFFSET: i32 = 50;

/// Width of a cell: the window's width less both margins, over the columns.
pub const BLOCK_SIZE_X: i32 = 80;

/// Height of a cell: the window's height less both margins, over the rows.
pub const BLOCK_SIZE_Y: i32 = 80;

/// The pixel `m` lies strictly inside span `c` of a row of spans `block`
/// pixels wide that starts at the board's margin.
pub open spec fn inside_span(m: int, c: int, block: int) -> bool {
    GRID_OFFSET + c * block < m < GRID_OFFSET + c * block + block
}

/// The pixel `(mx, my)` lies strictly inside cell `p`, borders excluded.
pub open spec fn inside_cell(p: Position, mx: int, my: int) -> bool {
    inside_span(mx, p.x as int, BLOCK_SIZE_X as int) && inside_span(my, p.y as int, BLOCK_SIZE_Y as int)
}

/// Top-left pixel of the square drawn for cell `p`: one pixel below the
/// cell's grid line, so that the line stays visible.
pub fn cell_origin(p: Position) -> (r: (i32, i32))
    requires
        p.in_grid(),
    ensures
        r.0 == GRID_OFFSET + p.x * BLOCK_SIZE_X,
        r.1 == GRID_OFFSET + 1 + p.y * BLOCK_SIZE_Y,
{
    (GRID_OFFSET + p.x as i32 * BLOCK_SIZE_X, GRID_OFFSET + 1 + p.y as i32 * BLOCK_SIZE_Y)
}

/// The span among the first `n` whose inside holds pixel `m`.
fn span_under(m: usize, n: usize, block: usize) -> (r: Option<usize>)
    requires
        0 < block <= 100,
        n <= 100,
    ensures
        r matches Some(c) ==> c < n && inside_span(m as int, c as int, block as int),
        r.is_none() ==> forall|c: int| 0 <= c < n ==> !inside_span(m as int, c, block as int),
{
    let mut c: usize = 0;
    let mut start: usize = GRID_OFFSET as usize;
    while c < n
        invariant
            c <= n,
            n <= 100,
            0 < block <= 100,
            start == GRID_OFFSET + c * block,
            forall|k: int| 0 <= k < c ==> !inside_span(m as int, k, block as int),
        decreases n - c,
    {
        proof {
            assert(c * block <= 100 * 100) by (nonlinear_arith)
                requires
                    c <= 100,
                    block <= 100,
            ;
            assert((c + 1) * block == c * block + block) by (nonlinear_arith);
        }
        if start < m && m < start + block {
            return Some(c);
        }
        c = c + 1;
        start = start + block;
    }
    None
}

/// The cell whose inside holds pixel `(mx, my)`, if any.
pub fn cell_under(mx: usize, my: usize) -> (r: Option<Position>)
    ensures
        r matches Some(p) ==> p.in_grid() && inside_cell(p, mx as int, my as int),
        r.is_none() ==> forall|p: Position| p.in_grid() ==> !inside_cell(p, mx as int, my as int),
{
    match span_under(mx, GRID_X, BLOCK_SIZE_X as usize) {
        None => None,
        Some(x) => match span_under(my, GRID_Y, BLOCK_SIZE_Y as usize) {
            None => None,
            Some(y) => Some(Position { x, y }),
        },
    }
}

} // verus!
