//! Apple placement: a uniformly chosen cell that the snake leaves free.
use vstd::prelude::*;
use vstd::arithmetic::div_mod::lemma_fundamental_div_mod_converse;
use rand::Rng;

use crate::grid::{Position, GRID_X, GRID_Y};
use crate::snake::{cell_index, occupied, snake_collide, SnakeBody};

verus! {

/// Number of cells of the board.
pub const GRID_CELLS: usize = GRID_X * GRID_Y;

/// The cell with row-major index `i`.
pub open spec fn cell_at(i: int) -> Position {
    Position { x: (i % GRID_X as int) as usize, y: (i / GRID_X as int) as usize }
}

/// How many of the cells with row-major index below `n` the snake leaves free.
pub open spec fn free_before(snake: Seq<SnakeBody>, n: nat) -> nat
    decreases n,
{
    if n == 0 {
        0
    } else {
        free_before(snake, (n - 1) as nat) + if occupied(snake, cell_at(n - 1)) {
            0nat
        } else {
            1nat
        }
    }
}

/// How many cells of the board the snake leaves free.
pub open spec fn free_count(snake: Seq<SnakeBody>) -> nat {
    free_before(snake, GRID_CELLS as nat)
}

proof fn lemma_free_before_monotonic(snake: Seq<SnakeBody>, a: nat, b: nat)
    requires
        a <= b,
    ensures
        free_before(snake, a) <= free_before(snake, b),
    decreases b - a,
{
    if a < b {
        lemma_free_before_monotonic(snake, a, (b - 1) as nat);
    }
}

proof fn lemma_cell_at_index(p: Position)
    requires
        p.in_grid(),
    ensures
        cell_at(cell_index(p)) == p,
        0 <= cell_index(p) < GRID_CELLS,
{
    lemma_fundamental_div_mod_converse(cell_index(p), GRID_X as int, p.y as int, p.x as int);
}

/// Walks the board in row-major order and returns the free cell that has
/// exactly `k` free cells before it, or `None` if no more than `k` are free.
pub fn nth_free_cell(snake: &Vec<SnakeBody>, k: usize) -> (r: Option<Position>)
    ensures
        r.is_some() <==> k < free_count(snake@),
        r matches Some(p) ==> p.in_grid() && !occupied(snake@, p) && free_before(
            snake@,
            cell_index(p) as nat,
        ) == k,
{
    let mut count: usize = 0;
    let mut x: usize = 0;
    let mut y: usize = 0;
    let mut i: usize = 0;
    while i < GRID_CELLS
        invariant
            i <= GRID_CELLS,
            i == y * GRID_X + x,
            x < GRID_X,
            count == free_before(snake@, i as nat),
            count <= k,
        decreases GRID_CELLS - i,
    {
        let p = Position { x, y };
        proof {
            lemma_cell_at_index(p);
        }
        if !snake_collide(snake, p) {
            if count == k {
                proof {
                    lemma_free_before_monotonic(snake@, (i + 1) as nat, GRID_CELLS as nat);
                }
                return Some(p);
            }
            count = count + 1;
        }
        i = i + 1;
        if x + 1 == GRID_X {
            x = 0;
            y = y + 1;
        } else {
            x = x + 1;
        }
    }
    None
}

/// Counts the cells of the board that the snake leaves free.
pub fn count_free(snake: &Vec<SnakeBody>) -> (r: usize)
    ensures
        r == free_count(snake@),
{
    let mut count: usize = 0;
    let mut x: usize = 0;
    let mut y: usize = 0;
    let mut i: usize = 0;
    while i < GRID_CELLS
        invariant
            i <= GRID_CELLS,
            i == y * GRID_X + x,
            x < GRID_X,
            count == free_before(snake@, i as nat),
            count <= i,
        decreases GRID_CELLS - i,
    {
        let p = Position { x, y };
        proof {
            lemma_cell_at_index(p);
        }
        if !snake_collide(snake, p) {
            count = count + 1;
        }
        i = i + 1;
        if x + 1 == GRID_X {
            x = 0;
            y = y + 1;
        } else {
            x = x + 1;
        }
    }
    count
}

/// Relies on rand's `thread_rng` and `Rng::gen_range`, which returns a value of
/// the half-open range it is given and panics on an empty one.
#[verifier::external_body]
fn random_below(n: usize) -> (r: usize)
    requires
        n > 0,
    ensures
        r < n,
{
    rand::thread_rng().gen_range(0..n)
}

/// Picks a free cell for the apple, every free cell being equally likely.
/// Returns `None` exactly when the snake covers the whole board.
pub fn spawn(snake: &Vec<SnakeBody>) -> (r: Option<Position>)
    ensures
        r.is_some() <==> free_count(snake@) > 0,
        r matches Some(p) ==> p.in_grid() && !occupied(snake@, p),
{
    let free = count_free(snake);
    if free == 0 {
        return None;
    }
    let k = random_below(free);
    nth_free_cell(snake, k)
}

} // verus!
