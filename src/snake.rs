//! The snake as a sequence of segments, tail first and head last.
use vstd::prelude::*;
use vstd::set_lib::{lemma_int_range, lemma_len_subset, set_int_range};

use crate::grid::{Direction, Position, GRID_X, GRID_Y};

verus! {

/// One segment of the snake: the cell it sits on and the way it faces.
#[derive(Clone, Copy, Debug, PartialEq, Eq, Structural)]
pub struct SnakeBody {
    pub pos: Position,
    pub direction: Direction,
}

impl SnakeBody {
    pub fn new(x: usize, y: usize, direction: Direction) -> (r: SnakeBody)
        ensures
            r.pos.x == x,
            r.pos.y == y,
            r.direction == direction,
    {
        SnakeBody { pos: Position { x, y }, direction }
    }
}

/// Some segment of `snake` sits on `p`.
pub open spec fn occupied(snake: Seq<SnakeBody>, p: Position) -> bool {
    exists|i: int| 0 <= i < snake.len() && #[trigger] snake[i].pos == p
}

/// Every segment is on the board and no two share a cell.
pub open spec fn on_board_distinct(snake: Seq<SnakeBody>) -> bool {
    &&& forall|i: int| 0 <= i < snake.len() ==> (#[trigger] snake[i]).pos.in_grid()
    &&& forall|i: int, j: int|
        0 <= i < j < snake.len() ==> (#[trigger] snake[i]).pos != (#[trigger] snake[j]).pos
}

/// A well-formed snake: at least two segments, on the board, on distinct cells,
/// and each segment but the head faces the next one toward the head, which is
/// therefore one step away on the board.
pub open spec fn snake_wf(snake: Seq<SnakeBody>) -> bool {
    &&& snake.len() >= 2
    &&& on_board_distinct(snake)
    &&& forall|i: int|
        0 <= i < snake.len() - 1 ==> #[trigger] snake[i].pos.wrapped(snake[i].direction)
            == snake[i + 1].pos
}

/// The snake that a game starts with: tail at (3,3), head at (3,4), both facing down.
pub open spec fn initial_snake() -> Seq<SnakeBody> {
    seq![
        SnakeBody { pos: Position { x: 3, y: 3 }, direction: Direction::Down },
        SnakeBody { pos: Position { x: 3, y: 4 }, direction: Direction::Down },
    ]
}

/// Builds the snake that a game starts with.
pub fn start_snake() -> (r: Vec<SnakeBody>)
    ensures
        r@ == initial_snake(),
        snake_wf(r@),
{
    let r = vec![SnakeBody::new(3, 3, Direction::Down), SnakeBody::new(3, 4, Direction::Down)];
    assert(r@ == initial_snake());
    r
}

/// Whether some segment of the snake sits on `p`.
pub fn snake_collide(snake: &Vec<SnakeBody>, p: Position) -> (r: bool)
    ensures
        r == occupied(snake@, p),
{
    let mut i: usize = 0;
    while i < snake.len()
        invariant
            i <= snake.len(),
            forall|j: int| 0 <= j < i ==> snake@[j].pos != p,
        decreases snake.len() - i,
    {
        if snake[i].pos == p {
            return true;
        }
        i = i + 1;
    }
    false
}

/// Row-major index of a cell.
pub open spec fn cell_index(p: Position) -> int {
    p.y * GRID_X + p.x
}

/// A snake on distinct cells of the board leaves a cell free only if it is
/// shorter than the board has cells.
pub proof fn lemma_snake_fits(snake: Seq<SnakeBody>, free: Position)
    requires
        on_board_distinct(snake),
        free.in_grid(),
        !occupied(snake, free),
    ensures
        snake.len() < GRID_X * GRID_Y,
{
    let idx = snake.map_values(|s: SnakeBody| cell_index(s.pos));
    assert forall|i: int, j: int| 0 <= i < j < idx.len() implies idx[i] != idx[j] by {
        assert(snake[i].pos != snake[j].pos);
    }
    assert(idx.no_duplicates());
    idx.unique_seq_to_set();
    let board = set_int_range(0, GRID_X * GRID_Y).remove(cell_index(free));
    lemma_int_range(0, GRID_X * GRID_Y);
    assert forall|v: int| idx.to_set().contains(v) implies board.contains(v) by {
        let i = choose|i: int| 0 <= i < idx.len() && idx[i] == v;
        assert(snake[i].pos.in_grid());
        if v == cell_index(free) {
            assert(snake[i].pos == free);
        }
    }
    lemma_len_subset(idx.to_set(), board);
}

} // verus!
