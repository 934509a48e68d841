//! Which sprite draws each segment of the snake, and at what angle.
use vstd::prelude::*;

use crate::grid::{Direction, Position};
use crate::snake::SnakeBody;

verus! {

/// The four sprites that a snake is drawn with.
#[derive(Clone, Copy, Debug, PartialEq, Eq, Structural)]
pub enum SpriteKind {
    Head,
    StraightBody,
    CurvedBody,
    Tail,
}

/// `before` and `after` are the cells `a` and `b`, in either order.
pub open spec fn joins(before: Position, after: Position, a: Position, b: Position) -> bool {
    (before == a && after == b) || (before == b && after == a)
}

/// The angle of the curved sprite for a segment at `cur` whose neighbours in
/// the snake sit at `before` and `after`: 0 when they are its upper and right
/// neighbours on the board, 90 for upper and left, 180 for lower and left,
/// 270 for lower and right; `None` when the segment does not turn.
pub open spec fn turn_angle(before: Position, cur: Position, after: Position) -> Option<int> {
    let up = cur.wrapped(Direction::Up);
    let down = cur.wrapped(Direction::Down);
    let left = cur.wrapped(Direction::Left);
    let right = cur.wrapped(Direction::Right);
    if joins(before, after, up, right) {
        Some(0)
    } else if joins(before, after, up, left) {
        Some(90)
    } else if joins(before, after, down, left) {
        Some(180)
    } else if joins(before, after, down, right) {
        Some(270)
    } else {
        None
    }
}

/// Sprite and angle of an interior segment: curved where it turns, else
/// straight at the angle of its own facing.
pub open spec fn interior_sprite(before: Position, cur: SnakeBody, after: Position) -> (
    SpriteKind,
    int,
) {
    match turn_angle(before, cur.pos, after) {
        Some(a) => (SpriteKind::CurvedBody, a),
        None => (SpriteKind::StraightBody, cur.direction.angle()),
    }
}

/// Sprite and angle of segment `i` of a snake: the head and the tail by their
/// own facing, the others by their neighbours.
pub open spec fn segment_sprite(snake: Seq<SnakeBody>, i: int) -> (SpriteKind, int) {
    if i == snake.len() - 1 {
        (SpriteKind::Head, snake[i].direction.angle())
    } else if i == 0 {
        (SpriteKind::Tail, snake[i].direction.angle())
    } else {
        interior_sprite(snake[i - 1].pos, snake[i], snake[i + 1].pos)
    }
}

/// Sprite and angle of an interior segment at `cur.pos` between the segments
/// at `before` (toward the tail) and `after` (toward the head).
pub fn body_sprite(before: Position, cur: SnakeBody, after: Position) -> (r: (SpriteKind, i32))
    requires
        cur.pos.in_grid(),
    ensures
        r.0 == interior_sprite(before, cur, after).0,
        r.1 == interior_sprite(before, cur, after).1,
{
    let up = cur.pos.step(Direction::Up);
    let down = cur.pos.step(Direction::Down);
    let left = cur.pos.step(Direction::Left);
    let right = cur.pos.step(Direction::Right);
    if (before == up && after == right) || (before == right && after == up) {
        (SpriteKind::CurvedBody, 0)
    } else if (before == up && after == left) || (before == left && after == up) {
        (SpriteKind::CurvedBody, 90)
    } else if (before == down && after == left) || (before == left && after == down) {
        (SpriteKind::CurvedBody, 180)
    } else if (before == down && after == right) || (before == right && after == down) {
        (SpriteKind::CurvedBody, 270)
    } else {
        (SpriteKind::StraightBody, cur.direction.rotation())
    }
}

/// Swapping the neighbours toward the tail and toward the head of a segment
/// changes neither whether it turns nor the angle of its sprite.
pub proof fn lemma_orientation_symmetric(before: Position, cur: SnakeBody, after: Position)
    ensures
        turn_angle(before, cur.pos, after) == turn_angle(after, cur.pos, before),
        interior_sprite(before, cur, after) == interior_sprite(after, cur, before),
{
}

} // verus!
