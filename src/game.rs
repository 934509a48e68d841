//! The game: snake, apple, score, movement clock and the
//! START / PLAYING / PAUSED / GAMEOVER state machine.
use vstd::prelude::*;

use crate::apple::{free_count, spawn, GRID_CELLS};
use crate::grid::{lemma_step_wraps, Direction, KeyInput, Position, GRID_X, GRID_Y};
use crate::orientation::{body_sprite, segment_sprite, SpriteKind};
use crate::snake::{
    initial_snake, lemma_snake_fits, occupied, snake_collide, snake_wf, start_snake, SnakeBody,
};

verus! {

/// Milliseconds that must have accumulated before the snake moves again.
pub const TICK_MS: u32 = 500;

/// Points for each apple eaten.
pub const APPLE_POINTS: usize = 100;

/// Where the apple of a new game lies.
pub const START_APPLE_X: usize = 3;
pub const START_APPLE_Y: usize = 7;

/// The phase of a game.
#[derive(Clone, Copy, Debug, PartialEq, Eq, Structural)]
pub enum State {
    Start,
    Playing,
    GameOver,
    Paused,
}

/// What one move of the snake did.
#[derive(Clone, Copy, Debug, PartialEq, Eq, Structural)]
pub enum Outcome {
    /// The snake moved one cell.
    Moved,
    /// The head reached the apple: the snake grew by one segment.
    Ate,
    /// The head would have entered the snake's own body.
    Collided,
}

/// A game in progress.
pub struct Game {
    /// Segments from tail (index 0) to head (last index).
    pub snake: Vec<SnakeBody>,
    pub apple: Position,
    /// Milliseconds accumulated toward the next move.
    pub time_ms: u32,
    pub score: usize,
    pub paused: bool,
    /// The direction that the next move takes.
    pub next_direction: Direction,
    pub state: State,
}

/// The mathematical value of a game.
pub struct GameView {
    pub snake: Seq<SnakeBody>,
    pub apple: Position,
    pub time_ms: u32,
    pub score: int,
    pub paused: bool,
    pub next_direction: Direction,
    pub state: State,
}

impl View for Game {
    type V = GameView;

    open spec fn view(&self) -> GameView {
        GameView {
            snake: self.snake@,
            apple: self.apple,
            time_ms: self.time_ms,
            score: self.score as int,
            paused: self.paused,
            next_direction: self.next_direction,
            state: self.state,
        }
    }
}

/// The snake after eating: the head stays as body, now facing `d`, and a new
/// head enters the next cell.
pub open spec fn grown(snake: Seq<SnakeBody>, d: Direction) -> Seq<SnakeBody> {
    let head = snake.last();
    snake.drop_last().push(SnakeBody { pos: head.pos, direction: d }).push(
        SnakeBody { pos: head.pos.wrapped(d), direction: d },
    )
}

/// The snake after a plain move: as after eating, but the tail segment leaves.
pub open spec fn shifted(snake: Seq<SnakeBody>, d: Direction) -> Seq<SnakeBody> {
    grown(snake, d).drop_first()
}

/// `time + frame`, held at the largest `u32`.
pub open spec fn clock_after(time: u32, frame: u32) -> u32 {
    time.saturating_add(frame)
}

impl GameView {
    /// The invariant of a game: a well-formed snake no longer than the board
    /// has cells, an apple on the board and off the snake while the game is
    /// not over, a score of one apple's points per segment grown, and the
    /// pause flag set exactly in the paused and finished phases.
    pub open spec fn wf(self) -> bool {
        &&& snake_wf(self.snake)
        &&& self.snake.len() <= GRID_CELLS
        &&& self.apple.in_grid()
        &&& self.state != State::GameOver ==> !occupied(self.snake, self.apple)
        &&& self.score == APPLE_POINTS * (self.snake.len() - 2)
        &&& self.paused == (self.state == State::Paused || self.state == State::GameOver)
    }

    /// The state of a new game.
    pub open spec fn is_initial(self) -> bool {
        &&& self.snake == initial_snake()
        &&& self.apple == Position { x: START_APPLE_X, y: START_APPLE_Y }
        &&& self.time_ms == 0
        &&& self.score == 0
        &&& !self.paused
        &&& self.next_direction == Direction::Down
        &&& self.state == State::Start
    }

    /// The cell that the head enters on a move in direction `d`.
    pub open spec fn next_head(self, d: Direction) -> Position {
        self.snake.last().pos.wrapped(d)
    }

    /// What a move in direction `d` does: eat when it enters the apple's cell,
    /// else collide when it enters a cell of the snake, else move.
    pub open spec fn outcome(self, d: Direction) -> Outcome {
        if self.next_head(d) == self.apple {
            Outcome::Ate
        } else if occupied(self.snake, self.next_head(d)) {
            Outcome::Collided
        } else {
            Outcome::Moved
        }
    }

    /// `post` is what a move in direction `d` makes of `pre` with result `r`.
    /// The clock and the pending direction are not part of it.
    pub open spec fn advanced(pre: GameView, d: Direction, post: GameView, r: Outcome) -> bool {
        &&& r == pre.outcome(d)
        &&& match r {
            Outcome::Ate => {
                &&& post.snake == grown(pre.snake, d)
                &&& post.score == pre.score + APPLE_POINTS
                &&& if free_count(post.snake) > 0 {
                    &&& post.apple.in_grid()
                    &&& !occupied(post.snake, post.apple)
                    &&& post.state == pre.state
                    &&& post.paused == pre.paused
                } else {
                    &&& post.apple == pre.apple
                    &&& post.state == State::GameOver
                    &&& post.paused
                }
            },
            Outcome::Collided => {
                &&& post.snake == pre.snake
                &&& post.score == pre.score
                &&& post.apple == pre.apple
                &&& post.state == State::GameOver
                &&& post.paused
            },
            Outcome::Moved => {
                &&& post.snake == shifted(pre.snake, d)
                &&& post.score == pre.score
                &&& post.apple == pre.apple
                &&& post.state == pre.state
                &&& post.paused == pre.paused
            },
        }
    }
    /// `post` is what one frame of play makes of `pre` with result `r`: the
    /// keys update the pending direction; when a full tick has
    /// accumulated and the game is not paused, the clock restarts and the
    /// snake moves in the pending direction; the frame's time is added to the
    /// clock in any case.
    pub open spec fn ticked(
        pre: GameView,
        keys: KeyInput,
        frame_ms: u32,
        post: GameView,
        r: Option<Outcome>,
    ) -> bool {
        let d = pre.next_direction.changed(keys);
        let due = pre.time_ms >= TICK_MS && !pre.paused;
        &&& post.next_direction == d
        &&& post.time_ms == clock_after(if due { 0 } else { pre.time_ms }, frame_ms)
        &&& if due {
            match r {
                Some(o) => GameView::advanced(pre, d, post, o),
                None => false,
            }
        } else {
            &&& r is None
            &&& post.snake == pre.snake
            &&& post.apple == pre.apple
            &&& post.score == pre.score
            &&& post.state == pre.state
            &&& post.paused == pre.paused
        }
    }
}

proof fn lemma_initial_apple_free()
    ensures
        !occupied(initial_snake(), Position { x: START_APPLE_X, y: START_APPLE_Y }),
{
    let s = initial_snake();
    assert forall|i: int| 0 <= i < s.len() implies s[i].pos != (Position {
        x: START_APPLE_X,
        y: START_APPLE_Y,
    }) by {
        assert(i == 0 || i == 1);
    }
}

/// A move that does not collide puts the head on the cell one step away in
/// the direction of the move, wrapping at every edge: off the last column to
/// the right onto column 0, off column 0 to the left onto the last column,
/// and likewise for the rows.
pub proof fn lemma_advance_wraps(pre: GameView, d: Direction, post: GameView, r: Outcome)
    requires
        pre.wf(),
        pre.state != State::GameOver,
        GameView::advanced(pre, d, post, r),
        r != Outcome::Collided,
    ensures
        post.snake.last().pos == pre.next_head(d),
        post.snake.last().pos.in_grid(),
        d == Direction::Right ==> post.snake.last().pos.y == pre.snake.last().pos.y
            && post.snake.last().pos.x == (if pre.snake.last().pos.x == GRID_X - 1 {
            0
        } else {
            pre.snake.last().pos.x + 1
        }),
        d == Direction::Left ==> post.snake.last().pos.y == pre.snake.last().pos.y
            && post.snake.last().pos.x == (if pre.snake.last().pos.x == 0 {
            GRID_X - 1
        } else {
            pre.snake.last().pos.x - 1
        }),
        d == Direction::Down ==> post.snake.last().pos.x == pre.snake.last().pos.x
            && post.snake.last().pos.y == (if pre.snake.last().pos.y == GRID_Y - 1 {
            0
        } else {
            pre.snake.last().pos.y + 1
        }),
        d == Direction::Up ==> post.snake.last().pos.x == pre.snake.last().pos.x
            && post.snake.last().pos.y == (if pre.snake.last().pos.y == 0 {
            GRID_Y - 1
        } else {
            pre.snake.last().pos.y - 1
        }),
{
    let h = pre.snake.last().pos;
    assert(pre.snake[pre.snake.len() - 1].pos.in_grid());
    lemma_step_wraps(h, d);
}

/// Eating grows the snake by exactly one segment and the score by exactly one
/// apple's points. The new apple lies on the board and on no segment of the
/// snake; only a board left without a free cell has no new apple, and that
/// ends the game.
pub proof fn lemma_eating_grows(pre: GameView, d: Direction, post: GameView)
    requires
        pre.wf(),
        pre.state != State::GameOver,
        GameView::advanced(pre, d, post, Outcome::Ate),
    ensures
        post.snake.len() == pre.snake.len() + 1,
        post.score == pre.score + APPLE_POINTS,
        free_count(post.snake) > 0 ==> post.apple.in_grid() && !occupied(post.snake, post.apple),
        free_count(post.snake) == 0 ==> post.state == State::GameOver,
{
}

/// A move collides exactly when the cell that the head enters holds a
/// segment of the snake other than the head itself.
pub proof fn lemma_collision_iff(v: GameView, d: Direction)
    requires
        v.wf(),
        v.state != State::GameOver,
    ensures
        (v.outcome(d) == Outcome::Collided) <==> exists|i: int|
            0 <= i < v.snake.len() && #[trigger] v.snake[i].pos == v.next_head(d)
                && v.snake[i].pos != v.snake.last().pos,
{
    let h = v.snake.last().pos;
    assert(v.snake[v.snake.len() - 1].pos.in_grid());
    lemma_step_wraps(h, d);
    if v.outcome(d) == Outcome::Collided {
        let i = choose|i: int| 0 <= i < v.snake.len() && #[trigger] v.snake[i].pos == v.next_head(d);
        assert(v.snake[i].pos != h);
    }
}

impl Game {
    /// A new game: the starting snake, the apple at its starting cell, score
    /// 0, waiting in the START phase.
    pub fn new() -> (r: Game)
        ensures
            r@.is_initial(),
            r@.wf(),
    {
        let snake = start_snake();
        proof {
            lemma_initial_apple_free();
        }
        Game {
            snake,
            apple: Position { x: START_APPLE_X, y: START_APPLE_Y },
            time_ms: 0,
            score: 0,
            paused: false,
            next_direction: Direction::Down,
            state: State::Start,
        }
    }

    /// Puts every part of the game back to its starting value.
    pub fn reset(&mut self)
        ensures
            final(self)@.is_initial(),
            final(self)@.wf(),
    {
        proof {
            lemma_initial_apple_free();
        }
        self.snake = start_snake();
        self.apple = Position { x: START_APPLE_X, y: START_APPLE_Y };
        self.time_ms = 0;
        self.score = 0;
        self.paused = false;
        self.next_direction = Direction::Down;
        self.state = State::Start;
    }

    /// Whether some segment of the snake sits on `p`.
    pub fn occupies(&self, p: Position) -> (r: bool)
        ensures
            r == occupied(self.snake@, p),
    {
        snake_collide(&self.snake, p)
    }

    /// Moves the snake once in direction `d`. Entering the apple's cell grows
    /// the snake, adds an apple's points and places a new apple on a free
    /// cell (a board left without one ends the game); entering the snake's
    /// own body ends the game and leaves the snake as it was; otherwise every
    /// segment moves up to the place of the next one and the head enters the
    /// new cell.
    pub fn advance(&mut self, d: Direction) -> (r: Outcome)
        requires
            old(self)@.wf(),
            old(self).state != State::GameOver,
        ensures
            GameView::advanced(old(self)@, d, final(self)@, r),
            final(self).time_ms == old(self).time_ms,
            final(self).next_direction == old(self).next_direction,
            final(self)@.wf(),
    {
        let ghost pre = self@;
        let len = self.snake.len() - 1;
        let head = self.snake[len];
        let next = head.pos.step(d);
        proof {
            lemma_step_wraps(head.pos, d);
        }
        if next == self.apple {
            proof {
                lemma_snake_fits(pre.snake, pre.apple);
            }
            self.score = self.score + APPLE_POINTS;
            self.snake.set(len, SnakeBody { pos: head.pos, direction: d });
            self.snake.push(SnakeBody { pos: next, direction: d });
            assert(self.snake@ =~= grown(pre.snake, d));
            match spawn(&self.snake) {
                Some(p) => {
                    self.apple = p;
                },
                None => {
                    self.paused = true;
                    self.state = State::GameOver;
                },
            }
            Outcome::Ate
        } else if snake_collide(&self.snake, next) {
            self.paused = true;
            self.state = State::GameOver;
            Outcome::Collided
        } else {
            self.snake.remove(0);
            self.snake.set(len - 1, SnakeBody { pos: head.pos, direction: d });
            self.snake.push(SnakeBody { pos: next, direction: d });
            assert(self.snake@ =~= shifted(pre.snake, d));
            Outcome::Moved
        }
    }

    /// Answers the confirm key: START begins play, PLAYING and PAUSED toggle
    /// the pause, and GAMEOVER starts over from a new game.
    pub fn confirm(&mut self)
        requires
            old(self)@.wf(),
        ensures
            final(self)@.wf(),
            old(self).state == State::Start ==> final(self)@ == (GameView {
                state: State::Playing,
                ..old(self)@
            }),
            old(self).state == State::Playing ==> final(self)@ == (GameView {
                state: State::Paused,
                paused: true,
                ..old(self)@
            }),
            old(self).state == State::Paused ==> final(self)@ == (GameView {
                state: State::Playing,
                paused: false,
                ..old(self)@
            }),
            old(self).state == State::GameOver ==> final(self)@.is_initial(),
    {
        match self.state {
            State::Playing | State::Paused => {
                self.paused = !self.paused;
                self.state = if self.paused {
                    State::Paused
                } else {
                    State::Playing
                };
            },
            State::Start => {
                self.state = State::Playing;
            },
            State::GameOver => {
                self.reset();
            },
        }
    }

    /// One frame of a game that is being played or is paused: the keys update
    /// the pending direction, and the snake moves once a full tick has
    /// accumulated on the clock, unless the game is paused.
    pub fn playing(&mut self, keys: KeyInput, frame_ms: u32) -> (r: Option<Outcome>)
        requires
            old(self)@.wf(),
            old(self).state == State::Playing || old(self).state == State::Paused,
        ensures
            GameView::ticked(old(self)@, keys, frame_ms, final(self)@, r),
            final(self)@.wf(),
    {
        self.next_direction.change(keys);
        let mut r: Option<Outcome> = None;
        if self.time_ms >= TICK_MS && !self.paused {
            self.time_ms = 0;
            let d = self.next_direction;
            r = Some(self.advance(d));
        }
        self.time_ms = self.time_ms.saturating_add(frame_ms);
        r
    }

    /// One frame of the game: play goes on in the PLAYING and PAUSED phases;
    /// in START and GAMEOVER only the clock runs on.
    pub fn update(&mut self, keys: KeyInput, frame_ms: u32) -> (r: Option<Outcome>)
        requires
            old(self)@.wf(),
        ensures
            final(self)@.wf(),
            old(self).state == State::Playing || old(self).state == State::Paused
                ==> GameView::ticked(old(self)@, keys, frame_ms, final(self)@, r),
            old(self).state == State::Start || old(self).state == State::GameOver
                ==> (final(self)@ == (GameView {
                time_ms: clock_after(old(self).time_ms, frame_ms),
                ..old(self)@
            }) && r.is_none()),
    {
        match self.state {
            State::Playing | State::Paused => self.playing(keys, frame_ms),
            State::Start | State::GameOver => {
                self.time_ms = self.time_ms.saturating_add(frame_ms);
                None
            },
        }
    }

    /// Sprite and angle of the interior segment `index`.
    pub fn get_snake_body(&self, index: usize) -> (r: (SpriteKind, i32))
        requires
            self@.wf(),
            0 < index < self.snake.len() - 1,
        ensures
            r.0 == segment_sprite(self.snake@, index as int).0,
            r.1 == segment_sprite(self.snake@, index as int).1,
    {
        body_sprite(self.snake[index - 1].pos, self.snake[index], self.snake[index + 1].pos)
    }

    /// Each segment's cell, sprite and angle, from tail to head.
    pub fn snake_sprites(&self) -> (r: Vec<(Position, SpriteKind, i32)>)
        requires
            self@.wf(),
        ensures
            r@.len() == self.snake@.len(),
            forall|i: int|
                0 <= i < r@.len() ==> (#[trigger] r@[i]).0 == self.snake@[i].pos && r@[i].1
                    == segment_sprite(self.snake@, i).0 && r@[i].2 == segment_sprite(
                    self.snake@,
                    i,
                ).1,
    {
        let len = self.snake.len();
        let mut r: Vec<(Position, SpriteKind, i32)> = Vec::new();
        let mut i: usize = 0;
        while i < len
            invariant
                self@.wf(),
                len == self.snake@.len(),
                i <= len,
                r@.len() == i,
                forall|j: int|
                    0 <= j < i ==> (#[trigger] r@[j]).0 == self.snake@[j].pos && r@[j].1
                        == segment_sprite(self.snake@, j).0 && r@[j].2 == segment_sprite(
                        self.snake@,
                        j,
                    ).1,
            decreases len - i,
        {
            let seg = self.snake[i];
            let (kind, angle) = if i == len - 1 {
                (SpriteKind::Head, seg.direction.rotation())
            } else if i == 0 {
                (SpriteKind::Tail, seg.direction.rotation())
            } else {
                self.get_snake_body(i)
            };
            r.push((seg.pos, kind, angle));
            i = i + 1;
        }
        r
    }

    /// The index of the segment on `p`, if any.
    pub fn segment_at(&self, p: Position) -> (r: Option<usize>)
        ensures
            r.is_none() <==> !occupied(self.snake@, p),
            r matches Some(i) ==> i < self.snake@.len() && self.snake@[i as int].pos == p,
    {
        let mut i: usize = 0;
        while i < self.snake.len()
            invariant
                i <= self.snake@.len(),
                forall|j: int| 0 <= j < i ==> self.snake@[j].pos != p,
            decreases self.snake@.len() - i,
        {
            if self.snake[i].pos == p {
                return Some(i);
            }
            i = i + 1;
        }
        None
    }
}

} // verus!
