//! The game as a mathematical value, and its transitions as functions on that
//! value. The contracts of [`crate::game::Game`] are stated over these.

use crate::snake::{step, Direction, SnakeView};
use vstd::prelude::*;

verus! {

/// Time units in one second. All durations here are counted in these units.
pub const TICKS_PER_SECOND: u64 = 1_000_000;

/// Waiting time above which a running game moves the snake by itself.
pub const MOVING_PERIOD: u64 = 10_000_000;

/// Waiting time above which a finished game starts over.
pub const RESTART_TIME: u64 = 3_000_000;

/// Waiting time that every move made and every restart leaves behind.
pub const AFTER_MOVE_WAIT: u64 = 3_000_000;

/// Waiting time of a freshly created game.
pub const INITIAL_WAIT: u64 = 1_000_000;

/// A key press as the game sees it: one of the four arrows, or anything else.
#[derive(Clone, Copy, Debug, PartialEq, Eq, Structural)]
pub enum Key {
    Up,
    Down,
    Left,
    Right,
    Other,
}

impl Key {
    /// The direction that an arrow key asks for; no direction for other keys.
    pub open spec fn arrow(self) -> Option<Direction> {
        match self {
            Key::Up => Some(Direction::Up),
            Key::Down => Some(Direction::Down),
            Key::Left => Some(Direction::Left),
            Key::Right => Some(Direction::Right),
            Key::Other => None,
        }
    }
}

/// Whether a scan of the board row by row, each row from left to right,
/// reaches `p` before `q`.
pub open spec fn scanned_before(p: (int, int), q: (int, int)) -> bool {
    p.1 < q.1 || (p.1 == q.1 && p.0 < q.0)
}

/// What a [`crate::game::Game`] is, mathematically.
pub struct GameView {
    pub snake: SnakeView,
    pub food_exists: bool,
    pub food: (int, int),
    pub width: int,
    pub height: int,
    pub game_over: bool,
    /// Time accumulated since the last move, or since the game ended.
    pub waiting: int,
    pub score: int,
}

impl GameView {
    /// The starting state on a board of the given size.
    pub open spec fn initial(width: int, height: int) -> GameView {
        GameView {
            snake: SnakeView::initial(2, 2),
            food_exists: true,
            food: (6, 4),
            width,
            height,
            game_over: false,
            waiting: INITIAL_WAIT as int,
            score: 0,
        }
    }

    /// Whether `p` lies strictly inside the one-cell border of the board.
    pub open spec fn inside(self, p: (int, int)) -> bool {
        0 < p.0 < self.width - 1 && 0 < p.1 < self.height - 1
    }

    /// Whether `p` lies in the range from which food cells are drawn:
    /// `1..=width` by `1..=height`.
    pub open spec fn in_food_range(self, p: (int, int)) -> bool {
        1 <= p.0 <= self.width && 1 <= p.1 <= self.height
    }

    /// Whether `p` is a cell where food may be put: in the food range and not
    /// under the snake.
    pub open spec fn free(self, p: (int, int)) -> bool {
        self.in_food_range(p) && !self.snake.occupies(p)
    }

    /// Whether the snake survives a move with the optional override `dir`:
    /// the cell it would enter is inside the border and not part of its body
    /// as it lies now.
    pub open spec fn alive(self, dir: Option<Direction>) -> bool {
        let p = self.snake.next_head(dir);
        !self.snake.occupies(p) && self.inside(p)
    }

    /// Whether a move with the optional override `dir` lands on the food.
    pub open spec fn eats(self, dir: Option<Direction>) -> bool {
        self.food_exists && self.snake.next_head(dir) == self.food
    }

    /// The state after the check that follows a move: if the head is on the
    /// food, the food is gone, the vacated cell is back on the snake and the
    /// score is one higher; otherwise nothing changes.
    pub open spec fn digested(self) -> GameView {
        if self.food_exists && self.snake.head() == self.food {
            GameView {
                snake: self.snake.grown(),
                food_exists: false,
                score: self.score + 1,
                ..self
            }
        } else {
            self
        }
    }

    /// Whether a forced move with the optional override `dir` scores a point:
    /// the snake survives it and lands on the food.
    pub open spec fn scores(self, dir: Option<Direction>) -> bool {
        self.alive(dir) && self.eats(dir)
    }

    /// The state after a forced move with the optional override `dir`.
    ///
    /// If the snake survives, it moves, eats what it lands on, and the
    /// waiting time becomes [`AFTER_MOVE_WAIT`]. If it does not, the game
    /// ends with the snake where it was, and the waiting time starts at 0, so
    /// that it counts the time since the game ended.
    pub open spec fn stepped(self, dir: Option<Direction>) -> GameView {
        if self.alive(dir) {
            let next = GameView { snake: self.snake.moved(dir), ..self }.digested();
            GameView { waiting: AFTER_MOVE_WAIT as int, ..next }
        } else {
            GameView { game_over: true, waiting: 0, ..self }
        }
    }

    /// The state after a restart: everything as at the start, on the same
    /// board, with the waiting time of a move just made.
    pub open spec fn restarted(self) -> GameView {
        GameView { waiting: AFTER_MOVE_WAIT as int, ..GameView::initial(self.width, self.height) }
    }

    /// The direction of the forced move that a key press leads to, if it
    /// leads to one. A finished game ignores every key; a running game
    /// ignores keys that are no arrows and the arrow that points against the
    /// heading.
    pub open spec fn steer(self, key: Key) -> Option<Direction> {
        if self.game_over {
            None
        } else {
            match key.arrow() {
                Some(d) => if d == self.snake.direction.reversed() {
                    None
                } else {
                    Some(d)
                },
                None => None,
            }
        }
    }

    /// Whether a key press scores a point: it forces a move, and that move
    /// scores.
    pub open spec fn press_scores(self, key: Key) -> bool {
        self.steer(key) matches Some(d) && self.scores(Some(d))
    }

    /// Whether `delta` more units of time can score a point: the game runs,
    /// the waiting time then exceeds [`MOVING_PERIOD`], the snake survives
    /// the move straight ahead, and the food lies where the head lands, or
    /// there is no food yet, so that new food may be put there.
    pub open spec fn tick_may_score(self, delta: int) -> bool {
        &&& !self.game_over
        &&& self.waited(delta) > MOVING_PERIOD
        &&& self.alive(None)
        &&& self.food_exists ==> self.eats(None)
    }

    /// The state after a key press: the forced move that the key leads to,
    /// or no change.
    pub open spec fn pressed(self, key: Key) -> GameView {
        match self.steer(key) {
            Some(d) => self.stepped(Some(d)),
            None => self,
        }
    }

    /// The state with food at `p`.
    pub open spec fn with_food(self, p: (int, int)) -> GameView {
        GameView { food_exists: true, food: p, ..self }
    }

    /// The waiting time after `delta` more units, which stops growing at the
    /// largest `u64`.
    pub open spec fn waited(self, delta: int) -> int {
        if self.waiting + delta > u64::MAX {
            u64::MAX as int
        } else {
            self.waiting + delta
        }
    }

    /// The state after `delta` units of time have passed, where `spot` is the
    /// cell that receives the food if food has to be placed.
    ///
    /// A finished game starts over once the waiting time exceeds
    /// [`RESTART_TIME`] and otherwise only waits. A running game first gets
    /// food if it has none, and then makes a forced move straight ahead once
    /// the waiting time exceeds [`MOVING_PERIOD`].
    pub open spec fn advanced(self, delta: int, spot: (int, int)) -> GameView {
        let w = self.waited(delta);
        if self.game_over {
            if w > RESTART_TIME {
                self.restarted()
            } else {
                GameView { waiting: w, ..self }
            }
        } else {
            let fed = if self.food_exists {
                self
            } else {
                self.with_food(spot)
            };
            let fed = GameView { waiting: w, ..fed };
            if w > MOVING_PERIOD {
                fed.stepped(None)
            } else {
                fed
            }
        }
    }

    /// Whether the snake still lies exactly where a new game puts it.
    pub open spec fn unmoved(self) -> bool {
        self.snake.body == SnakeView::initial(2, 2).body
    }

    /// Whether the board is known to be large enough to have let the snake
    /// move, with every cell of the snake left of column `width`. In such a
    /// state the cell `(width, 1)` is always free for food.
    pub open spec fn settled(self) -> bool {
        &&& self.width >= 6
        &&& self.height >= 3
        &&& forall|i: int| 0 <= i < self.snake.body.len() ==> (#[trigger] self.snake.body[i]).0
            < self.width
    }

    /// The invariant of the game.
    ///
    /// The snake has three cells and one more for every point scored, and no
    /// cell twice; its second cell lies right behind the head; food never
    /// lies under the snake; the head is far enough from the ends of `i32`
    /// for the next cell to be computed; and the snake is either unmoved with
    /// food on the board, or the state is [`settled`](Self::settled).
    pub open spec fn wf(self) -> bool {
        &&& self.snake.body.len() == self.score + 3
        &&& self.snake.body.no_duplicates()
        &&& self.snake.body[1] == step(self.snake.head(), self.snake.direction.reversed())
        &&& self.food_exists ==> !self.snake.occupies(self.food)
        &&& i32::MIN < self.snake.head().0 < i32::MAX
        &&& i32::MIN < self.snake.head().1 < i32::MAX
        &&& i32::MIN <= self.width <= i32::MAX
        &&& i32::MIN <= self.height <= i32::MAX
        &&& 0 <= self.waiting <= u64::MAX
        &&& 0 <= self.score <= u32::MAX
        &&& (self.unmoved() && self.food_exists) || self.settled()
    }
}

} // verus!
