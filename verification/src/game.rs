//! The game itself: one snake, one piece of food, a score, and the state
//! machine that key presses and the passing of time drive.

use crate::laws::{lemma_free_cell_exists, lemma_initial_wf, lemma_stepped_wf};
use crate::model::{
    scanned_before, GameView, Key, AFTER_MOVE_WAIT, INITIAL_WAIT, MOVING_PERIOD, RESTART_TIME,
};
use crate::sampling::random_in_range;
use crate::snake::{Direction, Snake};
use vstd::prelude::*;

verus! {

/// How many random cells food placement tries before it scans the board for
/// the first free one.
pub const FOOD_SAMPLE_TRIES: u32 = 64;

/// A game in progress or just finished.
pub struct Game {
    snake: Snake,
    food_exists: bool,
    food_x: i32,
    food_y: i32,
    width: i32,
    height: i32,
    game_over: bool,
    waiting_time: u64,
    score: u32,
}

impl View for Game {
    type V = GameView;

    closed spec fn view(&self) -> GameView {
        GameView {
            snake: self.snake@,
            food_exists: self.food_exists,
            food: (self.food_x as int, self.food_y as int),
            width: self.width as int,
            height: self.height as int,
            game_over: self.game_over,
            waiting: self.waiting_time as int,
            score: self.score as int,
        }
    }
}

impl Game {
    /// A new game on a board of `width` by `height` cells: the snake in its
    /// starting place, food at `(6, 4)`, no points yet.
    pub fn new(width: i32, height: i32) -> (g: Game)
        ensures
            g@ == GameView::initial(width as int, height as int),
            g@.wf(),
    {
        proof {
            lemma_initial_wf(width as int, height as int);
        }
        Game {
            snake: Snake::new(2, 2),
            waiting_time: INITIAL_WAIT,
            food_exists: true,
            food_x: 6,
            food_y: 4,
            width,
            height,
            game_over: false,
            score: 0,
        }
    }

    /// The direction of the forced move that a key press leads to, if it
    /// leads to one. A finished game ignores every key; a running game
    /// ignores keys that are no arrows and the arrow that points against the
    /// heading.
    pub fn steer(&self, key: Key) -> (dir: Option<Direction>)
        ensures
            dir == self@.steer(key),
    {
        if self.game_over {
            return None;
        }
        let dir = match key {
            Key::Up => Some(Direction::Up),
            Key::Down => Some(Direction::Down),
            Key::Left => Some(Direction::Left),
            Key::Right => Some(Direction::Right),
            Key::Other => None,
        };
        if let Some(d) = dir {
            if d == self.snake.head_direction().opposite() {
                return None;
            }
        }
        dir
    }

    /// Handles a key press: makes the forced move that the key leads to, at
    /// once, or changes nothing if the key is ignored.
    ///
    /// If the press scores a point, the score must have room for it.
    pub fn key_pressed(&mut self, key: Key)
        requires
            old(self)@.wf(),
            old(self)@.press_scores(key) ==> old(self)@.score < u32::MAX,
        ensures
            final(self)@ == old(self)@.pressed(key),
            old(self)@.steer(key).is_none() ==> final(self)@ == old(self)@,
            old(self)@.snake.body.len() <= final(self)@.snake.body.len() <= old(
                self,
            )@.snake.body.len() + 1,
            final(self)@.wf(),
    {
        if let Some(d) = self.steer(key) {
            self.update_snake(Some(d));
        }
    }

    /// Whether a press of `key` scores a point.
    pub fn press_scores(&self, key: Key) -> (b: bool)
        requires
            self@.wf(),
        ensures
            b == self@.press_scores(key),
    {
        match self.steer(key) {
            Some(d) => self.move_scores(Some(d)),
            None => false,
        }
    }

    /// Lets `delta_time` units of time pass, of which a second has
    /// [`TICKS_PER_SECOND`](crate::model::TICKS_PER_SECOND).
    ///
    /// A finished game starts over once it has waited longer than
    /// [`RESTART_TIME`]. A running game gets new food if it has none, and
    /// makes a forced move straight ahead once it has waited longer than
    /// [`MOVING_PERIOD`]. Where food is placed, it goes to a free cell, which
    /// the game's food position shows afterwards. The waiting time stops
    /// growing at the largest `u64`.
    ///
    /// If this can score a point, the score must have room for it.
    pub fn update(&mut self, delta_time: u64)
        requires
            old(self)@.wf(),
            old(self)@.tick_may_score(delta_time as int) ==> old(self)@.score < u32::MAX,
        ensures
            final(self)@ == old(self)@.advanced(delta_time as int, final(self)@.food),
            !old(self)@.game_over && !old(self)@.food_exists ==> old(self)@.free(final(self)@.food),
            !old(self)@.game_over ==> old(self)@.snake.body.len() <= final(self)@.snake.body.len()
                <= old(self)@.snake.body.len() + 1,
            final(self)@.wf(),
    {
        self.waiting_time = self.waiting_time.saturating_add(delta_time);
        if self.game_over {
            if self.waiting_time > RESTART_TIME {
                self.restart();
            }
            return;
        }
        if !self.food_exists {
            self.add_food();
        }
        if self.waiting_time > MOVING_PERIOD {
            self.update_snake(None);
        }
    }

    /// Whether `delta_time` more units of time can score a point: a timed
    /// move is due, the snake survives it, and the food lies where the head
    /// lands or has yet to be placed.
    pub fn tick_may_score(&self, delta_time: u64) -> (b: bool)
        requires
            self@.wf(),
        ensures
            b == self@.tick_may_score(delta_time as int),
    {
        if self.game_over || self.waiting_time.saturating_add(delta_time) <= MOVING_PERIOD {
            return false;
        }
        if self.food_exists {
            self.move_scores(None)
        } else {
            self.check_if_snake_alive(None)
        }
    }

    /// Puts food at `(x, y)` unless the snake lies there, and says whether
    /// it did.
    pub fn try_place_food(&mut self, x: i32, y: i32) -> (placed: bool)
        requires
            old(self)@.wf(),
        ensures
            placed == !old(self)@.snake.occupies((x as int, y as int)),
            placed ==> final(self)@ == old(self)@.with_food((x as int, y as int)),
            !placed ==> final(self)@ == old(self)@,
            final(self)@.wf(),
    {
        if self.snake.overlap_tail(x, y) {
            return false;
        }
        self.food_x = x;
        self.food_y = y;
        self.food_exists = true;
        true
    }

    /// The first free cell that a scan of the food range meets, row by row
    /// and each row from left to right; `None` if the snake covers the whole
    /// range or the range is empty.
    pub fn first_free_cell(&self) -> (spot: Option<(i32, i32)>)
        ensures
            match spot {
                Some(c) => {
                    &&& self@.free((c.0 as int, c.1 as int))
                    &&& forall|p: (int, int)|
                        self@.in_food_range(p) && scanned_before(p, (c.0 as int, c.1 as int))
                            ==> self@.snake.occupies(p)
                },
                None => forall|p: (int, int)| !self@.free(p),
            },
    {
        let mut y: i64 = 1;
        while y <= self.height as i64
            invariant
                1 <= y <= self.height + 1 || (y == 1 && self.height < 1),
                forall|p: (int, int)| self@.in_food_range(p) && p.1 < y ==> self@.snake.occupies(p),
            decreases self.height + 1 - y,
        {
            let mut x: i64 = 1;
            while x <= self.width as i64
                invariant
                    1 <= y <= self.height,
                    1 <= x <= self.width + 1 || (x == 1 && self.width < 1),
                    forall|p: (int, int)|
                        self@.in_food_range(p) && p.1 < y ==> self@.snake.occupies(p),
                    forall|p: (int, int)|
                        self@.in_food_range(p) && p.1 == y && p.0 < x ==> self@.snake.occupies(p),
                decreases self.width + 1 - x,
            {
                if !self.snake.overlap_tail(x as i32, y as i32) {
                    return Some((x as i32, y as i32));
                }
                x += 1;
            }
            y += 1;
        }
        None
    }

    /// Places food on a free cell of the food range.
    ///
    /// Cells are drawn at random up to [`FOOD_SAMPLE_TRIES`] times; if the
    /// snake lies under every one of them, the first free cell of a scan
    /// takes the food. A free cell always exists, so this always ends with
    /// food on the board.
    pub fn add_food(&mut self)
        requires
            old(self)@.wf(),
            old(self)@.width >= 1,
            old(self)@.height >= 1,
        ensures
            old(self)@.free(final(self)@.food),
            final(self)@ == old(self)@.with_food(final(self)@.food),
            final(self)@.wf(),
    {
        let mut tries: u32 = 0;
        while tries < FOOD_SAMPLE_TRIES
            invariant
                self@ == old(self)@,
                self@.wf(),
                self.width >= 1,
                self.height >= 1,
            decreases FOOD_SAMPLE_TRIES - tries,
        {
            let new_x = random_in_range(1, self.width);
            let new_y = random_in_range(1, self.height);
            if self.try_place_food(new_x, new_y) {
                return;
            }
            tries += 1;
        }
        let spot = self.first_free_cell();
        proof {
            lemma_free_cell_exists(self@);
        }
        let (x, y) = spot.unwrap();
        self.try_place_food(x, y);
    }

    /// Whether the snake survives a move with the optional override `dir`.
    pub fn check_if_snake_alive(&self, dir: Option<Direction>) -> (alive: bool)
        requires
            self@.wf(),
        ensures
            alive == self@.alive(dir),
    {
        let (next_x, next_y) = self.snake.next_head(dir);
        if self.snake.overlap_tail(next_x, next_y) {
            return false;
        }
        let last_column = self.width as i64 - 1;
        let last_row = self.height as i64 - 1;
        next_x > 0 && next_y > 0 && (next_x as i64) < last_column && (next_y as i64) < last_row
    }

    /// Whether a forced move with the optional override `dir` scores a
    /// point: the snake survives it and lands on the food.
    pub fn move_scores(&self, dir: Option<Direction>) -> (b: bool)
        requires
            self@.wf(),
        ensures
            b == self@.scores(dir),
    {
        if !self.check_if_snake_alive(dir) {
            return false;
        }
        let (next_x, next_y) = self.snake.next_head(dir);
        self.food_exists && self.food_x == next_x && self.food_y == next_y
    }

    /// The check that follows a move: if the head is on the food, the food
    /// is eaten, the snake gets its vacated cell back and the score goes up
    /// by one; otherwise nothing changes.
    ///
    /// Between moves the head is never on the food, so that this changes
    /// nothing then.
    pub fn check_eating(&mut self)
        requires
            old(self)@.snake.wf(),
            old(self)@.snake.tail.is_some(),
            old(self)@.food_exists && old(self)@.snake.head() == old(self)@.food ==> old(
                self,
            )@.score < u32::MAX,
        ensures
            final(self)@ == old(self)@.digested(),
            old(self)@.wf() ==> final(self)@ == old(self)@,
    {
        let (head_x, head_y): (i32, i32) = self.snake.head_position();
        if self.food_exists && self.food_x == head_x && self.food_y == head_y {
            self.food_exists = false;
            self.snake.restore_tail();
            self.score += 1;
        }
    }

    /// A forced move with the optional override `dir`. If the snake
    /// survives, it moves, eats what it lands on, and the waiting time
    /// becomes [`AFTER_MOVE_WAIT`]. If it does not, the game ends with the
    /// snake where it was, and the waiting time starts at 0.
    ///
    /// If the move scores a point, the score must have room for it.
    pub fn update_snake(&mut self, dir: Option<Direction>)
        requires
            old(self)@.wf(),
            old(self)@.scores(dir) ==> old(self)@.score < u32::MAX,
        ensures
            final(self)@ == old(self)@.stepped(dir),
            final(self)@.game_over == (old(self)@.game_over || !old(self)@.alive(dir)),
            final(self)@.snake.body.len() == old(self)@.snake.body.len() + if old(self)@.scores(
                dir,
            ) {
                1int
            } else {
                0int
            },
            final(self)@.wf(),
    {
        proof {
            lemma_stepped_wf(self@, dir);
        }
        if self.check_if_snake_alive(dir) {
            self.snake.move_forward(dir);
            self.check_eating();
            self.waiting_time = AFTER_MOVE_WAIT;
        } else {
            self.game_over = true;
            self.waiting_time = 0;
        }
    }

    /// Starts over on the same board.
    pub fn restart(&mut self)
        ensures
            final(self)@ == old(self)@.restarted(),
            final(self)@.wf(),
    {
        proof {
            lemma_initial_wf(self.width as int, self.height as int);
        }
        self.snake = Snake::new(2, 2);
        self.waiting_time = AFTER_MOVE_WAIT;
        self.food_exists = true;
        self.food_x = 6;
        self.food_y = 4;
        self.game_over = false;
        self.score = 0;
    }

    /// The snake.
    pub fn snake(&self) -> (s: &Snake)
        ensures
            s@ == self@.snake,
    {
        &self.snake
    }

    /// Whether there is food on the board.
    pub fn food_exists(&self) -> (b: bool)
        ensures
            b == self@.food_exists,
    {
        self.food_exists
    }

    /// The cell of the food, or of the food last eaten if there is none.
    pub fn food_position(&self) -> (p: (i32, i32))
        ensures
            (p.0 as int, p.1 as int) == self@.food,
    {
        (self.food_x, self.food_y)
    }

    /// The number of columns of the board.
    pub fn width(&self) -> (w: i32)
        ensures
            w == self@.width,
    {
        self.width
    }

    /// The number of rows of the board.
    pub fn height(&self) -> (h: i32)
        ensures
            h == self@.height,
    {
        self.height
    }

    /// Whether the game has ended and waits for its restart.
    pub fn is_game_over(&self) -> (b: bool)
        ensures
            b == self@.game_over,
    {
        self.game_over
    }

    /// The time waited since the last move, or since the game ended.
    pub fn waiting_time(&self) -> (t: u64)
        ensures
            t == self@.waiting,
    {
        self.waiting_time
    }

    /// The number of pieces of food eaten since the game started.
    pub fn score(&self) -> (n: u32)
        ensures
            n == self@.score,
    {
        self.score
    }
}

} // verus!
