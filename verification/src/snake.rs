//! The snake: an ordered run of grid cells from head to tail, a heading, and
//! the one-slot memory of the cell that the last move vacated.

use std::collections::VecDeque;
use vstd::prelude::*;

verus! {

/// One of the four grid directions.
#[derive(Clone, Copy, Debug, PartialEq, Eq, Structural)]
pub enum Direction {
    Up,
    Down,
    Left,
    Right,
}

impl Direction {
    /// The direction pointing the other way: `Up` and `Down` swap, `Left` and
    /// `Right` swap.
    pub open spec fn reversed(self) -> Direction {
        match self {
            Direction::Up => Direction::Down,
            Direction::Down => Direction::Up,
            Direction::Left => Direction::Right,
            Direction::Right => Direction::Left,
        }
    }

    /// Returns the direction pointing the other way.
    pub fn opposite(&self) -> (r: Direction)
        ensures
            r == self.reversed(),
    {
        match *self {
            Direction::Up => Direction::Down,
            Direction::Down => Direction::Up,
            Direction::Left => Direction::Right,
            Direction::Right => Direction::Left,
        }
    }
}

/// Reversing a direction twice gives the direction back.
pub proof fn lemma_reversed_involutive(d: Direction)
    ensures
        d.reversed().reversed() == d,
{
}

/// The cell one step away from `p` in direction `d`. `Up` lowers `y`, `Down`
/// raises it, `Left` lowers `x`, `Right` raises it.
pub open spec fn step(p: (int, int), d: Direction) -> (int, int) {
    match d {
        Direction::Up => (p.0, p.1 - 1),
        Direction::Down => (p.0, p.1 + 1),
        Direction::Left => (p.0 - 1, p.1),
        Direction::Right => (p.0 + 1, p.1),
    }
}

/// Whether both coordinates of `p` fit in an `i32`.
pub open spec fn fits_i32(p: (int, int)) -> bool {
    i32::MIN <= p.0 <= i32::MAX && i32::MIN <= p.1 <= i32::MAX
}

/// What a [`Snake`] is, mathematically.
pub struct SnakeView {
    /// The occupied cells, head first.
    pub body: Seq<(int, int)>,
    /// The current heading.
    pub direction: Direction,
    /// The cell that the most recent move vacated, if there was a move.
    pub tail: Option<(int, int)>,
}

impl SnakeView {
    /// The snake as it is created: three cells in a row ending at `(x, y)`,
    /// head at `(x + 2, y)`, heading `Right`, nothing vacated yet.
    pub open spec fn initial(x: int, y: int) -> SnakeView {
        SnakeView {
            body: seq![(x + 2, y), (x + 1, y), (x, y)],
            direction: Direction::Right,
            tail: None,
        }
    }

    /// A snake always has a head.
    pub open spec fn wf(self) -> bool {
        self.body.len() >= 1
    }

    /// The head cell.
    pub open spec fn head(self) -> (int, int) {
        self.body[0]
    }

    /// The heading that a move with the optional override `dir` takes.
    pub open spec fn heading_for(self, dir: Option<Direction>) -> Direction {
        match dir {
            Some(d) => d,
            None => self.direction,
        }
    }

    /// Where the head lands on a move with the optional override `dir`.
    pub open spec fn next_head(self, dir: Option<Direction>) -> (int, int) {
        step(self.head(), self.heading_for(dir))
    }

    /// Whether `p` is one of the occupied cells.
    pub open spec fn occupies(self, p: (int, int)) -> bool {
        self.body.contains(p)
    }

    /// The snake after one move: the new head in front, the last cell gone
    /// and remembered, the heading updated.
    pub open spec fn moved(self, dir: Option<Direction>) -> SnakeView {
        SnakeView {
            body: seq![self.next_head(dir)] + self.body.drop_last(),
            direction: self.heading_for(dir),
            tail: Some(self.body.last()),
        }
    }

    /// The snake after the remembered cell is put back at the end.
    pub open spec fn grown(self) -> SnakeView {
        SnakeView { body: self.body.push(self.tail.unwrap()), ..self }
    }
}

/// One occupied grid cell.
#[derive(Clone, Copy, Debug)]
struct Block {
    x: i32,
    y: i32,
}

impl Block {
    spec fn cell(self) -> (int, int) {
        (self.x as int, self.y as int)
    }
}

/// The snake's body, heading and last vacated cell.
pub struct Snake {
    direction: Direction,
    body: VecDeque<Block>,
    tail: Option<Block>,
}

impl View for Snake {
    type V = SnakeView;

    closed spec fn view(&self) -> SnakeView {
        SnakeView {
            body: self.body@.map_values(|b: Block| b.cell()),
            direction: self.direction,
            tail: match self.tail {
                Some(b) => Some(b.cell()),
                None => None,
            },
        }
    }
}

impl Snake {
    /// A snake of three cells in a row ending at `(x, y)`, head at
    /// `(x + 2, y)`, heading `Right`.
    pub fn new(x: i32, y: i32) -> (s: Snake)
        requires
            x + 2 <= i32::MAX,
        ensures
            s@ == SnakeView::initial(x as int, y as int),
    {
        let mut body: VecDeque<Block> = VecDeque::new();
        body.push_back(Block { x: x + 2, y });
        body.push_back(Block { x: x + 1, y });
        body.push_back(Block { x, y });
        let s = Snake { direction: Direction::Right, body, tail: None };
        assert(s@.body =~= SnakeView::initial(x as int, y as int).body);
        s
    }

    /// The head cell.
    pub fn head_position(&self) -> (p: (i32, i32))
        requires
            self@.wf(),
        ensures
            (p.0 as int, p.1 as int) == self@.head(),
    {
        let head_block = self.body[0];
        (head_block.x, head_block.y)
    }

    /// The current heading.
    pub fn head_direction(&self) -> (d: Direction)
        ensures
            d == self@.direction,
    {
        self.direction
    }

    /// Where the head would land on a move with the optional override `dir`.
    /// Nothing changes.
    pub fn next_head(&self, dir: Option<Direction>) -> (p: (i32, i32))
        requires
            self@.wf(),
            fits_i32(self@.next_head(dir)),
        ensures
            (p.0 as int, p.1 as int) == self@.next_head(dir),
    {
        let (head_x, head_y): (i32, i32) = self.head_position();
        let moving_dir = match dir {
            Some(d) => d,
            None => self.direction,
        };
        match moving_dir {
            Direction::Up => (head_x, head_y - 1),
            Direction::Down => (head_x, head_y + 1),
            Direction::Left => (head_x - 1, head_y),
            Direction::Right => (head_x + 1, head_y),
        }
    }

    /// Moves one cell: takes `dir` as the new heading if one is given, puts
    /// the new head in front, and removes and remembers the last cell.
    pub fn move_forward(&mut self, dir: Option<Direction>)
        requires
            old(self)@.wf(),
            fits_i32(old(self)@.next_head(dir)),
        ensures
            final(self)@ == old(self)@.moved(dir),
            final(self)@.head() == old(self)@.next_head(dir),
            final(self)@.body.len() == old(self)@.body.len(),
            final(self)@.wf(),
    {
        let (new_x, new_y): (i32, i32) = self.next_head(dir);
        if let Some(d) = dir {
            self.direction = d;
        }
        let ghost before = self.body@;
        self.body.push_front(Block { x: new_x, y: new_y });
        let removed_block = self.body.pop_back();
        self.tail = removed_block;
        proof {
            let cell = |b: Block| b.cell();
            assert(self.body@.map_values(cell) =~= seq![(new_x as int, new_y as int)]
                + before.map_values(cell).drop_last());
        }
    }

    /// Puts the remembered cell back at the end of the body, so that the
    /// snake is one cell longer. The cell stays remembered.
    pub fn restore_tail(&mut self)
        requires
            old(self)@.tail.is_some(),
        ensures
            final(self)@ == old(self)@.grown(),
            final(self)@.body.len() == old(self)@.body.len() + 1,
            final(self)@.wf(),
    {
        let ghost before = self.body@;
        let blk = self.tail.unwrap();
        self.body.push_back(blk);
        proof {
            let cell = |b: Block| b.cell();
            assert(self.body@.map_values(cell) =~= before.map_values(cell).push(blk.cell()));
        }
    }

    /// Whether `(x, y)` is one of the occupied cells. The whole body counts,
    /// head and last cell included.
    pub fn overlap_tail(&self, x: i32, y: i32) -> (hit: bool)
        ensures
            hit == self@.occupies((x as int, y as int)),
    {
        let ghost cells = self@.body;
        let n = self.body.len();
        let mut i: usize = 0;
        while i < n
            invariant
                n == self.body@.len(),
                i <= n,
                cells == self@.body,
                forall|j: int| 0 <= j < i ==> cells[j] != (x as int, y as int),
            decreases n - i,
        {
            let block = self.body[i];
            if x == block.x && y == block.y {
                assert(cells[i as int] == (x as int, y as int));
                return true;
            }
            i += 1;
        }
        false
    }

    /// The number of occupied cells.
    pub fn len(&self) -> (n: usize)
        ensures
            n == self@.body.len(),
    {
        self.body.len()
    }

    /// The `i`-th occupied cell, counting from the head.
    pub fn segment(&self, i: usize) -> (p: (i32, i32))
        requires
            i < self@.body.len(),
        ensures
            (p.0 as int, p.1 as int) == self@.body[i as int],
    {
        let block = self.body[i];
        (block.x, block.y)
    }
}

} // verus!
