use std::collections::VecDeque;
use crate::render::{block, DrawCommand, Paint};
use vstd::prelude::*;

verus! {

/// A heading on the grid.
#[derive(Debug, Clone, Copy, PartialEq, Eq, Structural)]
pub enum Direction {
    Up,
    Down,
    Left,
    Right,
}

/// The heading that points the other way.
pub open spec fn opposite_of(d: Direction) -> Direction {
    match d {
        Direction::Up => Direction::Down,
        Direction::Down => Direction::Up,
        Direction::Left => Direction::Right,
        Direction::Right => Direction::Left,
    }
}

/// The cell one step from `c` in direction `d` (y grows downwards).
pub open spec fn step_from(c: (i32, i32), d: Direction) -> (int, int) {
    match d {
        Direction::Up => (c.0 as int, c.1 - 1),
        Direction::Down => (c.0 as int, c.1 + 1),
        Direction::Left => (c.0 - 1, c.1 as int),
        Direction::Right => (c.0 + 1, c.1 as int),
    }
}

/// A cell from which a step in any direction stays within `i32`.
pub open spec fn steppable_cell(c: (i32, i32)) -> bool {
    i32::MIN < c.0 < i32::MAX && i32::MIN < c.1 < i32::MAX
}

impl Direction {
    pub fn opposite(&self) -> (r: Direction)
        ensures
            r == opposite_of(*self),
    {
        match *self {
            Direction::Up => Direction::Down,
            Direction::Down => Direction::Up,
            Direction::Left => Direction::Right,
            Direction::Right => Direction::Left,
        }
    }
}

/// Turning around twice gives back the heading one started with.
pub proof fn lemma_opposite_involutive(d: Direction)
    ensures
        opposite_of(opposite_of(d)) == d,
{
}

/// What a snake is: its cells from head to tail, its heading, and the cell
/// that the last move dropped from the tail, if any.
pub struct SnakeView {
    pub body: Seq<(i32, i32)>,
    pub direction: Direction,
    pub tail: Option<(i32, i32)>,
}

impl SnakeView {
    /// Three cells in a row ending at `(x, y)`, head on the right, facing right.
    pub open spec fn initial(x: i32, y: i32) -> SnakeView {
        SnakeView {
            body: seq![((x + 2) as i32, y), ((x + 1) as i32, y), (x, y)],
            direction: Direction::Right,
            tail: None,
        }
    }

    pub open spec fn head(self) -> (i32, i32) {
        self.body[0]
    }

    /// The heading of a move: the given one, else the current one.
    pub open spec fn heading(self, dir: Option<Direction>) -> Direction {
        match dir {
            Some(d) => d,
            None => self.direction,
        }
    }

    /// The cell the head would enter on a move in `dir`.
    pub open spec fn next_cell(self, dir: Option<Direction>) -> (int, int) {
        step_from(self.head(), self.heading(dir))
    }

    /// Some cell of the body, head included, is `(x, y)`.
    pub open spec fn occupies(self, x: int, y: int) -> bool {
        exists|i: int| 0 <= i < self.body.len() && #[trigger] self.body[i].0 == x && self.body[i].1 == y
    }

    /// The head's next cell leads the body and the last cell is dropped and kept.
    pub open spec fn moved(self, dir: Option<Direction>) -> SnakeView {
        let n = self.next_cell(dir);
        SnakeView {
            body: seq![(n.0 as i32, n.1 as i32)] + self.body.drop_last(),
            direction: self.heading(dir),
            tail: Some(self.body.last()),
        }
    }

    /// The dropped cell is put back at the end of the body.
    pub open spec fn grown(self) -> SnakeView {
        SnakeView { body: self.body.push(self.tail.unwrap()), ..self }
    }
}

/// A snake on the grid. Its body is never empty; the head is its first cell.
#[derive(Debug, Clone, PartialEq, Eq)]
pub struct Snake {
    direction: Direction,
    body: VecDeque<(i32, i32)>,
    tail: Option<(i32, i32)>,
}

impl View for Snake {
    type V = SnakeView;

    closed spec fn view(&self) -> SnakeView {
        SnakeView { body: self.body@, direction: self.direction, tail: self.tail }
    }
}

impl Snake {
    pub fn new(x: i32, y: i32) -> (r: Snake)
        requires
            x <= i32::MAX - 2,
        ensures
            r@ == SnakeView::initial(x, y),
            r@.body.len() == 3,
            r@.head() == ((x + 2) as i32, y),
            r@.direction == Direction::Right,
    {
        let mut body: VecDeque<(i32, i32)> = VecDeque::new();
        body.push_back((x + 2, y));
        body.push_back((x + 1, y));
        body.push_back((x, y));
        let r = Snake { direction: Direction::Right, body, tail: None };
        assert(r@.body =~= SnakeView::initial(x, y).body);
        r
    }

    pub fn head_position(&self) -> (r: (i32, i32))
        requires
            self@.body.len() > 0,
        ensures
            r == self@.head(),
    {
        self.body[0]
    }

    pub fn head_direction(&self) -> (r: Direction)
        ensures
            r == self@.direction,
    {
        self.direction
    }

    /// The cell the head would enter on a move in `dir` (the current heading
    /// when `dir` is `None`); the snake is left as it is.
    pub fn next_head(&self, dir: Option<Direction>) -> (r: (i32, i32))
        requires
            self@.body.len() > 0,
            steppable_cell(self@.head()),
        ensures
            r.0 == self@.next_cell(dir).0,
            r.1 == self@.next_cell(dir).1,
    {
        let (head_x, head_y) = self.head_position();
        let moving_dir = match dir {
            Some(d) => d,
            None => self.direction,
        };
        match moving_dir {
            Direction::Up => (head_x, head_y - 1),
            Direction::Down => (head_x, head_y + 1),
            Direction::Left => (head_x - 1, head_y),
            Direction::Right => (head_x + 1, head_y),
        }
    }

    /// Whether `(x, y)` is a cell of the body, head included.
    pub fn over_tail(&self, x: i32, y: i32) -> (r: bool)
        ensures
            r == self@.occupies(x as int, y as int),
    {
        let n = self.body.len();
        let mut i: usize = 0;
        while i < n
            invariant
                n == self@.body.len(),
                i <= n,
                forall|j: int| 0 <= j < i ==> !(#[trigger] self@.body[j].0 == x && self@.body[j].1 == y),
            decreases n - i,
        {
            let c = self.body[i];
            if c.0 == x && c.1 == y {
                return true;
            }
            i += 1;
        }
        false
    }

    /// Moves one step: `dir`, if given, becomes the heading; the next cell is
    /// pushed at the head and the last cell is dropped and kept.
    pub fn move_forward(&mut self, dir: Option<Direction>)
        requires
            old(self)@.body.len() > 0,
            steppable_cell(old(self)@.head()),
        ensures
            final(self)@ == old(self)@.moved(dir),
            final(self)@.body.len() == old(self)@.body.len(),
    {
        let (x, y) = self.next_head(dir);
        match dir {
            Some(d) => self.direction = d,
            None => {},
        }
        self.body.push_front((x, y));
        let removed = self.body.pop_back();
        self.tail = removed;
        assert(self@.body =~= old(self)@.moved(dir).body);
    }

    /// Puts the cell that the last move dropped back at the end of the body.
    pub fn restore_tail(&mut self)
        requires
            old(self)@.tail is Some,
        ensures
            final(self)@ == old(self)@.grown(),
            final(self)@.body.len() == old(self)@.body.len() + 1,
    {
        match self.tail {
            Some(blk) => self.body.push_back(blk),
            None => {},
        }
    }
}


/// The cells of `body` as blocks, the first one as the head.
pub open spec fn snake_blocks(body: Seq<(i32, i32)>) -> Seq<DrawCommand> {
    Seq::new(body.len(), |i: int| block(if i == 0 { Paint::Head } else { Paint::Body }, body[i]))
}

impl Snake {
    /// One block per cell, from head to tail.
    pub fn draw(&self) -> (r: Vec<DrawCommand>)
        ensures
            r@ == snake_blocks(self@.body),
    {
        let n = self.body.len();
        let mut r: Vec<DrawCommand> = Vec::new();
        let mut i: usize = 0;
        while i < n
            invariant
                n == self@.body.len(),
                i <= n,
                r@ =~= snake_blocks(self@.body).subrange(0, i as int),
            decreases n - i,
        {
            let c = self.body[i];
            let paint = if i == 0 { Paint::Head } else { Paint::Body };
            r.push(DrawCommand { paint, x: c.0, y: c.1, width: 1, height: 1 });
            i += 1;
        }
        assert(r@ =~= snake_blocks(self@.body));
        r
    }
    pub fn len(&self) -> (r: usize)
        ensures
            r == self@.body.len(),
    {
        self.body.len()
    }

    /// The cells of the body, head first.
    pub fn cells(&self) -> (r: Vec<(i32, i32)>)
        ensures
            r@ == self@.body,
    {
        let n = self.body.len();
        let mut r: Vec<(i32, i32)> = Vec::new();
        let mut i: usize = 0;
        while i < n
            invariant
                n == self@.body.len(),
                i <= n,
                r@ =~= self@.body.subrange(0, i as int),
            decreases n - i,
        {
            r.push(self.body[i]);
            i += 1;
        }
        assert(r@ =~= self@.body);
        r
    }
}

} // verus!
