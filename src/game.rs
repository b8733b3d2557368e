use crate::render::{block, DrawCommand, Paint};
use crate::snake::{opposite_of, snake_blocks, steppable_cell, Direction, Snake, SnakeView};
use rand::Rng;
use vstd::prelude::*;

verus! {

/// Time, in microseconds, between two moves that the timer makes.
pub const MOVING_PERIOD: u64 = 300_000;

/// Random draws made for a free food cell before the grid is searched in order.
pub const FOOD_DRAWS: u32 = 64;

/// A key press, as far as the game tells keys apart.
#[derive(Debug, Clone, Copy, PartialEq, Eq, Structural)]
pub enum Key {
    Up,
    Down,
    Left,
    Right,
    P,
    R,
    Other,
}

/// The heading that an arrow key asks for.
pub open spec fn key_direction(k: Key) -> Option<Direction> {
    match k {
        Key::Up => Some(Direction::Up),
        Key::Down => Some(Direction::Down),
        Key::Left => Some(Direction::Left),
        Key::Right => Some(Direction::Right),
        _ => None,
    }
}

/// What a game is.
pub struct GameView {
    pub snake: SnakeView,
    pub food_exists: bool,
    pub food: (i32, i32),
    pub width: i32,
    pub height: i32,
    pub paused: bool,
    pub over: bool,
    pub waiting: u64,
}

/// `(x, y)` lies inside the one-cell border of a `width` by `height` grid.
pub open spec fn interior(width: i32, height: i32, x: int, y: int) -> bool {
    0 < x < width - 1 && 0 < y < height - 1
}

impl GameView {
    /// The game as it starts: the snake from `(2, 2)` to `(4, 2)`, food at `(6, 4)`.
    pub open spec fn initial(width: i32, height: i32) -> GameView {
        GameView {
            snake: SnakeView::initial(2, 2),
            food_exists: true,
            food: (6, 4),
            width,
            height,
            paused: false,
            over: false,
            waiting: 0,
        }
    }

    /// The state every game keeps: a non-empty body, a head that can step,
    /// a grid size that can lose one, and a timer below the period.
    pub open spec fn wf(self) -> bool {
        &&& self.snake.body.len() > 0
        &&& steppable_cell(self.snake.head())
        &&& self.width > i32::MIN
        &&& self.height > i32::MIN
        &&& self.waiting < MOVING_PERIOD
    }

    /// A move in `dir` would neither hit the body nor reach the border.
    pub open spec fn survives(self, dir: Option<Direction>) -> bool {
        let n = self.snake.next_cell(dir);
        !self.snake.occupies(n.0, n.1) && interior(self.width, self.height, n.0, n.1)
    }

    /// One movement step in `dir`: nothing while paused; else the snake moves
    /// and eats what lies on its new head, or the game is over; the timer restarts.
    pub open spec fn step(self, dir: Option<Direction>) -> GameView {
        if self.paused {
            self
        } else if self.survives(dir) {
            let s = self.snake.moved(dir);
            if self.food_exists && s.head() == self.food {
                GameView { snake: s.grown(), food_exists: false, waiting: 0, ..self }
            } else {
                GameView { snake: s, waiting: 0, ..self }
            }
        } else {
            GameView { over: true, waiting: 0, ..self }
        }
    }

    /// The timer gains `dt`; on reaching the period the snake steps ahead.
    pub open spec fn tick(self, dt: u64) -> GameView {
        if self.paused || self.over {
            self
        } else if dt >= MOVING_PERIOD - self.waiting {
            self.step(None)
        } else {
            GameView { waiting: (self.waiting + dt) as u64, ..self }
        }
    }

    /// `food` is a right outcome of placing food: a free interior cell, or
    /// `None` when every interior cell is taken by the snake.
    pub open spec fn food_choice(self, food: Option<(i32, i32)>) -> bool {
        match food {
            Some(c) => interior(self.width, self.height, c.0 as int, c.1 as int)
                && !self.snake.occupies(c.0 as int, c.1 as int),
            None => forall|x: int, y: int|
                interior(self.width, self.height, x, y) ==> #[trigger] self.snake.occupies(x, y),
        }
    }

    /// The game with food placed on `food`, or still without food on `None`.
    pub open spec fn with_food(self, food: Option<(i32, i32)>) -> GameView {
        match food {
            Some(c) => GameView { food_exists: true, food: c, ..self },
            None => self,
        }
    }

    /// What a key press does: R restarts; once over, nothing else counts;
    /// P toggles the pause; an arrow that does not turn the snake around
    /// makes a step that way; any other key does nothing.
    pub open spec fn press(self, key: Key) -> GameView {
        if key == Key::R {
            GameView::initial(self.width, self.height)
        } else if self.over {
            self
        } else if key == Key::P {
            GameView { paused: !self.paused, ..self }
        } else {
            match key_direction(key) {
                Some(d) => if d == opposite_of(self.snake.direction) {
                    self
                } else {
                    self.step(Some(d))
                },
                None => self,
            }
        }
    }
}

/// What a frame shows of game `g`: the snake, the food if any, the four
/// border strips, and a cover over the whole grid once the game is over.
pub open spec fn frame(g: GameView) -> Seq<DrawCommand> {
    snake_blocks(g.snake.body)
        + (if g.food_exists { seq![block(Paint::Food, g.food)] } else { Seq::empty() })
        + seq![
            DrawCommand { paint: Paint::TopBorder, x: 0, y: 0, width: g.width, height: 1 },
            DrawCommand { paint: Paint::BottomBorder, x: 0, y: (g.height - 1) as i32, width: g.width, height: 1 },
            DrawCommand { paint: Paint::LeftBorder, x: 0, y: 0, width: 1, height: g.height },
            DrawCommand { paint: Paint::RightBorder, x: (g.width - 1) as i32, y: 0, width: 1, height: g.height },
        ]
        + (if g.over {
            seq![DrawCommand { paint: Paint::GameOver, x: 0, y: 0, width: g.width, height: g.height }]
        } else {
            Seq::empty()
        })
}

/// A step of a running game is fatal exactly when the head's next cell is a
/// cell of the body, or has x at most 0 or at least `width - 1`, or y at
/// most 0 or at least `height - 1`; a fatal step moves nothing.
pub proof fn lemma_collision_rule(g: GameView, dir: Option<Direction>)
    requires
        g.wf(),
        !g.paused,
        !g.over,
    ensures
        g.step(dir).over <==> ({
            let n = g.snake.next_cell(dir);
            g.snake.occupies(n.0, n.1) || n.0 <= 0 || n.0 >= g.width - 1 || n.1 <= 0 || n.1
                >= g.height - 1
        }),
        g.step(dir).over ==> g.step(dir).snake == g.snake,
{
}

/// A step that lands the head on the food eats it: the food is gone and the
/// body is one cell longer. Any other step leaves the food as it was and
/// keeps the body's length.
pub proof fn lemma_eating_rule(g: GameView, dir: Option<Direction>)
    requires
        g.wf(),
        !g.paused,
        !g.over,
        g.survives(dir),
    ensures
        ({
            let n = g.snake.next_cell(dir);
            if g.food_exists && n == (g.food.0 as int, g.food.1 as int) {
                &&& !g.step(dir).food_exists
                &&& g.step(dir).snake.body.len() == g.snake.body.len() + 1
            } else {
                &&& g.step(dir).food_exists == g.food_exists
                &&& g.step(dir).food == g.food
                &&& g.step(dir).snake.body.len() == g.snake.body.len()
            }
        }),
{
    let n = g.snake.next_cell(dir);
    let s = g.snake.moved(dir);
    assert(s.head() == (n.0 as i32, n.1 as i32));
}

/// Relies on rand's `thread_rng().gen_range(lo..hi)`: a value in `lo..hi`.
#[verifier::external_body]
fn random_in(lo: i32, hi: i32) -> (r: i32)
    requires
        lo < hi,
    ensures
        lo <= r < hi,
{
    rand::thread_rng().gen_range(lo..hi)
}

/// The game: a snake on a grid with a one-cell lethal border, food, a pause
/// flag, a game-over flag and the time since the last move.
#[derive(Debug, Clone, PartialEq, Eq)]
pub struct Game {
    snake: Snake,
    food_exists: bool,
    food_x: i32,
    food_y: i32,
    width: i32,
    height: i32,
    game_pause: bool,
    game_over: bool,
    waiting_time: u64,
}

impl View for Game {
    type V = GameView;

    closed spec fn view(&self) -> GameView {
        GameView {
            snake: self.snake@,
            food_exists: self.food_exists,
            food: (self.food_x, self.food_y),
            width: self.width,
            height: self.height,
            paused: self.game_pause,
            over: self.game_over,
            waiting: self.waiting_time,
        }
    }
}

impl Game {
    pub fn new(width: i32, height: i32) -> (r: Game)
        requires
            width > i32::MIN,
            height > i32::MIN,
        ensures
            r@ == GameView::initial(width, height),
            r@.wf(),
    {
        Game {
            snake: Snake::new(2, 2),
            food_exists: true,
            food_x: 6,
            food_y: 4,
            width,
            height,
            game_pause: false,
            game_over: false,
            waiting_time: 0,
        }
    }

    /// Whether a move in `dir` keeps the snake alive.
    fn check_if_snake_alive(&self, dir: Option<Direction>) -> (r: bool)
        requires
            self@.wf(),
        ensures
            r == self@.survives(dir),
    {
        let (next_x, next_y) = self.snake.next_head(dir);
        if self.snake.over_tail(next_x, next_y) {
            return false;
        }
        next_x > 0 && next_y > 0 && next_x < self.width - 1 && next_y < self.height - 1
    }

    /// Eats the food if the head is on it.
    fn check_eating(&mut self)
        requires
            old(self)@.snake.body.len() > 0,
            old(self)@.snake.tail is Some,
        ensures
            final(self)@ == (if old(self)@.food_exists && old(self)@.snake.head() == old(self)@.food {
                GameView { snake: old(self)@.snake.grown(), food_exists: false, ..old(self)@ }
            } else {
                old(self)@
            }),
    {
        let (head_x, head_y) = self.snake.head_position();
        if self.food_exists && self.food_x == head_x && self.food_y == head_y {
            self.food_exists = false;
            self.snake.restore_tail();
        }
    }

    /// One movement step in `dir` (see `GameView::step`).
    fn update_snake(&mut self, dir: Option<Direction>)
        requires
            old(self)@.wf(),
        ensures
            final(self)@ == old(self)@.step(dir),
            final(self)@.wf(),
    {
        if self.game_pause {
            return;
        }
        if self.check_if_snake_alive(dir) {
            self.snake.move_forward(dir);
            self.check_eating();
        } else {
            self.game_over = true;
        }
        self.waiting_time = 0;
    }
    /// Starts over: a new snake, food back at `(6, 4)`, both flags cleared,
    /// the timer at zero; the grid keeps its size.
    fn restart(&mut self)
        requires
            old(self)@.wf(),
        ensures
            final(self)@ == GameView::initial(old(self)@.width, old(self)@.height),
            final(self)@.wf(),
    {
        self.snake = Snake::new(2, 2);
        self.waiting_time = 0;
        self.food_exists = true;
        self.food_x = 6;
        self.food_y = 4;
        self.game_over = false;
        self.game_pause = false;
    }

    /// Handles one key press (see `GameView::press`).
    pub fn key_pressed(&mut self, key: Key)
        requires
            old(self)@.wf(),
        ensures
            final(self)@ == old(self)@.press(key),
            final(self)@.wf(),
            // an arrow that would turn the snake around changes nothing
            !old(self)@.over && key_direction(key) == Some(opposite_of(old(self)@.snake.direction))
                ==> final(self)@ == old(self)@,
    {
        if key == Key::R {
            self.restart();
            return;
        }
        if self.game_over {
            return;
        }
        let dir = match key {
            Key::Up => Some(Direction::Up),
            Key::Down => Some(Direction::Down),
            Key::Left => Some(Direction::Left),
            Key::Right => Some(Direction::Right),
            Key::P => {
                self.game_pause = !self.game_pause;
                None
            },
            _ => None,
        };
        if let Some(d) = dir {
            if d == self.snake.head_direction().opposite() {
                return;
            }
            self.update_snake(dir);
        }
    }

    /// Lets `dt` microseconds pass: unless paused or over, the timer gains
    /// `dt`, and once it reaches the moving period the snake steps ahead in
    /// its heading and the timer restarts.
    pub fn tick(&mut self, dt: u64)
        requires
            old(self)@.wf(),
        ensures
            final(self)@ == old(self)@.tick(dt),
            final(self)@.wf(),
    {
        if self.game_pause || self.game_over {
            return;
        }
        if dt >= MOVING_PERIOD - self.waiting_time {
            self.update_snake(None);
        } else {
            self.waiting_time = self.waiting_time + dt;
        }
    }
    /// The first free interior cell, column by column, or `None` when the
    /// snake covers the whole interior.
    fn free_cell(&self) -> (r: Option<(i32, i32)>)
        requires
            self@.wf(),
        ensures
            self@.food_choice(r),
    {
        let mut x: i32 = 1;
        while x < self.width - 1
            invariant
                self@.wf(),
                1 <= x,
                forall|a: int, b: int|
                    interior(self@.width, self@.height, a, b) && a < x ==> #[trigger] self@.snake.occupies(a, b),
            decreases self.width - x,
        {
            let mut y: i32 = 1;
            while y < self.height - 1
                invariant
                    self@.wf(),
                    1 <= x < self@.width - 1,
                    1 <= y,
                    forall|a: int, b: int|
                        interior(self@.width, self@.height, a, b) && a < x ==> #[trigger] self@.snake.occupies(a, b),
                    forall|b: int| 0 < b < y ==> #[trigger] self@.snake.occupies(x as int, b),
                decreases self.height - y,
            {
                if !self.snake.over_tail(x, y) {
                    return Some((x, y));
                }
                y += 1;
            }
            assert forall|a: int, b: int|
                interior(self@.width, self@.height, a, b) && a < x + 1 implies #[trigger] self@.snake.occupies(a, b) by {
                if a == x {
                    assert(0 < b < y);
                }
            }
            x += 1;
        }
        None
    }

    /// Places food on a free interior cell: a few uniform random draws and,
    /// should every draw land on the snake, the first free cell in order.
    /// Where the snake covers the whole interior the game stays without food.
    fn add_food(&mut self)
        requires
            old(self)@.wf(),
        ensures
            exists|c: Option<(i32, i32)>|
                #[trigger] old(self)@.food_choice(c) && final(self)@ == old(self)@.with_food(c),
    {
        if self.width > 2 && self.height > 2 {
            let mut draws: u32 = 0;
            while draws < FOOD_DRAWS
                invariant
                    self@ == old(self)@,
                    self@.wf(),
                    self.width > 2 && self.height > 2,
                decreases FOOD_DRAWS - draws,
            {
                let x = random_in(1, self.width - 1);
                let y = random_in(1, self.height - 1);
                if !self.snake.over_tail(x, y) {
                    self.food_x = x;
                    self.food_y = y;
                    self.food_exists = true;
                    assert(old(self)@.food_choice(Some((x, y))));
                    assert(self@ == old(self)@.with_food(Some((x, y))));
                    return;
                }
                draws += 1;
            }
        }
        let found = self.free_cell();
        match found {
            Some(c) => {
                self.food_x = c.0;
                self.food_y = c.1;
                self.food_exists = true;
            },
            None => {},
        }
        assert(old(self)@.food_choice(found));
        assert(self@ == old(self)@.with_food(found));
    }

    /// Advances the game by `dt` microseconds. Unless paused or over, food is
    /// first placed where there is none, on a free interior cell chosen at
    /// random, and then the timer runs (see `GameView::tick`).
    pub fn update(&mut self, dt: u64)
        requires
            old(self)@.wf(),
        ensures
            final(self)@.wf(),
            old(self)@.paused || old(self)@.over ==> final(self)@ == old(self)@,
            !old(self)@.paused && !old(self)@.over && old(self)@.food_exists
                ==> final(self)@ == old(self)@.tick(dt),
            !old(self)@.paused && !old(self)@.over && !old(self)@.food_exists
                ==> exists|c: Option<(i32, i32)>|
                #[trigger] old(self)@.food_choice(c) && final(self)@ == old(self)@.with_food(c).tick(dt),
    {
        if self.game_pause || self.game_over {
            return;
        }
        if !self.food_exists {
            self.add_food();
        }
        self.tick(dt);
    }
    /// The shapes of one frame (see `frame`).
    pub fn draw(&self) -> (r: Vec<DrawCommand>)
        requires
            self@.wf(),
        ensures
            r@ == frame(self@),
    {
        let mut r = self.snake.draw();
        if self.food_exists {
            r.push(DrawCommand { paint: Paint::Food, x: self.food_x, y: self.food_y, width: 1, height: 1 });
        }
        r.push(DrawCommand { paint: Paint::TopBorder, x: 0, y: 0, width: self.width, height: 1 });
        r.push(
            DrawCommand { paint: Paint::BottomBorder, x: 0, y: self.height - 1, width: self.width, height: 1 },
        );
        r.push(DrawCommand { paint: Paint::LeftBorder, x: 0, y: 0, width: 1, height: self.height });
        r.push(
            DrawCommand { paint: Paint::RightBorder, x: self.width - 1, y: 0, width: 1, height: self.height },
        );
        if self.game_over {
            r.push(DrawCommand { paint: Paint::GameOver, x: 0, y: 0, width: self.width, height: self.height });
        }
        assert(r@ =~= frame(self@));
        r
    }
    pub fn snake(&self) -> (r: &Snake)
        ensures
            r@ == self@.snake,
    {
        &self.snake
    }

    /// Where the food lies, when there is food.
    pub fn food(&self) -> (r: Option<(i32, i32)>)
        ensures
            r == (if self@.food_exists { Some(self@.food) } else { None }),
    {
        if self.food_exists {
            Some((self.food_x, self.food_y))
        } else {
            None
        }
    }

    pub fn width(&self) -> (r: i32)
        ensures
            r == self@.width,
    {
        self.width
    }

    pub fn height(&self) -> (r: i32)
        ensures
            r == self@.height,
    {
        self.height
    }

    pub fn is_paused(&self) -> (r: bool)
        ensures
            r == self@.paused,
    {
        self.game_pause
    }

    pub fn is_over(&self) -> (r: bool)
        ensures
            r == self@.over,
    {
        self.game_over
    }

    /// Microseconds gathered since the last move.
    pub fn waiting_time(&self) -> (r: u64)
        ensures
            r == self@.waiting,
    {
        self.waiting_time
    }
}

} // verus!
