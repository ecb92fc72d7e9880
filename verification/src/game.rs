//! The snake simulation: the grid, the snake, and one tick of movement,
//! growth, and collision checking.
use vstd::prelude::*;

verus! {

/// Side of one grid cell, in pixels.
pub const TILE_SIZE: u32 = 20;
/// Width of the window, in pixels.
pub const WINDOW_WIDTH: u32 = 640;
/// Height of the window, in pixels.
pub const WINDOW_HEIGHT: u32 = 480;
/// Number of grid cells across.
pub const GRID_WIDTH: u32 = WINDOW_WIDTH / TILE_SIZE;
/// Number of grid cells down.
pub const GRID_HEIGHT: u32 = WINDOW_HEIGHT / TILE_SIZE;

/// The snake's current direction of travel.
#[derive(Clone, Copy, PartialEq, Eq, Structural, Debug)]
pub enum Direction {
    Up,
    Down,
    Left,
    Right,
}

/// Horizontal component of the unit displacement for a heading.
pub open spec fn dir_dx(d: Direction) -> int {
    match d {
        Direction::Up => 0,
        Direction::Down => 0,
        Direction::Left => -1,
        Direction::Right => 1,
    }
}

/// Vertical component of the unit displacement for a heading.
pub open spec fn dir_dy(d: Direction) -> int {
    match d {
        Direction::Up => -1,
        Direction::Down => 1,
        Direction::Left => 0,
        Direction::Right => 0,
    }
}

impl Direction {
    /// The unit displacement vector of this heading: the one place where the
    /// heading-to-vector mapping is written down.
    pub fn delta(&self) -> (d: (i32, i32))
        ensures
            d.0 as int == dir_dx(*self),
            d.1 as int == dir_dy(*self),
    {
        match self {
            Direction::Up => (0, -1),
            Direction::Down => (0, 1),
            Direction::Left => (-1, 0),
            Direction::Right => (1, 0),
        }
    }
}

/// Mathematical model of a snake: its cells, head first, and its heading.
#[verifier::ext_equal]
pub struct SnakeView {
    pub body: Seq<(i32, i32)>,
    pub direction: Direction,
}

/// The snake: an ordered list of grid cells, head at index 0, plus the
/// current heading.
pub struct Snake {
    pub body: Vec<(i32, i32)>,
    pub direction: Direction,
}

impl View for Snake {
    type V = SnakeView;

    open spec fn view(&self) -> SnakeView {
        SnakeView { body: self.body@, direction: self.direction }
    }
}

/// The cell the head moves onto next: the head displaced one cell along the
/// heading.
pub open spec fn next_head(s: SnakeView) -> (i32, i32)
    recommends
        s.body.len() >= 1,
{
    (
        (s.body[0].0 as int + dir_dx(s.direction)) as i32,
        (s.body[0].1 as int + dir_dy(s.direction)) as i32,
    )
}

/// The head's displacement stays inside `i32`.
pub open spec fn head_step_fits(s: SnakeView) -> bool {
    &&& s.body.len() >= 1
    &&& i32::MIN <= s.body[0].0 as int + dir_dx(s.direction) <= i32::MAX
    &&& i32::MIN <= s.body[0].1 as int + dir_dy(s.direction) <= i32::MAX
}

/// The snake after an ordinary move: new head in front, tail cell gone,
/// length unchanged.
pub open spec fn moved(s: SnakeView) -> SnakeView
    recommends
        s.body.len() >= 1,
{
    SnakeView { body: seq![next_head(s)] + s.body.drop_last(), direction: s.direction }
}

/// The snake after growing: new head in front, tail kept, length one more.
pub open spec fn grown(s: SnakeView) -> SnakeView
    recommends
        s.body.len() >= 1,
{
    SnakeView { body: seq![next_head(s)] + s.body, direction: s.direction }
}

impl Snake {
    /// Advance one cell along the heading: insert the new head and drop the
    /// tail, leaving the length unchanged.
    pub fn move_forward(&mut self)
        requires
            head_step_fits(old(self)@),
        ensures
            final(self)@ == moved(old(self)@),
    {
        let (dx, dy): (i32, i32) = self.direction.delta();
        let head: (i32, i32) = self.body[0];
        self.body.insert(0, (head.0 + dx, head.1 + dy));
        self.body.pop();
        proof {
            assert(self@.body =~= moved(old(self)@).body);
        }
    }

    /// Advance one cell along the heading without dropping the tail: the
    /// snake gets one cell longer.
    pub fn grow(&mut self)
        requires
            head_step_fits(old(self)@),
        ensures
            final(self)@ == grown(old(self)@),
    {
        let (dx, dy): (i32, i32) = self.direction.delta();
        let head: (i32, i32) = self.body[0];
        self.body.insert(0, (head.0 + dx, head.1 + dy));
        proof {
            assert(self@.body =~= grown(old(self)@).body);
        }
    }
}

/// A cell lies on the playing field.
pub open spec fn in_grid(c: (i32, i32)) -> bool {
    &&& 0 <= c.0 as int
    &&& (c.0 as int) < GRID_WIDTH as int
    &&& 0 <= c.1 as int
    &&& (c.1 as int) < GRID_HEIGHT as int
}

/// The head occupies the same cell as some later body cell.
pub open spec fn self_hit(body: Seq<(i32, i32)>) -> bool {
    exists|i: int| 1 <= i < body.len() && #[trigger] body[i] == body[0]
}

/// Where the food lands for the random draws `rx`, `ry`: each coordinate
/// reduced modulo the grid size, so the cell is always on the field.
pub open spec fn food_cell(rx: u32, ry: u32) -> (i32, i32) {
    (
        ((rx as int % (GRID_WIDTH as int)) as i32),
        ((ry as int % (GRID_HEIGHT as int)) as i32),
    )
}

/// Whether a cell lies on the playing field; the wall check tests its
/// negation on the cell the head has just moved onto.
pub fn cell_in_grid(c: (i32, i32)) -> (r: bool)
    ensures
        r == in_grid(c),
{
    c.0 >= 0 && c.1 >= 0 && c.0 < (GRID_WIDTH as i32) && c.1 < (GRID_HEIGHT as i32)
}

/// The executable food relocation for two random draws.
pub fn place_food(rx: u32, ry: u32) -> (c: (i32, i32))
    ensures
        c == food_cell(rx, ry),
        in_grid(c),
{
    ((rx % GRID_WIDTH) as i32, (ry % GRID_HEIGHT) as i32)
}

impl Snake {
    /// Whether the head occupies the same cell as any later body cell.
    pub fn self_collides(&self) -> (r: bool)
        requires
            self@.body.len() >= 1,
        ensures
            r == self_hit(self@.body),
    {
        let head: (i32, i32) = self.body[0];
        let n: usize = self.body.len();
        let mut i: usize = 1;
        while i < n
            invariant
                1 <= i <= n,
                n == self@.body.len(),
                head == self@.body[0],
                forall|j: int| 1 <= j < i ==> #[trigger] self@.body[j] != self@.body[0],
            decreases n - i,
        {
            if self.body[i].0 == head.0 && self.body[i].1 == head.1 {
                return true;
            }
            i = i + 1;
        }
        false
    }
}

/// Mathematical model of one game state: the snake and the food cell.
#[verifier::ext_equal]
pub struct GameView {
    pub snake: SnakeView,
    pub food: (i32, i32),
}

/// Whether the loop goes on after a tick or the game is over.
#[derive(Clone, Copy, PartialEq, Eq, Structural, Debug)]
pub enum TickOutcome {
    Running,
    Terminated,
}

/// The whole simulation state: the snake and the current food cell.
pub struct GameState {
    pub snake: Snake,
    pub food: (i32, i32),
}

impl View for GameState {
    type V = GameView;

    open spec fn view(&self) -> GameView {
        GameView { snake: self.snake@, food: self.food }
    }
}

/// The state invariant: the snake is never empty, every snake cell is on
/// the field, and so is the food.
pub open spec fn view_wf(v: GameView) -> bool {
    &&& v.snake.body.len() >= 1
    &&& forall|i: int| 0 <= i < v.snake.body.len() ==> in_grid(#[trigger] v.snake.body[i])
    &&& in_grid(v.food)
}

/// One tick of the simulation, as a function of the state and the two
/// random draws used if the food is eaten:
/// the snake advances one cell (growing when the new head lands on the
/// food), the game ends when the new head leaves the field or meets the
/// body, and the food is relocated on an eating tick that does not end
/// the game.
pub open spec fn tick_spec(v: GameView, rx: u32, ry: u32) -> (GameView, TickOutcome)
    recommends
        view_wf(v),
{
    let nh = next_head(v.snake);
    let ate = nh == v.food;
    let s2 = if ate { grown(v.snake) } else { moved(v.snake) };
    let over = !in_grid(nh) || self_hit(s2.body);
    let food2 = if ate && !over { food_cell(rx, ry) } else { v.food };
    (
        GameView { snake: s2, food: food2 },
        if over { TickOutcome::Terminated } else { TickOutcome::Running },
    )
}

impl GameState {
    /// The state invariant, on this state's model.
    pub open spec fn wf(&self) -> bool {
        view_wf(self@)
    }

    /// The initial state: three vertically stacked cells heading up, food
    /// at a fixed cell.
    pub fn new() -> (st: GameState)
        ensures
            st@.snake.body == seq![(10i32, 10i32), (10i32, 11i32), (10i32, 12i32)],
            st@.snake.direction == Direction::Up,
            st@.food == (15i32, 15i32),
            st.wf(),
    {
        let body: Vec<(i32, i32)> = vec![(10, 10), (10, 11), (10, 12)];
        let st = GameState { snake: Snake { body, direction: Direction::Up }, food: (15, 15) };
        proof {
            assert(st@.snake.body =~= seq![(10i32, 10i32), (10i32, 11i32), (10i32, 12i32)]);
            assert forall|i: int| 0 <= i < st@.snake.body.len() implies in_grid(
                #[trigger] st@.snake.body[i],
            ) by {
                assert(st@.snake.body.len() == 3);
            }
        }
        st
    }

    /// Runtime check of the state invariant, for callers outside the
    /// verified world.
    pub fn is_well_formed(&self) -> (r: bool)
        ensures
            r == self.wf(),
    {
        if self.snake.body.len() == 0 {
            return false;
        }
        if !cell_in_grid(self.food) {
            return false;
        }
        let n: usize = self.snake.body.len();
        let mut i: usize = 0;
        while i < n
            invariant
                0 <= i <= n,
                n == self@.snake.body.len(),
                forall|j: int| 0 <= j < i ==> in_grid(#[trigger] self@.snake.body[j]),
                in_grid(self@.food),
            decreases n - i,
        {
            let c: (i32, i32) = self.snake.body[i];
            if !cell_in_grid(c) {
                return false;
            }
            i = i + 1;
        }
        true
    }

    /// One simulation tick with the two random draws passed in; the state
    /// and the outcome are exactly what `tick_spec` says of them.
    pub fn tick_with(&mut self, rx: u32, ry: u32) -> (outcome: TickOutcome)
        requires
            old(self).wf(),
        ensures
            final(self)@ == tick_spec(old(self)@, rx, ry).0,
            outcome == tick_spec(old(self)@, rx, ry).1,
            outcome == TickOutcome::Running ==> final(self).wf(),
    {
        proof {
            assert(in_grid(old(self)@.snake.body[0]));
        }
        let (dx, dy): (i32, i32) = self.snake.direction.delta();
        let head: (i32, i32) = self.snake.body[0];
        let nh: (i32, i32) = (head.0 + dx, head.1 + dy);
        let ate: bool = nh.0 == self.food.0 && nh.1 == self.food.1;
        if ate {
            self.snake.grow();
        } else {
            self.snake.move_forward();
        }
        if !cell_in_grid(nh) {
            return TickOutcome::Terminated;
        }
        if self.snake.self_collides() {
            return TickOutcome::Terminated;
        }
        if ate {
            self.food = place_food(rx, ry);
        }
        proof {
            assert forall|i: int| 0 <= i < self@.snake.body.len() implies in_grid(
                #[trigger] self@.snake.body[i],
            ) by {
                if i >= 1 {
                    assert(in_grid(old(self)@.snake.body[i - 1]));
                }
            }
        }
        TickOutcome::Running
    }

    /// One simulation tick with fresh random draws. Of the relocated food
    /// only this is promised, since the draws are random: it is on the
    /// field; everything else about the tick is as `tick_spec` says.
    pub fn tick(&mut self) -> (outcome: TickOutcome)
        requires
            old(self).wf(),
        ensures
            final(self)@.snake.direction == old(self)@.snake.direction,
            next_head(old(self)@.snake) == old(self)@.food ==> final(self)@.snake == grown(
                old(self)@.snake,
            ),
            next_head(old(self)@.snake) != old(self)@.food ==> final(self)@.snake == moved(
                old(self)@.snake,
            ),
            outcome == TickOutcome::Terminated <==> (!in_grid(next_head(old(self)@.snake))
                || self_hit(final(self)@.snake.body)),
            in_grid(final(self)@.food),
            (next_head(old(self)@.snake) != old(self)@.food || outcome
                == TickOutcome::Terminated) ==> final(self)@.food == old(self)@.food,
            outcome == TickOutcome::Running ==> final(self).wf(),
    {
        let rx: u32 = crate::rng::random_u32();
        let ry: u32 = crate::rng::random_u32();
        self.tick_with(rx, ry)
    }
}

} // verus!
