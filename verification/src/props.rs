//! The laws the simulation obeys, proved once and for all over the tick
//! and input models.
use vstd::prelude::*;

use crate::game::Direction;
use crate::game::GameView;
use crate::game::TickOutcome;
use crate::game::dir_dx;
use crate::game::dir_dy;
use crate::game::in_grid;
use crate::game::next_head;
use crate::game::tick_spec;
use crate::game::view_wf;
use crate::input::InputEvent;
use crate::input::arrow_dir;
use crate::input::input_spec;
use vstd::arithmetic::div_mod::lemma_mod_bound;

verus! {

/// On a tick whose new head does not land on the food, the snake's length
/// is unchanged.
pub proof fn lemma_non_growth_tick_keeps_length(v: GameView, rx: u32, ry: u32)
    requires
        view_wf(v),
        next_head(v.snake) != v.food,
    ensures
        tick_spec(v, rx, ry).0.snake.body.len() == v.snake.body.len(),
{
}

/// On a tick whose new head lands on the food, the snake gets exactly one
/// cell longer, and the food cell after the tick lies on the field.
pub proof fn lemma_growth_tick(v: GameView, rx: u32, ry: u32)
    requires
        view_wf(v),
        next_head(v.snake) == v.food,
    ensures
        tick_spec(v, rx, ry).0.snake.body.len() == v.snake.body.len() + 1,
        in_grid(tick_spec(v, rx, ry).0.food),
{
    lemma_mod_bound(rx as int, crate::game::GRID_WIDTH as int);
    lemma_mod_bound(ry as int, crate::game::GRID_HEIGHT as int);
}

/// On every tick, the new head is the old head displaced by exactly the
/// unit vector of the heading at the start of the tick: (0,-1) for up,
/// (0,1) for down, (-1,0) for left, (1,0) for right.
pub proof fn lemma_tick_head_displacement(v: GameView, rx: u32, ry: u32)
    requires
        view_wf(v),
    ensures
        tick_spec(v, rx, ry).0.snake.body[0].0 == v.snake.body[0].0 as int + dir_dx(
            v.snake.direction,
        ),
        tick_spec(v, rx, ry).0.snake.body[0].1 == v.snake.body[0].1 as int + dir_dy(
            v.snake.direction,
        ),
        v.snake.direction == Direction::Up ==> dir_dx(v.snake.direction) == 0 && dir_dy(
            v.snake.direction,
        ) == -1,
        v.snake.direction == Direction::Down ==> dir_dx(v.snake.direction) == 0 && dir_dy(
            v.snake.direction,
        ) == 1,
        v.snake.direction == Direction::Left ==> dir_dx(v.snake.direction) == -1 && dir_dy(
            v.snake.direction,
        ) == 0,
        v.snake.direction == Direction::Right ==> dir_dx(v.snake.direction) == 1 && dir_dy(
            v.snake.direction,
        ) == 0,
{
    assert(in_grid(v.snake.body[0]));
}

/// A snake whose head stands at the right boundary cell and moves right
/// leaves the field on the next tick, and the tick reports termination.
pub proof fn lemma_wall_collision_terminates(v: GameView, rx: u32, ry: u32)
    requires
        view_wf(v),
        v.snake.direction == Direction::Right,
        v.snake.body[0].0 as int == crate::game::GRID_WIDTH as int - 1,
    ensures
        !in_grid(next_head(v.snake)),
        tick_spec(v, rx, ry).1 == TickOutcome::Terminated,
{
    assert(in_grid(v.snake.body[0]));
}

/// A snake of length at least four whose next move puts the head onto its
/// own second segment collides with itself, and the tick reports
/// termination.
pub proof fn lemma_self_collision_terminates(v: GameView, rx: u32, ry: u32)
    requires
        view_wf(v),
        v.snake.body.len() >= 4,
        next_head(v.snake) == v.snake.body[1],
    ensures
        tick_spec(v, rx, ry).1 == TickOutcome::Terminated,
{
    assert(in_grid(v.snake.body[1]));
    let s2 = tick_spec(v, rx, ry).0.snake;
    assert(s2.body[2] == v.snake.body[1]);
    assert(s2.body[0] == next_head(v.snake));
    assert(crate::game::self_hit(s2.body));
}

/// Dispatching an arrow-key event whose heading equals the snake's current
/// heading changes nothing: the state is exactly what it was, no quit is
/// requested, and every later tick proceeds exactly as it would have
/// without the event.
pub proof fn lemma_same_heading_input_is_noop(v: GameView, e: InputEvent, rx: u32, ry: u32)
    requires
        arrow_dir(e) == Some(v.snake.direction),
    ensures
        input_spec(v, e).0 == v,
        input_spec(v, e).1 == false,
        tick_spec(input_spec(v, e).0, rx, ry) == tick_spec(v, rx, ry),
{
    assert(input_spec(v, e).0 =~= v);
}

} // verus!

