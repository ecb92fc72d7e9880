//! The input stage: what the drained input events do to the game state.
use vstd::prelude::*;

use crate::game::Direction;
use crate::game::GameState;
use crate::game::GameView;
use crate::game::SnakeView;

verus! {

/// One input event, as the library sees it: a window-close request, one of
/// the recognized keys, or anything else.
#[derive(Clone, Copy, PartialEq, Eq, Structural, Debug)]
pub enum InputEvent {
    /// The window was asked to close.
    Quit,
    /// The escape key was pressed.
    Escape,
    /// An arrow key was pressed.
    ArrowUp,
    ArrowDown,
    ArrowLeft,
    ArrowRight,
    /// Any event the game does not recognize; it is ignored.
    Other,
}

/// The heading an arrow key selects, if the event is an arrow key at all.
pub open spec fn arrow_dir(e: InputEvent) -> Option<Direction> {
    match e {
        InputEvent::ArrowUp => Some(Direction::Up),
        InputEvent::ArrowDown => Some(Direction::Down),
        InputEvent::ArrowLeft => Some(Direction::Left),
        InputEvent::ArrowRight => Some(Direction::Right),
        _ => None,
    }
}

/// What one event does: an arrow key overwrites the heading and nothing
/// else; quit and escape ask for termination; everything else is ignored.
/// The second component is the termination request.
pub open spec fn input_spec(v: GameView, e: InputEvent) -> (GameView, bool) {
    match arrow_dir(e) {
        Some(d) => (GameView { snake: SnakeView { direction: d, ..v.snake }, ..v }, false),
        None => (v, e == InputEvent::Quit || e == InputEvent::Escape),
    }
}

/// Some drained event asks the game to stop: a window-close request or the
/// escape key.
pub open spec fn quit_requested(events: Seq<InputEvent>) -> bool {
    exists|i: int|
        0 <= i < events.len() && ((#[trigger] events[i]) == InputEvent::Quit || events[i]
            == InputEvent::Escape)
}

/// The heading selected by the last arrow key among the drained events,
/// if any arrow key is among them: later events overwrite earlier ones.
pub open spec fn last_arrow(events: Seq<InputEvent>) -> Option<Direction>
    decreases events.len(),
{
    if events.len() == 0 {
        None
    } else if arrow_dir(events.last()) is Some {
        arrow_dir(events.last())
    } else {
        last_arrow(events.drop_last())
    }
}

impl GameState {
    /// Apply one input event to the state; the returned flag asks the
    /// caller to terminate the loop.
    pub fn handle_event(&mut self, e: InputEvent) -> (quit: bool)
        ensures
            final(self)@ == input_spec(old(self)@, e).0,
            quit == input_spec(old(self)@, e).1,
            final(self)@.snake.body == old(self)@.snake.body,
            final(self)@.food == old(self)@.food,
    {
        match e {
            InputEvent::Quit => true,
            InputEvent::Escape => true,
            InputEvent::ArrowUp => {
                self.snake.direction = Direction::Up;
                false
            },
            InputEvent::ArrowDown => {
                self.snake.direction = Direction::Down;
                false
            },
            InputEvent::ArrowLeft => {
                self.snake.direction = Direction::Left;
                false
            },
            InputEvent::ArrowRight => {
                self.snake.direction = Direction::Right;
                false
            },
            InputEvent::Other => false,
        }
    }

    /// Apply a whole batch of drained events in order, as the input stage
    /// does once per tick: the last arrow key wins the heading, and the
    /// returned flag asks the caller to terminate if any event was a quit
    /// request or the escape key.
    pub fn handle_events(&mut self, events: &Vec<InputEvent>) -> (quit: bool)
        ensures
            quit == quit_requested(events@),
            final(self)@.snake.direction == match last_arrow(events@) {
                Some(d) => d,
                None => old(self)@.snake.direction,
            },
            final(self)@.snake.body == old(self)@.snake.body,
            final(self)@.food == old(self)@.food,
    {
        let mut quit: bool = false;
        let n: usize = events.len();
        let mut i: usize = 0;
        while i < n
            invariant
                0 <= i <= n,
                n == events@.len(),
                quit == quit_requested(events@.take(i as int)),
                self@.snake.direction == match last_arrow(events@.take(i as int)) {
                    Some(d) => d,
                    None => old(self)@.snake.direction,
                },
                self@.snake.body == old(self)@.snake.body,
                self@.food == old(self)@.food,
            decreases n - i,
        {
            let q = self.handle_event(events[i]);
            quit = quit || q;
            proof {
                let pre = events@.take(i as int);
                let post = events@.take(i + 1 as int);
                assert(post.drop_last() =~= pre);
                assert(post.last() == events@[i as int]);
                assert(quit_requested(post) == (quit_requested(pre) || events@[i as int]
                    == InputEvent::Quit || events@[i as int] == InputEvent::Escape)) by {
                    if quit_requested(pre) {
                        let j = choose|j: int|
                            0 <= j < pre.len() && ((#[trigger] pre[j]) == InputEvent::Quit
                                || pre[j] == InputEvent::Escape);
                        assert(post[j] == InputEvent::Quit || post[j] == InputEvent::Escape);
                    }
                    if events@[i as int] == InputEvent::Quit || events@[i as int]
                        == InputEvent::Escape {
                        assert(post[i as int] == InputEvent::Quit || post[i as int]
                            == InputEvent::Escape);
                    }
                    if quit_requested(post) && !(events@[i as int] == InputEvent::Quit
                        || events@[i as int] == InputEvent::Escape) {
                        let j = choose|j: int|
                            0 <= j < post.len() && ((#[trigger] post[j]) == InputEvent::Quit
                                || post[j] == InputEvent::Escape);
                        assert(pre[j] == InputEvent::Quit || pre[j] == InputEvent::Escape);
                    }
                }
            }
            i = i + 1;
        }
        proof {
            assert(events@.take(n as int) =~= events@);
        }
        quit
    }
}

} // verus!
