use snake_game::game::Direction;
use snake_game::game::GameState;
use snake_game::game::Snake;
use snake_game::game::TickOutcome;
use snake_game::game::place_food;
use snake_game::game::GRID_HEIGHT;
use snake_game::game::GRID_WIDTH;

fn state(body: Vec<(i32, i32)>, direction: Direction, food: (i32, i32)) -> GameState {
    GameState { snake: Snake { body, direction }, food }
}

#[test]
fn initial_state_matches_the_fixed_values() {
    let st = GameState::new();
    assert_eq!(st.snake.body, vec![(10, 10), (10, 11), (10, 12)]);
    assert_eq!(st.snake.direction, Direction::Up);
    assert_eq!(st.food, (15, 15));
    assert!(st.is_well_formed());
}

#[test]
fn grid_is_32_by_24() {
    assert_eq!(GRID_WIDTH, 32);
    assert_eq!(GRID_HEIGHT, 24);
}

#[test]
fn first_tick_from_the_initial_state() {
    let mut st = GameState::new();
    let out = st.tick_with(7, 7);
    assert_eq!(st.snake.body, vec![(10, 9), (10, 10), (10, 11)]);
    assert_eq!(st.snake.body.len(), 3);
    assert_eq!(out, TickOutcome::Running);
    assert_eq!(st.food, (15, 15));
    assert_eq!(st.snake.direction, Direction::Up);
}

#[test]
fn non_growth_tick_keeps_length() {
    let mut st = state(vec![(5, 5), (4, 5), (3, 5)], Direction::Right, (20, 20));
    let before = st.snake.body.len();
    let out = st.tick_with(1, 2);
    assert_eq!(out, TickOutcome::Running);
    assert_eq!(st.snake.body.len(), before);
    assert_eq!(st.snake.body, vec![(6, 5), (5, 5), (4, 5)]);
}

#[test]
fn growth_tick_adds_one_cell_and_relocates_food() {
    let mut st = state(vec![(15, 16), (15, 17), (15, 18)], Direction::Up, (15, 15));
    let out = st.tick_with(100, 50);
    assert_eq!(out, TickOutcome::Running);
    assert_eq!(st.snake.body.len(), 4);
    assert_eq!(st.snake.body, vec![(15, 15), (15, 16), (15, 17), (15, 18)]);
    // 100 % 32 == 4, 50 % 24 == 2
    assert_eq!(st.food, (4, 2));
}

#[test]
fn growth_tick_with_random_draws_keeps_food_on_the_field() {
    let mut st = state(vec![(15, 16), (15, 17), (15, 18)], Direction::Up, (15, 15));
    let out = st.tick();
    assert_eq!(out, TickOutcome::Running);
    assert_eq!(st.snake.body.len(), 4);
    assert_eq!(st.snake.body[0], (15, 15));
    assert!(st.food.0 >= 0 && st.food.0 < GRID_WIDTH as i32);
    assert!(st.food.1 >= 0 && st.food.1 < GRID_HEIGHT as i32);
}

#[test]
fn head_moves_by_the_unit_vector_of_each_heading() {
    assert_eq!(Direction::Up.delta(), (0, -1));
    assert_eq!(Direction::Down.delta(), (0, 1));
    assert_eq!(Direction::Left.delta(), (-1, 0));
    assert_eq!(Direction::Right.delta(), (1, 0));
    for (dir, head) in [
        (Direction::Up, (10, 9)),
        (Direction::Down, (10, 11)),
        (Direction::Left, (9, 10)),
        (Direction::Right, (11, 10)),
    ] {
        let mut st = state(vec![(10, 10), (10, 11)], dir, (20, 20));
        st.tick_with(0, 0);
        assert_eq!(st.snake.body[0], head);
    }
}

#[test]
fn moving_right_off_the_right_edge_terminates() {
    let mut st = state(
        vec![(GRID_WIDTH as i32 - 1, 5), (GRID_WIDTH as i32 - 2, 5)],
        Direction::Right,
        (20, 20),
    );
    let out = st.tick_with(0, 0);
    assert_eq!(out, TickOutcome::Terminated);
    assert_eq!(st.snake.body[0], (GRID_WIDTH as i32, 5));
}

#[test]
fn moving_off_the_other_edges_terminates() {
    let mut left = state(vec![(0, 5), (1, 5)], Direction::Left, (20, 20));
    assert_eq!(left.tick_with(0, 0), TickOutcome::Terminated);
    let mut top = state(vec![(5, 0), (5, 1)], Direction::Up, (20, 20));
    assert_eq!(top.tick_with(0, 0), TickOutcome::Terminated);
    let mut bottom = state(
        vec![(5, GRID_HEIGHT as i32 - 1), (5, GRID_HEIGHT as i32 - 2)],
        Direction::Down,
        (20, 20),
    );
    assert_eq!(bottom.tick_with(0, 0), TickOutcome::Terminated);
}

#[test]
fn reversing_into_the_second_segment_terminates() {
    // Head (5,5) with the body continuing right; moving right puts the
    // head onto its own second segment.
    let mut st = state(vec![(5, 5), (6, 5), (6, 6), (5, 6)], Direction::Right, (20, 20));
    let out = st.tick_with(0, 0);
    assert_eq!(out, TickOutcome::Terminated);
}

#[test]
fn a_tick_just_beside_the_food_does_not_grow() {
    let mut st = state(vec![(14, 16), (14, 17), (14, 18)], Direction::Up, (15, 15));
    let out = st.tick_with(3, 4);
    assert_eq!(out, TickOutcome::Running);
    assert_eq!(st.snake.body.len(), 3);
    assert_eq!(st.food, (15, 15));
}

#[test]
fn food_placement_reduces_the_draws_modulo_the_grid() {
    assert_eq!(place_food(0, 0), (0, 0));
    assert_eq!(place_food(33, 25), (1, 1));
    assert_eq!(place_food(u32::MAX, u32::MAX), ((u32::MAX % 32) as i32, (u32::MAX % 24) as i32));
    for raw in [0u32, 5, 31, 32, 1000, u32::MAX] {
        let c = place_food(raw, raw);
        assert!(c.0 >= 0 && c.0 < GRID_WIDTH as i32);
        assert!(c.1 >= 0 && c.1 < GRID_HEIGHT as i32);
    }
}

#[test]
fn move_forward_shifts_the_body_as_a_unit() {
    let mut s = Snake { body: vec![(10, 10), (10, 11), (10, 12)], direction: Direction::Up };
    s.move_forward();
    assert_eq!(s.body, vec![(10, 9), (10, 10), (10, 11)]);
    assert_eq!(s.direction, Direction::Up);
}

#[test]
fn grow_keeps_the_tail() {
    let mut s = Snake { body: vec![(10, 10), (10, 11), (10, 12)], direction: Direction::Left };
    s.grow();
    assert_eq!(s.body, vec![(9, 10), (10, 10), (10, 11), (10, 12)]);
}

#[test]
fn self_collision_check_finds_a_repeated_head_cell() {
    let s = Snake { body: vec![(5, 5), (6, 5), (6, 6), (5, 6), (5, 5)], direction: Direction::Up };
    assert!(s.self_collides());
    let t = Snake { body: vec![(5, 5), (6, 5), (6, 6)], direction: Direction::Up };
    assert!(!t.self_collides());
}

#[test]
fn well_formedness_check_rejects_bad_states() {
    assert!(state(vec![(5, 5)], Direction::Up, (0, 0)).is_well_formed());
    assert!(!state(vec![], Direction::Up, (0, 0)).is_well_formed());
    assert!(!state(vec![(5, 5)], Direction::Up, (32, 0)).is_well_formed());
    assert!(!state(vec![(5, -1)], Direction::Up, (0, 0)).is_well_formed());
}
