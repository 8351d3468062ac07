//! Behavioral tests of the game engine: body management, simulation steps,
//! fruit placement, the keyboard state machine and the scheduler rule.

use snake_core::Direction;
use snake_core::Game;
use snake_core::GameState;
use snake_core::Point;
use snake_core::Position;
use snake_core::Tail;
use snake_core::TimerAction;
use snake_core::Update;
use snake_core::parse_movement_key;
use snake_core::reconcile_timer;
use snake_core::timer_should_run;
use snake_core::to_px;
use snake_core::update;

fn pos(x: i32, y: i32) -> Position {
    Position { x, y }
}

fn game(head: Position, segments: &[Position], direction: Direction, fruit: Position) -> Game {
    let mut tail = Tail::new();
    for s in segments {
        tail.push(*s);
    }
    Game { head, tail, direction, state: GameState::Play, fruit }
}

fn tail_positions(g: &Game) -> Vec<Position> {
    g.tail.get().into_iter().map(|(_, p)| p).collect()
}

#[test]
fn tail_push_then_contains() {
    let mut t = Tail::new();
    assert!(t.is_empty());
    let p = pos(4, 7);
    t.push(p);
    assert!(t.contains(p));
    assert!(!t.is_empty());
    assert!(!t.contains(pos(7, 4)));
}

#[test]
fn tail_clear_empties_everything() {
    let mut t = Tail::new();
    t.push(pos(1, 2));
    t.push(pos(3, 4));
    t.clear();
    assert!(t.is_empty());
    for x in 0..20 {
        for y in 0..20 {
            assert!(!t.contains(pos(x, y)));
        }
    }
}

#[test]
fn tail_update_shifts_follow_the_leader() {
    let mut t = Tail::new();
    t.push(pos(1, 1));
    t.push(pos(1, 2));
    t.push(pos(1, 3));
    t.update(pos(0, 1));
    let held: Vec<Position> = t.get().into_iter().map(|(_, p)| p).collect();
    assert_eq!(held, vec![pos(0, 1), pos(1, 1), pos(1, 2)]);
}

#[test]
fn tail_update_keeps_indices_stable() {
    let mut t = Tail::new();
    t.push(pos(9, 9));
    t.push(pos(9, 8));
    t.update(pos(8, 9));
    let enumerated = t.get();
    assert_eq!(enumerated.len(), 2);
    assert_eq!(enumerated[0], (0, pos(8, 9)));
    assert_eq!(enumerated[1], (1, pos(9, 9)));
}

#[test]
fn tail_update_on_empty_stays_empty() {
    let mut t = Tail::new();
    t.update(pos(5, 5));
    assert!(t.is_empty());
}

#[test]
fn step_is_deterministic() {
    let mk = || game(pos(7, 7), &[pos(7, 8), pos(7, 9)], Direction::Up, pos(3, 3));
    let mut a = mk();
    let mut b = mk();
    let got_a = a.tick_move();
    let got_b = b.tick_move();
    assert_eq!(got_a, got_b);
    assert_eq!(a.head, b.head);
    assert_eq!(a.state, b.state);
    assert_eq!(a.fruit, b.fruit);
    assert_eq!(a.direction, b.direction);
    assert_eq!(tail_positions(&a), tail_positions(&b));
}

#[test]
fn scenario_move_right() {
    let mut g = game(pos(5, 5), &[], Direction::Right, pos(0, 0));
    let got = g.tick_move();
    assert!(!got);
    assert_eq!(g.head, pos(5, 6));
    assert_eq!(g.state, GameState::Play);
}

#[test]
fn scenario_left_edge_loses() {
    let mut g = game(pos(0, 0), &[], Direction::Left, pos(3, 3));
    let got = g.tick_move();
    assert!(!got);
    assert_eq!(g.state, GameState::Loose);
    assert_eq!(g.head, pos(0, 0));
    assert!(g.tail.is_empty());
    assert_eq!(g.fruit, pos(3, 3));
}

#[test]
fn scenario_shift_past_own_segment() {
    let mut g = game(pos(3, 3), &[pos(3, 4)], Direction::Down, pos(9, 9));
    let got = g.tick_move();
    assert!(!got);
    assert_eq!(g.state, GameState::Play);
    assert_eq!(g.head, pos(4, 3));
    assert_eq!(tail_positions(&g), vec![pos(3, 3)]);
}

#[test]
fn scenario_eat_and_respawn() {
    let mut g = game(pos(2, 2), &[], Direction::Right, pos(2, 3));
    let got = g.tick_move();
    assert!(got);
    assert_eq!(g.head, pos(2, 3));
    assert_eq!(tail_positions(&g), vec![pos(2, 2)]);
    // Rejection sampling: the first two candidates collide with the snake.
    let accepted = g.spawn_fruit(&vec![pos(2, 3), pos(2, 2), pos(7, 7)]);
    assert_eq!(accepted, Some(2));
    assert_eq!(g.fruit, pos(7, 7));
    assert_ne!(g.fruit, g.head);
    assert!(!g.tail.contains(g.fruit));
}

#[test]
fn scenario_first_key_starts_play() {
    let mut g = Game::new();
    assert_eq!(g.state, GameState::Start);
    let needs_fruit = g.key_down("d");
    assert!(!needs_fruit);
    assert_eq!(g.state, GameState::Play);
    assert_eq!(g.direction, Direction::Right);
    assert!(timer_should_run(g.state));
    assert_eq!(reconcile_timer(false, g.state), TimerAction::Begin);
}

#[test]
fn top_edge_loses() {
    let mut g = game(pos(0, 5), &[], Direction::Up, pos(9, 9));
    g.tick_move();
    assert_eq!(g.state, GameState::Loose);
    assert_eq!(g.head, pos(0, 5));
}

#[test]
fn bottom_and_right_edges_lose() {
    let mut g = game(pos(19, 19), &[], Direction::Down, pos(9, 9));
    g.tick_move();
    assert_eq!(g.state, GameState::Loose);
    let mut h = game(pos(19, 19), &[], Direction::Right, pos(9, 9));
    h.tick_move();
    assert_eq!(h.state, GameState::Loose);
}

#[test]
fn self_collision_loses() {
    let mut g = game(pos(5, 5), &[pos(5, 6), pos(4, 6)], Direction::Right, pos(9, 9));
    let got = g.tick_move();
    assert!(!got);
    assert_eq!(g.state, GameState::Loose);
    assert_eq!(g.head, pos(5, 5));
    assert_eq!(tail_positions(&g), vec![pos(5, 6), pos(4, 6)]);
}

#[test]
fn moving_into_vacating_tail_cell_still_loses() {
    // The collision check runs against the segments before the shift, so
    // the cell the tail is about to vacate still counts as occupied.
    let mut g = game(pos(5, 5), &[pos(5, 6)], Direction::Right, pos(9, 9));
    g.tick_move();
    assert_eq!(g.state, GameState::Loose);
}

#[test]
fn growth_adds_exactly_one_segment() {
    let mut g = game(pos(10, 10), &[pos(10, 9), pos(10, 8)], Direction::Right, pos(10, 11));
    let report = g.tick(&vec![pos(0, 0)]);
    assert!(report.got_fruit);
    assert!(report.fruit_placed);
    assert_eq!(tail_positions(&g).len(), 3);
    assert_eq!(tail_positions(&g), vec![pos(10, 10), pos(10, 9), pos(10, 8)]);
    assert_eq!(g.fruit, pos(0, 0));
}

#[test]
fn plain_tick_keeps_segment_count() {
    let mut g = game(pos(10, 10), &[pos(10, 9)], Direction::Right, pos(0, 0));
    let report = g.tick(&vec![pos(1, 1)]);
    assert!(!report.got_fruit);
    assert!(!report.fruit_placed);
    assert_eq!(tail_positions(&g).len(), 1);
    assert_eq!(g.fruit, pos(0, 0));
}

#[test]
fn place_fruit_rejects_occupied_and_off_board() {
    let mut g = game(pos(5, 5), &[pos(5, 6)], Direction::Right, pos(9, 9));
    assert!(!g.place_fruit(pos(5, 5)));
    assert!(!g.place_fruit(pos(5, 6)));
    assert!(!g.place_fruit(pos(20, 0)));
    assert!(!g.place_fruit(pos(0, -1)));
    assert_eq!(g.fruit, pos(9, 9));
    assert!(g.place_fruit(pos(0, 0)));
    assert_eq!(g.fruit, pos(0, 0));
}

#[test]
fn spawn_fruit_exhausted_changes_nothing() {
    let mut g = game(pos(5, 5), &[pos(5, 6)], Direction::Right, pos(9, 9));
    let r = g.spawn_fruit(&vec![pos(5, 5), pos(5, 6)]);
    assert_eq!(r, None);
    assert_eq!(g.fruit, pos(9, 9));
}

#[test]
fn keys_turn_the_snake_during_play() {
    let mut g = game(pos(5, 5), &[], Direction::Right, pos(9, 9));
    g.key_down("w");
    assert_eq!(g.direction, Direction::Up);
    g.key_down("arrowleft");
    assert_eq!(g.direction, Direction::Left);
    g.key_down("s");
    assert_eq!(g.direction, Direction::Down);
    g.key_down("arrowright");
    assert_eq!(g.direction, Direction::Right);
    g.key_down("arrowup");
    assert_eq!(g.direction, Direction::Up);
    g.key_down("a");
    assert_eq!(g.direction, Direction::Left);
    g.key_down("arrowdown");
    assert_eq!(g.direction, Direction::Down);
    assert_eq!(g.state, GameState::Play);
}

#[test]
fn space_pauses_and_resumes() {
    let mut g = game(pos(5, 5), &[], Direction::Right, pos(9, 9));
    g.key_down(" ");
    assert_eq!(g.state, GameState::Pause);
    assert_eq!(reconcile_timer(true, g.state), TimerAction::Stop);
    // Movement keys are ignored while paused.
    g.key_down("w");
    assert_eq!(g.state, GameState::Pause);
    assert_eq!(g.direction, Direction::Right);
    g.key_down(" ");
    assert_eq!(g.state, GameState::Play);
    assert_eq!(g.head, pos(5, 5));
}

#[test]
fn space_resets_a_lost_game() {
    let mut g = game(pos(5, 5), &[pos(5, 6)], Direction::Right, pos(9, 9));
    g.tick_move();
    assert_eq!(g.state, GameState::Loose);
    let needs_fruit = g.key_down(" ");
    assert!(needs_fruit);
    assert_eq!(g.state, GameState::Start);
    assert_eq!(g.head, pos(0, 0));
    assert!(g.tail.is_empty());
    assert_eq!(g.spawn_fruit(&vec![pos(0, 0), pos(12, 3)]), Some(1));
    assert_eq!(g.fruit, pos(12, 3));
}

#[test]
fn unrecognized_keys_are_ignored() {
    let mut g = Game::new();
    g.key_down("q");
    assert_eq!(g.state, GameState::Start);
    let mut h = game(pos(5, 5), &[], Direction::Right, pos(9, 9));
    h.key_down("enter");
    assert_eq!(h.state, GameState::Play);
    assert_eq!(h.direction, Direction::Right);
    // Space on the start screen does nothing.
    g.key_down(" ");
    assert_eq!(g.state, GameState::Start);
}

#[test]
fn parse_movement_key_table() {
    assert_eq!(parse_movement_key("w"), Some(Direction::Up));
    assert_eq!(parse_movement_key("a"), Some(Direction::Left));
    assert_eq!(parse_movement_key("s"), Some(Direction::Down));
    assert_eq!(parse_movement_key("d"), Some(Direction::Right));
    assert_eq!(parse_movement_key("arrowup"), Some(Direction::Up));
    assert_eq!(parse_movement_key("arrowleft"), Some(Direction::Left));
    assert_eq!(parse_movement_key("arrowdown"), Some(Direction::Down));
    assert_eq!(parse_movement_key("arrowright"), Some(Direction::Right));
    assert_eq!(parse_movement_key(" "), None);
    assert_eq!(parse_movement_key("W"), None);
    assert_eq!(parse_movement_key("x"), None);
}

#[test]
fn timer_runs_exactly_in_play() {
    assert!(timer_should_run(GameState::Play));
    assert!(!timer_should_run(GameState::Pause));
    assert!(!timer_should_run(GameState::Start));
    assert!(!timer_should_run(GameState::Loose));
    assert_eq!(reconcile_timer(true, GameState::Play), TimerAction::Keep);
    assert_eq!(reconcile_timer(false, GameState::Pause), TimerAction::Keep);
    assert_eq!(reconcile_timer(false, GameState::Loose), TimerAction::Keep);
}

#[test]
fn update_plain_move() {
    let u = update(
        vec![Point::new(5, 5)],
        Point::new(9, 9),
        20,
        Direction::Right,
        &vec![],
    );
    assert!(!u.failed);
    assert!(!u.got_fruit);
    assert_eq!(u.snake, vec![Point::new(5, 6)]);
    assert_eq!(u.fruit, Point::new(9, 9));
}

#[test]
fn update_eats_and_respawns() {
    let u = update(
        vec![Point::new(2, 2)],
        Point::new(2, 3),
        20,
        Direction::Right,
        &vec![Point::new(2, 3), Point::new(0, 0)],
    );
    assert!(!u.failed);
    assert!(u.got_fruit);
    assert_eq!(u.snake, vec![Point::new(2, 3), Point::new(2, 2)]);
    assert_eq!(u.fruit, Point::new(0, 0));
}

#[test]
fn update_wall_hit_leaves_snake_unchanged() {
    let u = update(
        vec![Point::new(0, 0), Point::new(0, 1)],
        Point::new(9, 9),
        20,
        Direction::Up,
        &vec![],
    );
    assert!(u.failed);
    assert!(!u.got_fruit);
    assert_eq!(u.snake, vec![Point::new(0, 0), Point::new(0, 1)]);
    assert_eq!(u.fruit, Point::new(9, 9));
}

#[test]
fn update_self_bite_fails() {
    let u = update(
        vec![Point::new(5, 5), Point::new(5, 6)],
        Point::new(9, 9),
        20,
        Direction::Right,
        &vec![],
    );
    assert!(u.failed);
    assert_eq!(u.snake, vec![Point::new(5, 5), Point::new(5, 6)]);
}

#[test]
fn update_grows_long_snake() {
    let u = update(
        vec![Point::new(10, 10), Point::new(10, 9), Point::new(10, 8)],
        Point::new(10, 11),
        20,
        Direction::Right,
        &vec![Point::new(1, 1)],
    );
    assert!(u.got_fruit);
    assert_eq!(
        u.snake,
        vec![Point::new(10, 11), Point::new(10, 10), Point::new(10, 9), Point::new(10, 8)]
    );
    assert_eq!(u.fruit, Point::new(1, 1));
}

#[test]
fn point_new_and_translate() {
    let p = Point::new(3, 4);
    assert_eq!(p.x, 3);
    assert_eq!(p.y, 4);
    let q = p.translate(1, 0);
    assert_eq!(q, Point::new(4, 4));
    let r = p.translate(0, -1);
    assert_eq!(r, Point::new(3, 3));
    assert_eq!(p, Point::new(3, 4));
    assert_ne!(p, q);
}

#[test]
fn update_new_carries_fields() {
    let u = Update::new(vec![Point::new(1, 2)], Point::new(3, 4), true, false);
    assert_eq!(u.snake, vec![Point::new(1, 2)]);
    assert_eq!(u.fruit, Point::new(3, 4));
    assert!(u.failed);
    assert!(!u.got_fruit);
}

#[test]
fn state_classes() {
    assert_eq!(GameState::Play.class(), "");
    assert_eq!(GameState::Loose.class(), "loose");
    assert_eq!(GameState::Pause.class(), "pause");
    assert_eq!(GameState::Start.class(), "start");
}

#[test]
fn bounds_checks() {
    assert!(pos(0, 0).is_in_bounds());
    assert!(pos(19, 19).is_in_bounds());
    assert!(!pos(20, 0).is_in_bounds());
    assert!(!pos(0, 20).is_in_bounds());
    assert!(!pos(-1, 5).is_in_bounds());
    assert!(!pos(5, -1).is_in_bounds());
}

#[test]
fn pixel_mapping() {
    assert_eq!(to_px(0), 0);
    assert_eq!(to_px(3), 75);
    assert_eq!(to_px(19), 475);
    assert_eq!(to_px(20), 500);
}
