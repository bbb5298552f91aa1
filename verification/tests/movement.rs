use snake::{snake_movement, snake_movement_input, spawn_snake, ArrowKeys, Direction, Position, SnakeHead};

fn moved(x: i32, y: i32, d: Direction) -> Position {
    let mut position = Position { x, y };
    let head = SnakeHead { direction: d };
    assert!(position.can_step(d));
    snake_movement(&mut position, &head);
    position
}

#[test]
fn the_snake_starts_at_three_three_facing_up() {
    let (head, position) = spawn_snake();
    assert_eq!(head.direction, Direction::Up);
    assert_eq!(position, Position { x: 3, y: 3 });
}

#[test]
fn left_lowers_x_by_one() {
    assert_eq!(moved(3, 3, Direction::Left), Position { x: 2, y: 3 });
}

#[test]
fn right_raises_x_by_one() {
    assert_eq!(moved(3, 3, Direction::Right), Position { x: 4, y: 3 });
}

#[test]
fn up_raises_y_by_one() {
    assert_eq!(moved(3, 3, Direction::Up), Position { x: 3, y: 4 });
}

#[test]
fn down_lowers_y_by_one() {
    assert_eq!(moved(3, 3, Direction::Down), Position { x: 3, y: 2 });
}

#[test]
fn the_head_may_leave_the_arena() {
    assert_eq!(moved(0, 0, Direction::Left), Position { x: -1, y: 0 });
    assert_eq!(moved(0, 0, Direction::Down), Position { x: 0, y: -1 });
    assert_eq!(moved(9, 9, Direction::Right), Position { x: 10, y: 9 });
    assert_eq!(moved(9, 9, Direction::Up), Position { x: 9, y: 10 });
}

#[test]
fn a_step_and_a_step_back_return_to_the_start() {
    for d in [Direction::Left, Direction::Up, Direction::Right, Direction::Down] {
        let there = moved(-7, 12, d);
        assert_eq!(moved(there.x, there.y, d.opposite()), Position { x: -7, y: 12 });
    }
}

#[test]
fn the_head_is_left_as_it_was_by_a_step() {
    let mut position = Position { x: 3, y: 3 };
    let head = SnakeHead { direction: Direction::Right };
    snake_movement(&mut position, &head);
    assert_eq!(head, SnakeHead { direction: Direction::Right });
}

#[test]
fn a_step_is_refused_only_at_the_end_of_the_range() {
    let corner = Position { x: i32::MAX, y: i32::MIN };
    assert!(!corner.can_step(Direction::Right));
    assert!(!corner.can_step(Direction::Down));
    assert!(corner.can_step(Direction::Left));
    assert!(corner.can_step(Direction::Up));
    let other = Position { x: i32::MIN, y: i32::MAX };
    assert!(!other.can_step(Direction::Left));
    assert!(!other.can_step(Direction::Up));
    assert!(other.can_step(Direction::Right));
    assert!(other.can_step(Direction::Down));
    assert_eq!(moved(i32::MAX - 1, 0, Direction::Right), Position { x: i32::MAX, y: 0 });
    assert_eq!(moved(0, i32::MIN + 1, Direction::Down), Position { x: 0, y: i32::MIN });
}

#[test]
fn one_tick_without_keys_moves_the_head_up() {
    let (mut head, mut position) = spawn_snake();
    let keys = ArrowKeys { left: false, right: false, up: false, down: false };
    snake_movement_input(&mut head, &keys);
    snake_movement(&mut position, &head);
    assert_eq!(position, Position { x: 3, y: 4 });
    assert_eq!(head.direction, Direction::Up);
}

#[test]
fn pressing_down_while_facing_up_still_moves_up() {
    let (mut head, mut position) = spawn_snake();
    let keys = ArrowKeys { left: false, right: false, up: false, down: true };
    snake_movement_input(&mut head, &keys);
    assert_eq!(head.direction, Direction::Up);
    snake_movement(&mut position, &head);
    assert_eq!(position, Position { x: 3, y: 4 });
    assert_ne!(position, Position { x: 3, y: 2 });
}

#[test]
fn a_turn_is_taken_before_the_step_of_the_same_tick() {
    let (mut head, mut position) = spawn_snake();
    let keys = ArrowKeys { left: true, right: false, up: false, down: false };
    snake_movement_input(&mut head, &keys);
    snake_movement(&mut position, &head);
    assert_eq!(head.direction, Direction::Left);
    assert_eq!(position, Position { x: 2, y: 3 });
}
