use snake::direction::Direction;
use snake::food::{Color, Food};
use snake::game::{should_tick, Game};
use snake::grid::Position;
use snake::snake::Snake;

fn snake_at(x: i64, y: i64, direction: Direction) -> Snake {
    let head = Position { x, y };
    Snake { head, direction, path: vec![head] }
}

fn red() -> Color {
    Color { r: 255, g: 0, b: 0 }
}

#[test]
fn direction_change_accepted_iff_not_opposite() {
    let all = [Direction::Up, Direction::Right, Direction::Down, Direction::Left];
    let opposite = |d: Direction| match d {
        Direction::Up => Direction::Down,
        Direction::Right => Direction::Left,
        Direction::Down => Direction::Up,
        Direction::Left => Direction::Right,
    };
    for &current in all.iter() {
        for &proposed in all.iter() {
            let mut s = snake_at(0, 0, current);
            s.request_direction(proposed);
            if proposed == opposite(current) {
                assert_eq!(s.direction, current);
            } else {
                assert_eq!(s.direction, proposed);
            }
        }
    }
}

#[test]
fn move_preserves_length_grow_adds_one() {
    let mut s = Snake::init();
    assert_eq!(s.path.len(), 1);
    s.advance();
    assert_eq!(s.path.len(), 1);
    s.grow();
    assert_eq!(s.path.len(), 2);
    s.advance();
    assert_eq!(s.path.len(), 2);
    s.grow();
    assert_eq!(s.path.len(), 3);
}

#[test]
fn move_offsets_head_one_cell_each_direction() {
    let cases = [
        (Direction::Up, 0, -10),
        (Direction::Right, 10, 0),
        (Direction::Down, 0, 10),
        (Direction::Left, -10, 0),
    ];
    for &(d, dx, dy) in cases.iter() {
        let mut s = snake_at(50, 60, d);
        s.advance();
        assert_eq!(s.head, Position { x: 50 + dx, y: 60 + dy });
        assert_eq!(s.head, s.path[0]);
    }
}

#[test]
fn grow_inserts_new_head_at_front() {
    let mut s = snake_at(50, 60, Direction::Down);
    s.grow();
    assert_eq!(s.path.len(), 2);
    assert_eq!(s.head, Position { x: 50, y: 70 });
    assert_eq!(s.path[0], s.head);
    assert_eq!(s.path[1], Position { x: 50, y: 60 });
}

#[test]
fn init_then_move_then_grow_scenario() {
    let mut s = Snake::init();
    assert_eq!(s.head, Position { x: 0, y: 0 });
    assert_eq!(s.direction, Direction::Right);
    assert_eq!(s.path, vec![Position { x: 0, y: 0 }]);
    s.advance();
    assert_eq!(s.head, Position { x: 10, y: 0 });
    assert_eq!(s.path, vec![Position { x: 10, y: 0 }]);
    s.grow();
    assert_eq!(s.head, Position { x: 20, y: 0 });
    assert_eq!(s.path, vec![Position { x: 20, y: 0 }, Position { x: 10, y: 0 }]);
}

#[test]
fn reversal_rejected_then_sideways_accepted() {
    let mut s = snake_at(0, 0, Direction::Up);
    s.request_direction(Direction::Down);
    assert_eq!(s.direction, Direction::Up);
    s.request_direction(Direction::Left);
    assert_eq!(s.direction, Direction::Left);
}

#[test]
fn eating_tick_grows_and_advances_twice() {
    let snake = snake_at(0, 0, Direction::Right);
    let food = Food { position: Position { x: 0, y: 0 }, color: red() };
    let mut g = Game { snake, food };
    assert!(g.tick_allowed());
    g.tick();
    assert_eq!(g.snake.path.len(), 2);
    assert_eq!(g.snake.head, Position { x: 20, y: 0 });
    assert_eq!(g.snake.path, vec![Position { x: 20, y: 0 }, Position { x: 10, y: 0 }]);
    assert_eq!(g.food.position.x % 10, 0);
    assert_eq!(g.food.position.y % 10, 0);
    assert!(-10 <= g.food.position.x && g.food.position.x <= 640);
    assert!(-10 <= g.food.position.y && g.food.position.y <= 480);
}

#[test]
fn ordinary_tick_moves_and_keeps_food() {
    let snake = snake_at(0, 0, Direction::Down);
    let food = Food { position: Position { x: 100, y: 100 }, color: red() };
    let mut g = Game { snake, food };
    g.tick();
    assert_eq!(g.snake.path.len(), 1);
    assert_eq!(g.snake.head, Position { x: 0, y: 10 });
    assert_eq!(g.food.position, Position { x: 100, y: 100 });
    assert_eq!(g.food.color, red());
}

#[test]
fn fresh_game_is_ready_to_tick() {
    let g = Game::new();
    assert!(g.tick_allowed());
    assert_eq!(g.snake.head, Position { x: 0, y: 0 });
    assert_eq!(g.snake.direction, Direction::Right);
    assert_eq!(g.snake.path.len(), 1);
    assert_eq!(g.food.position.x % 10, 0);
    assert_eq!(g.food.position.y % 10, 0);
}

#[test]
fn tick_not_allowed_for_malformed_state() {
    let head = Position { x: 0, y: 0 };
    let broken_head = Snake {
        head: Position { x: 10, y: 0 },
        direction: Direction::Right,
        path: vec![head],
    };
    let food = Food { position: Position { x: 100, y: 100 }, color: red() };
    let g = Game { snake: broken_head, food };
    assert!(!g.tick_allowed());

    let gap = Snake {
        head,
        direction: Direction::Right,
        path: vec![head, Position { x: 30, y: 0 }],
    };
    let food = Food { position: Position { x: 100, y: 100 }, color: red() };
    let g = Game { snake: gap, food };
    assert!(!g.tick_allowed());

    let empty = Snake { head, direction: Direction::Right, path: vec![] };
    let food = Food { position: Position { x: 100, y: 100 }, color: red() };
    let g = Game { snake: empty, food };
    assert!(!g.tick_allowed());
}

#[test]
fn handle_key_only_changes_direction() {
    let snake = snake_at(30, 40, Direction::Right);
    let food = Food { position: Position { x: 100, y: 100 }, color: red() };
    let mut g = Game { snake, food };
    g.handle_key(Direction::Left);
    assert_eq!(g.snake.direction, Direction::Right);
    assert_eq!(g.snake.head, Position { x: 30, y: 40 });
    assert_eq!(g.snake.path, vec![Position { x: 30, y: 40 }]);
    assert_eq!(g.food.position, Position { x: 100, y: 100 });
    g.handle_key(Direction::Up);
    assert_eq!(g.snake.direction, Direction::Up);
}

#[test]
fn tick_gate_threshold() {
    assert!(!should_tick(0));
    assert!(!should_tick(99));
    assert!(should_tick(100));
    assert!(should_tick(101));
    assert!(should_tick(10_000));
}

#[test]
fn opposite_of_each_direction() {
    assert_eq!(Direction::Up.opposite(), Direction::Down);
    assert_eq!(Direction::Down.opposite(), Direction::Up);
    assert_eq!(Direction::Left.opposite(), Direction::Right);
    assert_eq!(Direction::Right.opposite(), Direction::Left);
}
