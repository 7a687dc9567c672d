use snake::elements::{Snake, Fruit, Wall, SnakeAction, Direction, Position};

#[test]
fn test_snake_state_update_ate_fruit() {
    let fruit = Fruit::new(15, 15);
    let walls = Vec::<Wall>::new();
    let mut snake = Snake::new(14, 15);

    snake.update(&fruit, &walls);

    assert_eq!(snake.get_state(), Some(SnakeAction::AteFruit));
}

#[test]
fn test_snake_state_update_wall_collision() {
    let fruit = Fruit::new(5, 5);
    let walls = vec![Wall::new(15, 15, 1)];
    let mut snake = Snake::new(14, 15);

    snake.update(&fruit, &walls);

    assert_eq!(snake.get_state(), Some(SnakeAction::WallCollision));
}

#[test]
fn test_new_by_direction_generator() {
    let x: i16 = 5;
    let y: i16 = 5;

    let left_position = Position::new_by_direction(x, y, Direction::Left);
    let right_position = Position::new_by_direction(x, y, Direction::Right);
    let down_position = Position::new_by_direction(x, y, Direction::Down);
    let up_position = Position::new_by_direction(x, y, Direction::Up);

    assert_eq!(left_position, Position::new(x - 1, y));
    assert_eq!(right_position, Position::new(x + 1, y));
    assert_eq!(down_position, Position::new(x, y + 1));
    assert_eq!(up_position, Position::new(x, y - 1));
}

#[test]
fn test_position_in_walls() {
    let walls = vec![Wall::new(15, 15, 3)];
    let position_in = Position::new(15, 15);
    let position_out = Position::new(20, 20);

    assert!(Wall::position_in_walls(position_in, &walls));
    assert!(!Wall::position_in_walls(position_out, &walls));
}

#[test]
fn test_any_position_in_walls() {
    let walls = vec![Wall::new(15, 15, 3)];
    let position_in = Position::new(15, 15);
    let position_out1 = Position::new(20, 20);
    let position_out2 = Position::new(25, 25);

    let positions_in = vec![position_in, position_out1];
    let positions_out = vec![position_out1, position_out2];

    assert!(Wall::any_position_in_walls(&positions_in, &walls));
    assert!(!Wall::any_position_in_walls(&positions_out, &walls));
}

#[test]
fn test_step_round_trip_interior() {
    let p = Position::new(5, 5);
    for d in [Direction::Up, Direction::Down, Direction::Left, Direction::Right] {
        let opposite = match d {
            Direction::Up => Direction::Down,
            Direction::Down => Direction::Up,
            Direction::Left => Direction::Right,
            Direction::Right => Direction::Left,
        };
        let there = Position::new_by_direction(p.x, p.y, d);
        let back = Position::new_by_direction(there.x, there.y, opposite);
        assert_eq!(back, p);
    }
}

#[test]
fn test_step_wraps_at_edges() {
    assert_eq!(Position::new_by_direction(0, 7, Direction::Left), Position::new(19, 7));
    assert_eq!(Position::new_by_direction(19, 7, Direction::Right), Position::new(0, 7));
    assert_eq!(Position::new_by_direction(7, 0, Direction::Up), Position::new(7, 19));
    assert_eq!(Position::new_by_direction(7, 19, Direction::Down), Position::new(7, 0));
}

#[test]
fn test_direction_from_draw_mapping() {
    assert_eq!(Direction::from_draw(0), Direction::Left);
    assert_eq!(Direction::from_draw(1), Direction::Left);
    assert_eq!(Direction::from_draw(2), Direction::Right);
    assert_eq!(Direction::from_draw(3), Direction::Down);
    assert_eq!(Direction::from_draw(4), Direction::Up);
}

#[test]
fn test_wall_size_and_connectivity() {
    let wall = Wall::new(10, 10, 8);
    assert_eq!(wall.blocks.len(), 8);
    assert_eq!(wall.blocks[0], Position::new(10, 10));
    for i in 1..wall.blocks.len() {
        let prev = wall.blocks[i - 1];
        let cell = wall.blocks[i];
        assert!(cell.x >= 0 && cell.x < 20 && cell.y >= 0 && cell.y < 20);
        let neighbours = [
            Position::new_by_direction(prev.x, prev.y, Direction::Up),
            Position::new_by_direction(prev.x, prev.y, Direction::Down),
            Position::new_by_direction(prev.x, prev.y, Direction::Left),
            Position::new_by_direction(prev.x, prev.y, Direction::Right),
        ];
        assert!(neighbours.contains(&cell));
    }
}

#[test]
fn test_wall_of_size_at_most_one_keeps_only_origin() {
    assert_eq!(Wall::new(3, 4, 1).blocks.len(), 1);
    assert_eq!(Wall::new(3, 4, 0).blocks.len(), 1);
}

#[test]
fn test_random_grid_position_in_bounds() {
    for _ in 0..200 {
        let p = snake::elements::random_grid_position();
        assert!(p.x >= 0 && p.x < 20);
        assert!(p.y >= 0 && p.y < 20);
    }
}

#[test]
fn test_snake_normal_move_keeps_length() {
    let fruit = Fruit::new(5, 5);
    let walls = Vec::<Wall>::new();
    let mut snake = Snake::new(10, 10);

    snake.update(&fruit, &walls);

    assert_eq!(snake.get_state(), None);
    assert_eq!(snake.get_head(), Position::new(11, 10));
    assert_eq!(snake.body.len(), 0);
}

#[test]
fn test_snake_self_collision_detected() {
    let fruit = Fruit::new(0, 0);
    let walls = Vec::<Wall>::new();
    let mut snake = Snake {
        head: Position::new(10, 10),
        body: vec![Position::new(11, 10), Position::new(11, 11), Position::new(10, 11)],
        direction: Direction::Right,
        state: None,
        empowered: false,
    };

    snake.update(&fruit, &walls);

    assert_eq!(snake.get_state(), Some(SnakeAction::SelfCollision));
}

#[test]
fn test_fruit_regenerates_outside_walls() {
    let mut walls = Vec::new();
    for x in 0..20 {
        for y in 0..10 {
            walls.push(Wall::new(x, y, 1));
        }
    }
    let mut fruit = Fruit::new(0, 0);
    for _ in 0..20 {
        fruit.regenerate_outside_walls(&walls);
        assert!(!Wall::position_in_walls(fruit.pos, &walls));
        assert!(fruit.pos.x >= 0 && fruit.pos.x < 20);
        assert!(fruit.pos.y >= 0 && fruit.pos.y < 20);
    }
}
