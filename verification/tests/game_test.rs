use snake::elements::{Snake, Fruit, Wall, SnakeAction, Direction, Position};
use snake::game::Game;

fn snake_at(x: i16, y: i16, direction: Direction, empowered: bool) -> Snake {
    Snake { head: Position::new(x, y), body: Vec::new(), direction, state: None, empowered }
}

#[test]
fn test_opposite_rejects_exactly_reversals() {
    let directions = [Direction::Up, Direction::Down, Direction::Left, Direction::Right];
    for current in directions {
        let game = Game::from_parts(
            snake_at(5, 5, current, false),
            Fruit::new(15, 15),
            Vec::new(),
            0,
            0,
        );
        for requested in directions {
            let is_reversal = matches!(
                (current, requested),
                (Direction::Up, Direction::Down)
                    | (Direction::Down, Direction::Up)
                    | (Direction::Left, Direction::Right)
                    | (Direction::Right, Direction::Left)
            );
            assert_eq!(game.opposite(requested), is_reversal);
        }
    }
}

#[test]
fn test_tick_applies_input_unless_reversal() {
    let mut game = Game::from_parts(snake_at(10, 10, Direction::Right, false), Fruit::new(0, 0), Vec::new(), 0, 0);
    game.tick(Some(Direction::Left));
    assert_eq!(game.snake.get_direction(), Direction::Right);
    assert_eq!(game.snake.get_head(), Position::new(11, 10));

    game.tick(Some(Direction::Up));
    assert_eq!(game.snake.get_direction(), Direction::Up);
    assert_eq!(game.snake.get_head(), Position::new(11, 9));
}

#[test]
fn test_tick_ate_fruit_scenario() {
    let mut game = Game::from_parts(
        snake_at(14, 15, Direction::Right, false),
        Fruit::new(15, 15),
        Vec::new(),
        0,
        0,
    );
    let body_len_before = game.snake.body.len();
    let walls_before = game.walls.len();

    game.tick(None);

    assert_eq!(game.snake.get_state(), Some(SnakeAction::AteFruit));
    assert_eq!(game.score, 1);
    assert_eq!(game.snake.body.len(), body_len_before + 1);
    assert_eq!(game.walls.len(), walls_before + 1);
    assert_eq!(game.walls[walls_before].blocks.len(), 8);
    assert!(!Wall::position_in_walls(game.fruit.pos, &game.walls));
}

#[test]
fn test_tick_fruit_priority_over_wall() {
    let mut game = Game::from_parts(
        snake_at(14, 15, Direction::Right, false),
        Fruit::new(15, 15),
        vec![Wall::new(15, 15, 1)],
        0,
        0,
    );

    game.tick(None);

    assert_eq!(game.snake.get_state(), Some(SnakeAction::AteFruit));
    assert_eq!(game.score, 1);
}

#[test]
fn test_tick_self_collision_resets_run() {
    let snake = Snake {
        head: Position::new(10, 10),
        body: vec![Position::new(11, 10), Position::new(11, 11), Position::new(10, 11)],
        direction: Direction::Right,
        state: None,
        empowered: true,
    };
    let mut game = Game::from_parts(snake, Fruit::new(0, 0), vec![Wall::new(3, 3, 8)], 7, 0);

    game.tick(None);

    assert_eq!(game.snake.get_state(), Some(SnakeAction::SelfCollision));
    assert_eq!(game.score, 0);
    assert_eq!(game.snake.body.len(), 0);
    assert_eq!(game.walls.len(), 0);
    assert!(!game.snake.is_empowered());
}

#[test]
fn test_tick_wall_collision_not_empowered() {
    let mut game = Game::from_parts(
        snake_at(14, 15, Direction::Right, false),
        Fruit::new(5, 5),
        vec![Wall::new(15, 15, 1)],
        4,
        0,
    );

    game.tick(None);

    assert_eq!(game.snake.get_state(), Some(SnakeAction::WallCollision));
    assert_eq!(game.score, 0);
    assert_eq!(game.snake.body.len(), 0);
    assert_eq!(game.walls.len(), 0);
}

#[test]
fn test_tick_wall_collision_empowered_destroys_wall() {
    let mut game = Game::from_parts(
        snake_at(14, 15, Direction::Right, true),
        Fruit::new(5, 5),
        vec![Wall::new(15, 15, 1), Wall::new(0, 0, 1)],
        4,
        0,
    );

    game.tick(None);

    assert_eq!(game.snake.get_state(), Some(SnakeAction::WallCollision));
    assert_eq!(game.walls.len(), 1);
    assert_eq!(game.walls[0].blocks[0], Position::new(0, 0));
    assert_eq!(game.destroyed_walls, 1);
    assert_eq!(game.score, 4);
    assert!(game.snake.is_empowered());
}

#[test]
fn test_tick_power_exhaustion_resets_counter() {
    let mut game = Game::from_parts(
        snake_at(14, 15, Direction::Right, true),
        Fruit::new(5, 5),
        vec![Wall::new(15, 15, 1)],
        4,
        2,
    );

    game.tick(None);

    assert_eq!(game.snake.get_state(), Some(SnakeAction::WallCollision));
    assert_eq!(game.destroyed_walls, 0);
    assert!(!game.snake.is_empowered());
}

#[test]
fn test_tick_empowerment_milestone() {
    let mut game = Game::from_parts(
        snake_at(14, 15, Direction::Right, false),
        Fruit::new(15, 15),
        Vec::new(),
        4,
        0,
    );

    game.tick(None);

    assert_eq!(game.score, 5);
    assert!(game.snake.is_empowered());
}

#[test]
fn test_tick_no_empowerment_before_milestone() {
    let mut game = Game::from_parts(
        snake_at(14, 15, Direction::Right, true),
        Fruit::new(15, 15),
        Vec::new(),
        2,
        0,
    );

    game.tick(None);

    assert_eq!(game.score, 3);
    assert!(!game.snake.is_empowered());
}

#[test]
fn test_new_game_initial_configuration() {
    let game = Game::new();
    assert_eq!(game.snake.get_head(), Position::new(5, 5));
    assert_eq!(game.snake.get_direction(), Direction::Right);
    assert_eq!(game.snake.body.len(), 0);
    assert_eq!(game.fruit.pos, Position::new(15, 15));
    assert_eq!(game.walls.len(), 1);
    assert_eq!(game.walls[0].blocks.len(), 8);
    assert_eq!(game.walls[0].blocks[0], Position::new(10, 10));
    assert_eq!(game.score, 0);
    assert_eq!(game.destroyed_walls, 0);
}

#[test]
fn test_remove_wall_keeps_other_walls() {
    let mut game = Game::from_parts(
        snake_at(0, 0, Direction::Right, false),
        Fruit::new(5, 5),
        vec![Wall::new(8, 8, 1), Wall::new(9, 9, 1), Wall::new(8, 8, 1)],
        0,
        0,
    );

    game.remove_wall(Position::new(8, 8));

    assert_eq!(game.walls.len(), 1);
    assert_eq!(game.walls[0].blocks[0], Position::new(9, 9));
    assert_eq!(game.destroyed_walls, 1);
}
