use snake_game::command::{command_for_key, Command, Key};
use snake_game::direction::Direction;
use snake_game::game::{speed_for_score, Game, GameState, Outcome, SnakeColor};
use snake_game::point::{Point, PointError};
use snake_game::snake::Snake;

const ALL: [Direction; 4] = [Direction::Up, Direction::Right, Direction::Down, Direction::Left];

fn body(snake: &Snake) -> Vec<(u16, u16)> {
    snake.get_body_points().iter().map(|p| (p.x, p.y)).collect()
}

#[test]
fn opposite_pairs() {
    assert_eq!(Direction::Up.opposite(), Direction::Down);
    assert_eq!(Direction::Down.opposite(), Direction::Up);
    assert_eq!(Direction::Left.opposite(), Direction::Right);
    assert_eq!(Direction::Right.opposite(), Direction::Left);
}

#[test]
fn opposite_twice_is_identity() {
    for d in ALL {
        assert_eq!(d.opposite().opposite(), d);
    }
}

#[test]
fn transform_moves_along_each_direction() {
    let p = Point::new(5, 7);
    assert_eq!(p.transform(Direction::Up, 2), Ok(Point::new(5, 5)));
    assert_eq!(p.transform(Direction::Down, 2), Ok(Point::new(5, 9)));
    assert_eq!(p.transform(Direction::Left, 5), Ok(Point::new(0, 7)));
    assert_eq!(p.transform(Direction::Right, 3), Ok(Point::new(8, 7)));
}

#[test]
fn transform_reports_underflow_and_overflow() {
    let p = Point::new(0, 0);
    assert_eq!(p.transform(Direction::Up, 1), Err(PointError::CoordinateUnderflow));
    assert_eq!(p.transform(Direction::Left, 1), Err(PointError::CoordinateUnderflow));
    let q = Point::new(u16::MAX, u16::MAX);
    assert_eq!(q.transform(Direction::Down, 1), Err(PointError::CoordinateOverflow));
    assert_eq!(q.transform(Direction::Right, 1), Err(PointError::CoordinateOverflow));
}

#[test]
fn snake_is_laid_out_behind_the_head() {
    let snake = Snake::new(Point::new(10, 10), 3, Direction::Right);
    assert_eq!(body(&snake), vec![(10, 10), (9, 10), (8, 10)]);
    assert_eq!(snake.get_direction(), Direction::Right);
    let up = Snake::new(Point::new(4, 4), 2, Direction::Up);
    assert_eq!(body(&up), vec![(4, 4), (4, 5)]);
}

#[test]
fn snake_of_length_zero_has_a_head() {
    let snake = Snake::new(Point::new(3, 3), 0, Direction::Left);
    assert_eq!(body(&snake), vec![(3, 3)]);
}

#[test]
fn slither_after_start_moves_the_body() {
    let mut snake = Snake::new(Point::new(10, 10), 3, Direction::Right);
    snake.slither();
    assert_eq!(body(&snake), vec![(11, 10), (10, 10), (9, 10)]);
}

#[test]
fn slither_keeps_length_and_moves_head() {
    for d in ALL {
        let mut snake = Snake::new(Point::new(10, 10), 4, d);
        let head = snake.get_head_point();
        snake.slither();
        assert_eq!(snake.get_body_points().len(), 4);
        assert_eq!(Ok(snake.get_head_point()), head.transform(d, 1));
    }
}

#[test]
fn grow_prepends_a_head() {
    let mut snake = Snake::new(Point::new(10, 10), 3, Direction::Down);
    let before = body(&snake);
    snake.grow();
    let after = body(&snake);
    assert_eq!(after.len(), before.len() + 1);
    assert_eq!(after[0], (10, 11));
    assert_eq!(after[1..].to_vec(), before);
}

#[test]
fn contains_point_checks_every_segment() {
    let snake = Snake::new(Point::new(10, 10), 3, Direction::Right);
    assert!(snake.contains_point(&Point::new(10, 10)));
    assert!(snake.contains_point(&Point::new(8, 10)));
    assert!(!snake.contains_point(&Point::new(7, 10)));
    assert!(!snake.contains_point(&Point::new(11, 10)));
}

#[test]
fn set_direction_is_unconditional() {
    let mut snake = Snake::new(Point::new(10, 10), 3, Direction::Right);
    snake.set_direction(Direction::Left);
    assert_eq!(snake.get_direction(), Direction::Left);
}

#[test]
fn game_starts_in_the_middle() {
    let game = Game::with_direction(20, 20, Direction::Right);
    assert_eq!(body(game.snake()), vec![(10, 10), (9, 10), (8, 10)]);
    assert_eq!(game.score(), 0);
    assert_eq!(game.speed(), 0);
    assert_eq!(game.food(), None);
    assert_eq!(game.state(), GameState::Running);
    assert_eq!((game.width(), game.height()), (20, 20));
}

#[test]
fn random_start_heads_somewhere() {
    let game = Game::new(20, 20);
    let d = game.snake().get_direction();
    let start = Snake::new(Point::new(10, 10), 3, d);
    assert_eq!(body(game.snake()), body(&start));
}

#[test]
fn wall_ahead_on_the_right_edge() {
    let mut game = Game::with_direction(20, 20, Direction::Right);
    for _ in 0..9 {
        assert!(!game.has_collided_with_wall());
        assert_eq!(game.step(), Outcome::Moved);
    }
    assert_eq!(game.snake().get_head_point(), Point::new(19, 10));
    assert!(game.has_collided_with_wall());
    assert_eq!(game.step(), Outcome::Stopped);
    assert_eq!(game.state(), GameState::GameOver);
    assert_eq!(game.snake().get_head_point(), Point::new(19, 10));
}

#[test]
fn wall_ahead_on_the_top_edge() {
    let mut game = Game::with_direction(20, 20, Direction::Up);
    for _ in 0..10 {
        assert_eq!(game.step(), Outcome::Moved);
    }
    assert_eq!(game.snake().get_head_point(), Point::new(10, 0));
    assert!(game.has_collided_with_wall());
}

#[test]
fn speed_threshold_on_twenty_by_twenty() {
    assert_eq!(speed_for_score(0, 20, 20), 0);
    assert_eq!(speed_for_score(49, 20, 20), 0);
    assert_eq!(speed_for_score(50, 20, 20), 1);
    assert_eq!(speed_for_score(99, 20, 20), 1);
    assert_eq!(speed_for_score(100, 20, 20), 2);
    assert_eq!(speed_for_score(400, 20, 20), 8);
    assert_eq!(speed_for_score(1000, 20, 20), 8);
}

#[test]
fn interval_follows_speed() {
    let game = Game::with_direction(20, 20, Direction::Right);
    assert_eq!(game.calculate_interval(), 128);
}

#[test]
fn reversal_is_ignored_within_a_tick() {
    let mut game = Game::with_direction(20, 20, Direction::Up);
    let baseline = game.snake().get_direction();
    game.handle_command(baseline, Command::Turn(Direction::Down));
    assert_eq!(game.snake().get_direction(), Direction::Up);
}

#[test]
fn turn_rule_against_baseline() {
    for d in ALL {
        for x in ALL {
            let mut game = Game::with_direction(20, 20, d);
            game.request_turn(d, x);
            let expected = if x == d || x == d.opposite() { d } else { x };
            assert_eq!(game.snake().get_direction(), expected);
        }
    }
}

#[test]
fn two_quick_turns_cannot_reverse() {
    let mut game = Game::with_direction(20, 20, Direction::Right);
    let baseline = game.snake().get_direction();
    game.handle_command(baseline, Command::Turn(Direction::Up));
    game.handle_command(baseline, Command::Turn(Direction::Left));
    assert_eq!(game.snake().get_direction(), Direction::Up);
}

#[test]
fn quit_ends_the_round() {
    let mut game = Game::with_direction(20, 20, Direction::Right);
    game.handle_command(Direction::Right, Command::Quit);
    assert_eq!(game.state(), GameState::GameOver);
    assert_eq!(game.step(), Outcome::Stopped);
    assert_eq!(body(game.snake()), vec![(10, 10), (9, 10), (8, 10)]);
}

#[test]
fn eating_grows_and_scores() {
    let mut game = Game::with_direction(20, 20, Direction::Right);
    assert!(game.offer_food(Point::new(11, 10)));
    assert_eq!(game.step(), Outcome::Ate);
    assert_eq!(body(game.snake()), vec![(11, 10), (10, 10), (9, 10), (8, 10)]);
    assert_eq!(game.score(), 1);
    assert_eq!(game.speed(), 0);
    assert_eq!(game.food(), None);
}

#[test]
fn advance_replaces_eaten_food() {
    let mut game = Game::with_direction(20, 20, Direction::Right);
    assert!(game.offer_food(Point::new(11, 10)));
    assert_eq!(game.advance(), Outcome::Ate);
    let food = game.food().expect("new food");
    assert!(food.x < 20 && food.y < 20);
    assert!(!game.snake().contains_point(&food));
}

#[test]
fn food_is_not_offered_on_the_snake_or_off_the_board() {
    let mut game = Game::with_direction(20, 20, Direction::Right);
    assert!(!game.offer_food(Point::new(9, 10)));
    assert!(!game.offer_food(Point::new(20, 3)));
    assert!(!game.offer_food(Point::new(3, 20)));
    assert_eq!(game.food(), None);
}

#[test]
fn placed_food_avoids_the_snake() {
    for _ in 0..200 {
        let mut game = Game::with_direction(4, 4, Direction::Right);
        game.place_food();
        let food = game.food().expect("a free cell exists");
        assert!(food.x < 4 && food.y < 4);
        assert!(!game.snake().contains_point(&food));
    }
}

#[test]
fn biting_itself_is_detected() {
    let mut game = Game::with_direction(20, 20, Direction::Right);
    assert!(game.offer_food(Point::new(11, 10)));
    assert_eq!(game.step(), Outcome::Ate);
    assert!(game.offer_food(Point::new(12, 10)));
    assert_eq!(game.step(), Outcome::Ate);
    // body: (12,10) (11,10) (10,10) (9,10) (8,10); turn down, left, then up into it
    let b = game.snake().get_direction();
    game.request_turn(b, Direction::Down);
    assert_eq!(game.step(), Outcome::Moved);
    let b = game.snake().get_direction();
    game.request_turn(b, Direction::Left);
    assert_eq!(game.step(), Outcome::Moved);
    // body: (11,11) (12,11) (12,10) (11,10) (10,10)
    let b = game.snake().get_direction();
    game.request_turn(b, Direction::Up);
    assert!(game.has_bitten_itself());
    assert_eq!(game.step(), Outcome::Stopped);
    assert_eq!(game.state(), GameState::GameOver);
}

#[test]
fn moving_into_the_vacated_tail_is_allowed() {
    let mut game = Game::with_direction(20, 20, Direction::Right);
    assert!(game.offer_food(Point::new(11, 10)));
    assert_eq!(game.step(), Outcome::Ate);
    // body: (11,10) (10,10) (9,10) (8,10); walk a square back onto the tail cell
    let b = game.snake().get_direction();
    game.request_turn(b, Direction::Down);
    assert_eq!(game.step(), Outcome::Moved);
    let b = game.snake().get_direction();
    game.request_turn(b, Direction::Left);
    assert_eq!(game.step(), Outcome::Moved);
    // body: (10,11) (11,11) (11,10) (10,10)
    let b = game.snake().get_direction();
    game.request_turn(b, Direction::Up);
    assert!(!game.has_bitten_itself());
    assert_eq!(game.step(), Outcome::Moved);
}

#[test]
fn keys_map_to_commands() {
    assert_eq!(command_for_key(Key::Char('q'), false), Some(Command::Quit));
    assert_eq!(command_for_key(Key::Char('Q'), false), Some(Command::Quit));
    assert_eq!(command_for_key(Key::Esc, false), Some(Command::Quit));
    assert_eq!(command_for_key(Key::Char('c'), true), Some(Command::Quit));
    assert_eq!(command_for_key(Key::Char('c'), false), None);
    assert_eq!(command_for_key(Key::Up, false), Some(Command::Turn(Direction::Up)));
    assert_eq!(command_for_key(Key::Char('W'), false), Some(Command::Turn(Direction::Up)));
    assert_eq!(command_for_key(Key::Char('d'), false), Some(Command::Turn(Direction::Right)));
    assert_eq!(command_for_key(Key::Down, false), Some(Command::Turn(Direction::Down)));
    assert_eq!(command_for_key(Key::Char('a'), false), Some(Command::Turn(Direction::Left)));
    assert_eq!(command_for_key(Key::Char('x'), false), None);
    assert_eq!(command_for_key(Key::Other, false), None);
}

#[test]
fn frame_shows_border_snake_and_food() {
    let mut game = Game::with_direction(6, 4, Direction::Right);
    assert!(game.offer_food(Point::new(5, 0)));
    let frame: Vec<String> = game.render().iter().map(|r| r.iter().collect()).collect();
    assert_eq!(
        frame,
        vec![
            "########".to_string(),
            "#     A#".to_string(),
            "#      #".to_string(),
            "# ssS  #".to_string(),
            "#      #".to_string(),
            "########".to_string(),
        ]
    );
}

#[test]
fn snake_color_cycles_with_speed() {
    let game = Game::with_direction(20, 20, Direction::Right);
    assert_eq!(game.snake_color(), SnakeColor::Green);
}
