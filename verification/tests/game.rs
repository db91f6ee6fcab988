use snake::game::{Apple, Board, Game, Point};
use snake::snake::{Direction, Snake};

fn body_points(game: &Game) -> Vec<Point> {
    game.snake.body.to_vec()
}

fn apple_on_body(game: &Game) -> bool {
    body_points(game).iter().any(|p| {
        p.x == game.apple.location.x && p.y == game.apple.location.y
    })
}

#[test]
fn new_game_scenario() {
    for _ in 0..50 {
        let game = Game::new();
        assert_eq!(game.board.width, 10);
        assert_eq!(game.board.height, 10);
        assert_eq!(body_points(&game), vec![Point { x: 0, y: 0 }]);
        assert_eq!(game.snake.direction, Direction::Down);
        assert_eq!(game.score, 0);
        assert!(!game.lost);
        assert_ne!(game.apple.location, Point { x: 0, y: 0 });
        assert!(game.apple.location.x >= 0 && game.apple.location.x < 10);
        assert!(game.apple.location.y >= 0 && game.apple.location.y < 10);
        assert!(game.is_well_formed());
    }
}

#[test]
fn off_top_edge_loses_and_changes_nothing_else() {
    let mut game = Game::new();
    game.update_direction(Direction::Up);
    let board_before = game.board.state.clone();
    let apple_before = game.apple.location;
    game.update();
    assert!(game.lost);
    assert_eq!(game.score, 0);
    assert_eq!(body_points(&game), vec![Point { x: 0, y: 0 }]);
    assert_eq!(game.board.state, board_before);
    assert_eq!(game.apple.location, apple_before);
}

#[test]
fn eating_tick_grows_by_one_and_scores_five() {
    let mut game = Game::new();
    game.apple = Apple::new((0, 1)); // directly below the head, facing Down
    game.update();
    assert!(!game.lost);
    assert_eq!(game.score, 5);
    assert_eq!(
        body_points(&game),
        vec![Point { x: 0, y: 1 }, Point { x: 0, y: 0 }]
    );
    assert!(!apple_on_body(&game));
}

#[test]
fn non_eating_tick_keeps_length_score_and_apple() {
    let mut game = Game::new();
    game.apple = Apple::new((5, 5));
    game.update();
    assert!(!game.lost);
    assert_eq!(game.score, 0);
    assert_eq!(body_points(&game), vec![Point { x: 0, y: 1 }]);
    assert_eq!(game.apple.location, Point { x: 5, y: 5 });
}

#[test]
fn apple_never_on_body_after_any_completed_tick() {
    // Walk the whole board back and forth; eat whatever is on the way.
    let mut game = Game::new();
    let mut heading_right = true;
    for _ in 0..300 {
        if game.lost {
            break;
        }
        let head = game.snake.body.front().unwrap();
        let dir = if heading_right {
            if head.x < 9 {
                Direction::Right
            } else {
                heading_right = false;
                Direction::Down
            }
        } else {
            if head.x > 0 {
                Direction::Left
            } else {
                heading_right = true;
                Direction::Down
            }
        };
        game.update_direction(dir);
        game.update();
        if !game.lost {
            assert!(!apple_on_body(&game), "apple landed on the snake body");
        }
        assert!(game.is_well_formed());
    }
}

#[test]
fn update_on_a_lost_game_is_a_no_op() {
    let mut game = Game::new();
    game.update_direction(Direction::Up);
    game.update();
    assert!(game.lost);
    let board_before = game.board.state.clone();
    let score_before = game.score;
    game.update();
    assert!(game.lost);
    assert_eq!(game.score, score_before);
    assert_eq!(game.board.state, board_before);
    assert_eq!(body_points(&game), vec![Point { x: 0, y: 0 }]);
}

#[test]
fn get_possible_states_returns_four_in_order() {
    let game = Game::new();
    let states = game.get_possible_states();
    assert_eq!(states.len(), 4);
    assert_eq!(states[0].0, Direction::Up);
    assert_eq!(states[1].0, Direction::Down);
    assert_eq!(states[2].0, Direction::Left);
    assert_eq!(states[3].0, Direction::Right);
    // From (0, 0): Up and Left run off the board, Down and Right survive.
    assert!(states[0].1.lost);
    assert!(!states[1].1.lost);
    assert!(states[2].1.lost);
    assert!(!states[3].1.lost);
    assert_eq!(
        states[1].1.snake.body.to_vec(),
        vec![Point { x: 0, y: 1 }]
    );
    assert_eq!(
        states[3].1.snake.body.to_vec(),
        vec![Point { x: 1, y: 0 }]
    );
}

#[test]
fn get_possible_states_never_mutates_the_game() {
    let mut game = Game::new();
    game.apple = Apple::new((0, 1));
    let score_before = game.score;
    let lost_before = game.lost;
    let apple_before = game.apple.location;
    let body_before = body_points(&game);
    let direction_before = game.snake.direction;
    let board_before = game.board.state.clone();
    let _states = game.get_possible_states();
    assert_eq!(game.score, score_before);
    assert_eq!(game.lost, lost_before);
    assert_eq!(game.apple.location, apple_before);
    assert_eq!(body_points(&game), body_before);
    assert_eq!(game.snake.direction, direction_before);
    assert_eq!(game.board.state, board_before);
}

#[test]
fn speculative_states_never_eat_or_score() {
    let mut game = Game::new();
    game.apple = Apple::new((0, 1)); // right where a Down move would eat
    let states = game.get_possible_states();
    let down = &states[1].1;
    assert!(!down.lost);
    assert_eq!(down.score, 0);
    assert_eq!(down.snake.body.len(), 1);
    assert_eq!(down.apple.location, Point { x: 0, y: 1 });
}

#[test]
fn reset_restores_the_initial_state() {
    let mut game = Game::new();
    game.apple = Apple::new((0, 1));
    game.update();
    assert_eq!(game.score, 5);
    game.reset();
    assert_eq!(body_points(&game), vec![Point { x: 0, y: 0 }]);
    assert_eq!(game.snake.direction, Direction::Down);
    assert_eq!(game.score, 0);
    assert!(!game.lost);
    assert!(!apple_on_body(&game));
    assert!(game.is_well_formed());
}

#[test]
fn check_loss_detects_each_wall_and_nothing_else() {
    let game = Game::new();
    assert!(game.check_loss(&Point { x: -1, y: 0 }));
    assert!(game.check_loss(&Point { x: 10, y: 0 }));
    assert!(game.check_loss(&Point { x: 0, y: -1 }));
    assert!(game.check_loss(&Point { x: 0, y: 10 }));
    assert!(!game.check_loss(&Point { x: 9, y: 9 }));
    assert!(!game.check_loss(&Point { x: 0, y: 0 }));
}

#[test]
fn self_collision_needs_a_repeated_head_cell() {
    let mut snake = Snake::new();
    snake.body.push_back(Point { x: 0, y: 1 });
    assert!(!snake.check_self_collision());
    snake.body.push_back(Point { x: 0, y: 0 });
    assert!(snake.check_self_collision());
}

#[test]
fn slither_advances_one_cell_keeping_length() {
    let mut snake = Snake::new();
    snake.direction = Direction::Right;
    snake.slither();
    assert_eq!(snake.body.to_vec(), vec![Point { x: 1, y: 0 }]);
    snake.body.push_back(Point { x: 0, y: 0 });
    snake.direction = Direction::Down;
    snake.slither();
    assert_eq!(
        snake.body.to_vec(),
        vec![Point { x: 1, y: 1 }, Point { x: 1, y: 0 }]
    );
}

#[test]
fn board_new_shows_head_and_apple_only() {
    let snake = Snake::new();
    let apple = Apple::new((2, 1));
    let board = Board::new(3, 2, &snake, &apple);
    assert_eq!(board.width, 3);
    assert_eq!(board.height, 2);
    assert_eq!(board.state, vec![vec![1, 0, 0], vec![0, 0, 2]]);
}

#[test]
fn update_redraws_the_whole_body_and_apple() {
    let mut game = Game::new();
    game.apple = Apple::new((3, 4));
    game.update(); // head moves to (0, 1)
    assert_eq!(game.board.state[1][0], 1);
    assert_eq!(game.board.state[4][3], 2);
    let mut ones = 0;
    let mut twos = 0;
    for row in game.board.state.iter() {
        for cell in row.iter() {
            match cell {
                0 => {}
                1 => ones += 1,
                2 => twos += 1,
                _ => panic!("unexpected cell code"),
            }
        }
    }
    assert_eq!(ones, 1);
    assert_eq!(twos, 1);
}

#[test]
fn rand_apple_stays_on_the_grid() {
    for _ in 0..100 {
        let apple = Apple::rand_apple(3, 4);
        assert!(apple.location.x >= 0 && apple.location.x < 3);
        assert!(apple.location.y >= 0 && apple.location.y < 4);
    }
}

#[test]
fn rand_apple_on_a_single_cell_grid_is_forced() {
    for _ in 0..10 {
        let apple = Apple::rand_apple(1, 1);
        assert_eq!(apple.location, Point { x: 0, y: 0 });
    }
}

#[test]
fn from_list_picks_a_member() {
    let only = vec![Point { x: 2, y: 3 }];
    assert_eq!(Apple::from_list(only).location, Point { x: 2, y: 3 });
    let list = vec![Point { x: 1, y: 1 }, Point { x: 4, y: 5 }];
    for _ in 0..20 {
        let picked = Apple::from_list(list.clone()).location;
        assert!(picked == list[0] || picked == list[1]);
    }
}

#[test]
fn feature_reads_match_their_definitions() {
    let mut game = Game::new();
    game.apple = Apple::new((3, 4));
    assert_eq!(game.snake_length(), 1);
    assert_eq!(game.direction_code(), 1); // Down
    game.update_direction(Direction::Right);
    assert_eq!(game.direction_code(), 3);
    assert_eq!(game.apple_distance(), 7); // |3-0| + |4-0|
    assert_eq!(game.head_row(), 0);
    assert_eq!(game.head_column(), 0);
    game.update();
    assert_eq!(game.head_column(), 1);
    assert_eq!(game.head_row(), 0);
    assert_eq!(game.apple_distance(), 6);
}

#[test]
fn direction_codes_cover_all_four() {
    let mut game = Game::new();
    let expected = [
        (Direction::Up, 0),
        (Direction::Down, 1),
        (Direction::Left, 2),
        (Direction::Right, 3),
    ];
    for (dir, code) in expected.iter() {
        game.update_direction(*dir);
        assert_eq!(game.direction_code(), *code);
    }
}

#[test]
fn is_well_formed_rejects_a_broken_state() {
    let mut game = Game::new();
    assert!(game.is_well_formed());
    game.apple = Apple::new((42, 0));
    assert!(!game.is_well_formed());
    let mut game2 = Game::new();
    game2.board.width = 0;
    assert!(!game2.is_well_formed());
}
