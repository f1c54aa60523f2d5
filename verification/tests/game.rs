use push2_pong::ball::Ball;
use push2_pong::game::{ConfigError, Game};
use push2_pong::geometry::Point;
use push2_pong::input::MidiMessage;

fn new_game() -> Game {
    match Game::new(960, 160) {
        Ok(game) => game,
        Err(error) => panic!("no game: {:?}", error),
    }
}

fn assert_ball(ball: Ball, x: i32, y: i32, speed_x: i32, speed_y: i32) {
    assert_eq!(ball.position, Point::new(x, y));
    assert_eq!(ball.speed_x, speed_x);
    assert_eq!(ball.speed_y, speed_y);
}

#[test]
fn a_game_starts_with_the_ball_on_the_centre() {
    let game = new_game();
    assert_eq!(game.width(), 960);
    assert_eq!(game.height(), 160);
    assert_eq!(game.player1().position, Point::new(909, 80));
    assert_eq!(game.player1().size.width, 5);
    assert_eq!(game.player1().size.height, 25);
    assert_eq!(game.player2().position, Point::new(50, 80));
    assert_eq!(game.player2().size.width, 5);
    assert_eq!(game.player2().size.height, 25);
    assert_ball(game.ball(), 480, 80, 3, 0);
    assert_eq!(game.ball().diameter, 9);
    assert!(!game.touching());
    assert_eq!(game.score().score_1(), 0);
    assert_eq!(game.score().score_2(), 0);
    assert_eq!(game.score().best_of(), 5);
}

#[test]
fn a_field_without_cells_is_refused() {
    assert!(matches!(Game::new(0, 160), Err(ConfigError::EmptyField)));
    assert!(matches!(Game::new(960, 0), Err(ConfigError::EmptyField)));
    assert!(matches!(Game::new(-1, 160), Err(ConfigError::EmptyField)));
    assert!(matches!(Game::new(960, i32::MIN), Err(ConfigError::EmptyField)));
    assert!(Game::new(1, 1).is_ok());
    assert!(Game::new(i32::MAX, i32::MAX).is_ok());
}

#[test]
fn input_moves_the_paddles_of_a_game() {
    let mut game = new_game();
    game.handle_input(&vec![MidiMessage::Y(-5), MidiMessage::X2(7), MidiMessage::Y2(63)]);
    game.handle_input(&vec![MidiMessage::Y2(63), MidiMessage::X(63)]);
    assert_eq!(game.player1().position, Point::new(959, 75));
    assert_eq!(game.player2().position, Point::new(57, 159));
    assert_ball(game.ball(), 480, 80, 3, 0);
}

#[test]
fn a_served_ball_with_nothing_in_its_way_scores_after_160_ticks() {
    let mut game = new_game();
    // Paddle 1 goes down, out of the way of the ball.
    game.handle_input(&vec![MidiMessage::Y(63)]);
    assert_eq!(game.player1().position, Point::new(909, 143));
    for tick in 1..160 {
        game.tick();
        assert_ball(game.ball(), 480 + 3 * tick, 80, 3, 0);
        assert!(!game.touching());
        assert_eq!(game.score().score_1(), 0);
    }
    assert_ball(game.ball(), 957, 80, 3, 0);
    game.tick();
    assert_ball(game.ball(), 480, 80, -3, 0);
    assert_eq!(game.score().score_1(), 1);
    assert_eq!(game.score().score_2(), 0);
}

#[test]
fn a_served_ball_is_returned_by_a_paddle_that_waits() {
    let mut game = new_game();
    for _ in 0..142 {
        game.tick();
    }
    assert_ball(game.ball(), 906, 80, 3, 0);
    assert!(!game.touching());
    // The ball reaches the edge of paddle 1 at its top end.
    game.tick();
    assert_ball(game.ball(), 909, 80, -3, 0);
    assert!(game.touching());
    // It leaves along the way it came: the contact lasts one more tick.
    game.tick();
    assert_ball(game.ball(), 906, 80, -3, 0);
    assert!(game.touching());
    game.tick();
    assert_ball(game.ball(), 903, 80, -3, 0);
    assert!(!game.touching());
}

#[test]
fn a_moving_paddle_hands_its_speed_to_the_ball() {
    let mut game = new_game();
    for _ in 0..142 {
        game.tick();
    }
    // The paddle has gone up by eight rows since the last tick.
    game.handle_input(&vec![MidiMessage::Y(-5), MidiMessage::Y(-3)]);
    game.tick();
    assert_ball(game.ball(), 909, 80, -3, -8);
    assert!(game.touching());
    // The paddle rests: its speed is gone, the ball keeps what it got.
    game.tick();
    assert_ball(game.ball(), 906, 72, -3, -8);
}

#[test]
fn a_paddle_that_moved_before_the_last_tick_has_no_speed() {
    let mut game = new_game();
    for _ in 0..141 {
        game.tick();
    }
    game.handle_input(&vec![MidiMessage::Y(-8)]);
    game.tick();
    assert_ball(game.ball(), 906, 80, 3, 0);
    game.tick();
    assert_ball(game.ball(), 909, 80, -3, 0);
}

#[test]
fn five_goals_end_the_round() {
    let mut game = new_game();
    game.handle_input(&vec![MidiMessage::Y(63)]);
    game.handle_input(&vec![MidiMessage::Y2(63)]);
    // Serves go right, left, right, ...: the players score in turn, and
    // player 1 scores first.
    let mut goals = 0;
    let mut ticks = 0;
    while goals < 9 {
        let before = game.score().score_1() + game.score().score_2();
        assert!(game.try_tick());
        ticks += 1;
        assert!(ticks < 10_000);
        let after = game.score().score_1() + game.score().score_2();
        if after != before {
            goals += 1;
            if goals < 9 {
                assert_eq!(game.score().score_1(), (goals + 1) / 2);
                assert_eq!(game.score().score_2(), goals / 2);
            }
        }
    }
    // The ninth goal is the fifth of player 1.
    assert_eq!(game.score().score_1(), 0);
    assert_eq!(game.score().score_2(), 0);
    assert_eq!(game.score().winner(), 0);
}

#[test]
fn the_smallest_field_scores_on_every_tick() {
    let mut game = match Game::new(1, 1) {
        Ok(game) => game,
        Err(error) => panic!("no game: {:?}", error),
    };
    assert_ball(game.ball(), 0, 0, 3, 0);
    assert!(game.try_tick());
    assert_ball(game.ball(), 0, 0, -3, 0);
    assert_eq!(game.score().score_1(), 1);
    assert!(game.try_tick());
    assert_ball(game.ball(), 0, 0, 3, 0);
    assert_eq!(game.score().score_1(), 2);
}
