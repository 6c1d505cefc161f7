use pong::body::Body;
use pong::game::{Game, Phase};
use pong::input::KeyState;

const PX: i64 = 1_000_000_000;
const MS: u64 = 1_000_000;
const SECOND: u64 = 1_000_000_000;

fn no_keys() -> KeyState {
    KeyState { escape: false, left: false, right: false }
}

#[test]
fn new_game_has_three_lives_and_a_served_ball() {
    let game = Game::new(7);
    assert_eq!(
        game.ball,
        Body { x: 20 * PX, y: 20 * PX, width: 15 * PX, height: 15 * PX, vel_x: 300, vel_y: 300 }
    );
    assert_eq!(
        game.paddle,
        Body { x: 350 * PX, y: 560 * PX, width: 100 * PX, height: 20 * PX, vel_x: 0, vel_y: 0 }
    );
    assert_eq!(game.lives, 3);
    assert_eq!(game.score, 0);
    assert_eq!(game.phase, Phase::Running);
    assert!(game.running);
    assert_eq!(game.last_frame_time, 7);
    assert!(game.is_running());
    assert!(!game.is_paused());
    assert!(game.is_valid());
}

#[test]
fn free_flight_moves_the_ball_by_velocity_times_time() {
    let mut game = Game::new(0);
    game.update(16 * MS);
    assert_eq!(game.ball.x, 24_800_000_000);
    assert_eq!(game.ball.y, 24_800_000_000);
    assert_eq!(game.ball.vel_x, 300);
    assert_eq!(game.ball.vel_y, 300);
    assert_eq!(game.paddle.x, 350 * PX);
    assert_eq!(game.last_frame_time, 16 * MS);
    assert_eq!(game.phase, Phase::Running);
    assert_eq!(game.lives, 3);
    assert_eq!(game.score, 0);
}

#[test]
fn ball_at_the_left_wall_turns_back_once() {
    let mut game = Game::new(0);
    game.ball.x = 0;
    game.ball.vel_x = -300;
    game.update(10 * MS);
    assert_eq!(game.ball.x, -3 * PX);
    assert_eq!(game.ball.vel_x, 300);
    game.update(30 * MS);
    assert_eq!(game.ball.x, 3 * PX);
    assert_eq!(game.ball.vel_x, 300);
}

#[test]
fn ball_still_behind_the_wall_is_turned_again() {
    let mut game = Game::new(0);
    game.ball.x = 0;
    game.ball.vel_x = -300;
    game.update(10 * MS);
    game.update(20 * MS);
    assert_eq!(game.ball.x, 0);
    assert_eq!(game.ball.vel_x, -300);
}

#[test]
fn ball_flush_with_the_right_wall_bounces() {
    let mut game = Game::new(0);
    game.ball.x = 782 * PX;
    game.update(10 * MS);
    assert_eq!(game.ball.x, 785 * PX);
    assert_eq!(game.ball.vel_x, -300);
}

#[test]
fn ball_just_short_of_the_right_wall_flies_on() {
    let mut game = Game::new(0);
    game.ball.x = 782 * PX - 1;
    game.update(10 * MS);
    assert_eq!(game.ball.x, 785 * PX - 1);
    assert_eq!(game.ball.vel_x, 300);
}

#[test]
fn ball_flush_with_the_ceiling_bounces() {
    let mut game = Game::new(0);
    game.ball.y = 3 * PX;
    game.ball.vel_y = -300;
    game.update(10 * MS);
    assert_eq!(game.ball.y, 0);
    assert_eq!(game.ball.vel_y, 300);
}

#[test]
fn ball_just_below_the_ceiling_flies_on() {
    let mut game = Game::new(0);
    game.ball.y = 3 * PX + 1;
    game.ball.vel_y = -300;
    game.update(10 * MS);
    assert_eq!(game.ball.y, 1);
    assert_eq!(game.ball.vel_y, -300);
}

#[test]
fn paddle_is_stopped_at_the_left_wall() {
    let mut game = Game::new(0);
    game.paddle.x = PX;
    game.paddle.vel_x = -400;
    game.update(10 * MS);
    assert_eq!(game.paddle.x, 0);
}

#[test]
fn paddle_is_stopped_at_the_right_wall() {
    let mut game = Game::new(0);
    game.paddle.x = 699 * PX;
    game.paddle.vel_x = 400;
    game.update(10 * MS);
    assert_eq!(game.paddle.x, 700 * PX);
}

#[test]
fn paddle_between_the_walls_moves_freely() {
    let mut game = Game::new(0);
    game.paddle.vel_x = 400;
    game.update(10 * MS);
    assert_eq!(game.paddle.x, 354 * PX);
    game.paddle.vel_x = -400;
    game.update(30 * MS);
    assert_eq!(game.paddle.x, 346 * PX);
    assert_eq!(game.paddle.y, 560 * PX);
}

#[test]
fn paddle_is_stopped_even_after_a_very_long_frame() {
    let mut game = Game::new(0);
    game.paddle.vel_x = 400;
    game.ball.vel_x = 0;
    game.ball.vel_y = 0;
    game.update(u64::MAX);
    assert_eq!(game.paddle.x, 700 * PX);
}

#[test]
fn losing_the_last_life_ends_the_game() {
    let mut game = Game::new(0);
    game.lives = 1;
    game.ball.y = 584 * PX;
    game.update(10 * MS);
    assert!(!game.is_running());
    assert!(!game.running);
    assert_eq!(game.phase, Phase::Running);
    assert!(!game.is_paused());
    assert_eq!(game.lives, 0);
    assert_eq!(game.ball.x, 23 * PX);
    assert_eq!(game.ball.y, 587 * PX);
    let ended = game;
    game.update(SECOND);
    game.update(5 * SECOND);
    assert_eq!(game, ended);
}

#[test]
fn losing_a_life_with_two_left_pauses_play() {
    let mut game = Game::new(0);
    game.lives = 2;
    game.ball.y = 584 * PX;
    game.update(10 * MS);
    assert_eq!(game.lives, 1);
    assert!(game.is_paused());
    assert_eq!(game.phase, Phase::Paused { since: 10 * MS });
    assert_eq!(game.ball.x, 392_500_000_000);
    assert_eq!(game.ball.y, 292_500_000_000);
    assert_eq!(game.ball.vel_x, 0);
    assert_eq!(game.ball.vel_y, 0);
    assert!(game.is_running());
}

#[test]
fn losing_a_life_with_three_left_leaves_two() {
    let mut game = Game::new(0);
    game.ball.y = 584 * PX;
    game.update(10 * MS);
    assert_eq!(game.lives, 2);
    assert_eq!(game.phase, Phase::Paused { since: 10 * MS });
}

#[test]
fn ball_flush_with_the_floor_is_still_in_play() {
    let mut game = Game::new(0);
    game.ball.y = 582 * PX;
    game.update(10 * MS);
    assert_eq!(game.ball.y, 585 * PX);
    assert_eq!(game.lives, 3);
    assert_eq!(game.phase, Phase::Running);
}

#[test]
fn ball_one_step_below_the_floor_is_lost() {
    let mut game = Game::new(0);
    game.ball.y = 582 * PX + 1;
    game.update(10 * MS);
    assert_eq!(game.lives, 2);
    assert_eq!(game.phase, Phase::Paused { since: 10 * MS });
}

#[test]
fn pause_ends_with_a_serve_and_a_frame_that_moves_nothing() {
    let mut game = Game::new(0);
    game.lives = 2;
    game.phase = Phase::Paused { since: 0 };
    game.ball = Body { x: 392_500_000_000, y: 292_500_000_000, vel_x: 0, vel_y: 0, ..game.ball };
    game.last_frame_time = 0;
    game.update(2_100 * MS);
    assert_eq!(game.phase, Phase::ResetPending);
    assert_eq!(game.ball.vel_x, 300);
    assert_eq!(game.ball.vel_y, 300);
    assert_eq!(game.ball.x, 392_500_000_000);
    assert_eq!(game.ball.y, 292_500_000_000);
    assert_eq!(game.last_frame_time, 0);
    assert!(!game.is_paused());
    let served = game;
    game.update(2_116 * MS);
    assert_eq!(game.phase, Phase::Running);
    assert_eq!(game.ball, served.ball);
    assert_eq!(game.paddle, served.paddle);
    assert_eq!(game.last_frame_time, 2_116 * MS);
    game.update(2_126 * MS);
    assert_eq!(game.ball.x, 395_500_000_000);
    assert_eq!(game.ball.y, 295_500_000_000);
}

#[test]
fn serve_brings_a_stray_ball_back_to_the_centre() {
    let mut game = Game::new(0);
    game.phase = Phase::Paused { since: 5 };
    game.ball.x = 3 * PX;
    game.ball.y = 77 * PX;
    game.ball.vel_x = -300;
    game.ball.vel_y = 0;
    game.update(5 + 2 * SECOND);
    assert_eq!(
        game.ball,
        Body {
            x: 392_500_000_000,
            y: 292_500_000_000,
            width: 15 * PX,
            height: 15 * PX,
            vel_x: 300,
            vel_y: 300
        }
    );
}

#[test]
fn pause_lasts_exactly_two_seconds() {
    let mut game = Game::new(0);
    game.phase = Phase::Paused { since: 1_000 };
    let paused = game;
    game.update(1_000 + 2 * SECOND - 1);
    assert_eq!(game, paused);
    game.update(1_000 + 2 * SECOND);
    assert_eq!(game.phase, Phase::ResetPending);
}

#[test]
fn update_during_the_pause_changes_nothing() {
    let mut game = Game::new(0);
    game.ball.y = 584 * PX;
    game.paddle.vel_x = 400;
    game.update(10 * MS);
    let paused = game;
    game.update(500 * MS);
    game.update(1_500 * MS);
    assert_eq!(game, paused);
}

#[test]
fn pause_measured_with_a_clock_that_ran_backwards_does_not_end() {
    let mut game = Game::new(0);
    game.phase = Phase::Paused { since: 10 * SECOND };
    let paused = game;
    game.update(SECOND);
    assert_eq!(game, paused);
}

#[test]
fn full_round_from_lost_life_to_play() {
    let mut game = Game::new(0);
    game.ball.y = 584 * PX;
    game.update(10 * MS);
    assert_eq!(game.phase, Phase::Paused { since: 10 * MS });
    game.update(1_000 * MS);
    assert_eq!(game.phase, Phase::Paused { since: 10 * MS });
    game.update(2_010 * MS);
    assert_eq!(game.phase, Phase::ResetPending);
    game.update(2_026 * MS);
    assert_eq!(game.phase, Phase::Running);
    assert_eq!(game.ball.x, 392_500_000_000);
    game.update(2_036 * MS);
    assert_eq!(game.ball.x, 395_500_000_000);
    assert_eq!(game.lives, 2);
}

#[test]
fn ball_resting_on_the_paddle_scores_in_every_frame() {
    let mut game = Game::new(0);
    game.ball = Body { x: 390 * PX, y: 545 * PX, vel_x: 0, vel_y: 0, ..game.ball };
    let frames: u64 = 4;
    let mut frame: u64 = 1;
    while frame <= frames {
        game.update(frame * 10 * MS);
        frame += 1;
    }
    assert_eq!(game.score, 4);
    assert_eq!(game.lives, 3);
}

#[test]
fn ball_inside_the_paddle_scores_again_on_the_way_back() {
    let mut game = Game::new(0);
    game.ball.x = 390 * PX;
    game.ball.y = 544 * PX;
    game.ball.vel_x = 0;
    game.update(10 * MS);
    assert_eq!(game.ball.y, 547 * PX);
    assert_eq!(game.ball.vel_y, -300);
    assert_eq!(game.score, 1);
    game.update(11 * MS);
    assert_eq!(game.ball.y, 546_700_000_000);
    assert_eq!(game.ball.vel_y, 300);
    assert_eq!(game.score, 2);
}

#[test]
fn ball_touching_the_top_of_the_paddle_is_hit() {
    let mut game = Game::new(0);
    game.ball = Body { x: 390 * PX, y: 542 * PX, vel_x: 0, vel_y: 300, ..game.ball };
    game.update(10 * MS);
    assert_eq!(game.ball.y, 545 * PX);
    assert_eq!(game.ball.vel_y, -300);
    assert_eq!(game.score, 1);
}

#[test]
fn ball_just_above_the_paddle_is_not_hit() {
    let mut game = Game::new(0);
    game.ball = Body { x: 390 * PX, y: 542 * PX - 1, vel_x: 0, vel_y: 300, ..game.ball };
    game.update(10 * MS);
    assert_eq!(game.ball.vel_y, 300);
    assert_eq!(game.score, 0);
}

#[test]
fn ball_touching_the_left_end_of_the_paddle_is_hit() {
    let mut game = Game::new(0);
    game.ball = Body { x: 335 * PX, y: 550 * PX, vel_x: 0, vel_y: 0, ..game.ball };
    game.update(10 * MS);
    assert_eq!(game.score, 1);
    game.ball.x = 335 * PX - 1;
    game.update(20 * MS);
    assert_eq!(game.score, 1);
}

#[test]
fn ball_touching_the_right_end_of_the_paddle_is_hit() {
    let mut game = Game::new(0);
    game.ball = Body { x: 450 * PX, y: 550 * PX, vel_x: 0, vel_y: 0, ..game.ball };
    game.update(10 * MS);
    assert_eq!(game.score, 1);
    game.ball.x = 450 * PX + 1;
    game.update(20 * MS);
    assert_eq!(game.score, 1);
}

#[test]
fn paddle_meets_the_ball_where_it_was_carried_before_the_wall_stops_it() {
    let mut game = Game::new(0);
    game.paddle.x = 0;
    game.paddle.vel_x = -400;
    game.ball = Body { x: 80 * PX, y: 550 * PX, vel_x: 0, vel_y: 0, ..game.ball };
    game.update(100 * MS);
    assert_eq!(game.paddle.x, 0);
    assert_eq!(game.score, 0);
    game.paddle.vel_x = 0;
    game.update(200 * MS);
    assert_eq!(game.score, 1);
}

#[test]
fn ball_can_score_and_be_lost_in_one_frame() {
    let mut game = Game::new(0);
    game.ball = Body { x: 390 * PX, y: 584 * PX, vel_x: 0, vel_y: 300, ..game.ball };
    game.update(10 * MS);
    assert_eq!(game.score, 1);
    assert_eq!(game.lives, 2);
    assert_eq!(game.phase, Phase::Paused { since: 10 * MS });
    assert_eq!(game.ball.vel_y, 0);
}

#[test]
fn score_stops_at_the_largest_value() {
    let mut game = Game::new(0);
    game.score = i32::MAX;
    game.ball = Body { x: 390 * PX, y: 545 * PX, vel_x: 0, vel_y: 0, ..game.ball };
    game.update(10 * MS);
    assert_eq!(game.score, i32::MAX);
}

#[test]
fn clock_that_ran_backwards_counts_as_no_time() {
    let mut game = Game::new(100 * MS);
    game.update(50 * MS);
    assert_eq!(game.ball.x, 20 * PX);
    assert_eq!(game.ball.y, 20 * PX);
    assert_eq!(game.last_frame_time, 50 * MS);
    game.update(60 * MS);
    assert_eq!(game.ball.x, 23 * PX);
}

#[test]
fn ball_far_outside_stops_at_the_last_position_that_can_be_held() {
    let mut game = Game::new(0);
    game.ball.x = i64::MAX - 5;
    game.ball.y = i64::MIN + 5;
    game.ball.vel_y = -300;
    game.update(SECOND);
    assert_eq!(game.ball.x, i64::MAX);
    assert_eq!(game.ball.y, i64::MIN);
    assert_eq!(game.ball.vel_x, -300);
    assert_eq!(game.ball.vel_y, 300);
    assert_eq!(game.phase, Phase::Running);
}

#[test]
fn very_long_frame_loses_the_ball_without_overflow() {
    let mut game = Game::new(0);
    game.update(u64::MAX);
    assert_eq!(game.lives, 2);
    assert_eq!(game.phase, Phase::Paused { since: u64::MAX });
    assert_eq!(game.paddle.x, 350 * PX);
}

#[test]
fn lives_never_rise_and_score_never_falls_over_a_long_run() {
    let mut game = Game::new(0);
    game.paddle.vel_x = 0;
    let mut now: u64 = 0;
    let mut lives: i32 = game.lives;
    let mut score: i32 = game.score;
    let mut frames: u32 = 0;
    while frames < 5_000 && game.is_running() {
        now += 16 * MS;
        game.update(now);
        assert!(game.lives <= lives);
        assert!(game.score >= score);
        assert!(game.is_valid());
        lives = game.lives;
        score = game.score;
        frames += 1;
    }
    assert!(game.lives < 3);
}

#[test]
fn frame_takes_the_command_before_the_update() {
    let mut game = Game::new(0);
    game.frame(KeyState { escape: false, left: false, right: true }, 10 * MS);
    assert_eq!(game.paddle.vel_x, 400);
    assert_eq!(game.paddle.x, 354 * PX);
    assert_eq!(game.ball.x, 23 * PX);
    let mut other = Game::new(0);
    other.process_input(KeyState { escape: false, left: false, right: true });
    other.update(10 * MS);
    assert_eq!(game, other);
}

#[test]
fn frame_with_escape_stops_everything() {
    let mut game = Game::new(0);
    game.frame(KeyState { escape: true, left: true, right: false }, 10 * MS);
    assert!(!game.is_running());
    assert_eq!(game.ball.x, 20 * PX);
    assert_eq!(game.paddle.vel_x, 0);
    assert_eq!(game.lives, 3);
    game.frame(no_keys(), 20 * MS);
    assert_eq!(game.ball.x, 20 * PX);
    assert_eq!(game.paddle.x, 350 * PX);
    assert_eq!(game.phase, Phase::Running);
    assert!(!game.is_running());
}

#[test]
fn reset_ball_serves_from_the_centre() {
    let mut game = Game::new(0);
    game.ball.x = 700 * PX;
    game.ball.y = 10 * PX;
    game.ball.vel_x = -300;
    game.ball.vel_y = 0;
    game.reset_ball();
    assert_eq!(game.ball.x, 392_500_000_000);
    assert_eq!(game.ball.y, 292_500_000_000);
    assert_eq!(game.ball.vel_x, 300);
    assert_eq!(game.ball.vel_y, 300);
    assert_eq!(game.ball.width, 15 * PX);
    assert_eq!(game.phase, Phase::Running);
}

#[test]
fn validity_check_finds_a_state_the_game_never_reaches() {
    let mut game = Game::new(0);
    assert!(game.is_valid());
    game.lives = 4;
    assert!(!game.is_valid());
    game.lives = 0;
    assert!(!game.is_valid());
    game.running = false;
    assert!(game.is_valid());
    game.paddle.x = -1;
    assert!(!game.is_valid());
    game.paddle.x = 700 * PX;
    assert!(game.is_valid());
    game.ball.vel_x = 301;
    assert!(!game.is_valid());
    game.ball.vel_x = -300;
    game.score = -1;
    assert!(!game.is_valid());
}

#[test]
fn game_left_during_a_pause_stays_paused_for_good() {
    let mut game = Game::new(0);
    game.ball.y = 584 * PX;
    game.update(10 * MS);
    assert_eq!(game.phase, Phase::Paused { since: 10 * MS });
    game.process_input(KeyState { escape: true, left: false, right: false });
    assert!(!game.is_running());
    assert!(game.is_paused());
    let left = game;
    game.update(3 * SECOND);
    game.update(6 * SECOND);
    assert_eq!(game, left);
    assert_eq!(game.phase, Phase::Paused { since: 10 * MS });
}

#[test]
fn game_left_before_the_serve_is_not_served() {
    let mut game = Game::new(0);
    game.phase = Phase::ResetPending;
    game.running = false;
    let left = game;
    game.update(SECOND);
    assert_eq!(game, left);
}
