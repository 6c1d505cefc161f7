//! What holds of every game, whatever the state and the times of its
//! updates.

use vstd::prelude::*;
use crate::body::{Body, FIELD_WIDTH};
use crate::game::{bumped, Game, Phase, PADDLE_WIDTH, PAUSE_NANOS, SERVE_SPEED};
use crate::render::{column_of, row_of, Rect, BACKGROUND, FOREGROUND, VIEW_WIDTH};
use crate::units::{elapsed_between, SCALE};

verus! {

proof fn lemma_travel_sign(vel: i64, dt: u64)
    ensures
        vel <= 0 ==> vel * dt <= 0,
        vel >= 0 ==> vel * dt >= 0,
{
    assert(vel <= 0 ==> vel * dt <= 0) by (nonlinear_arith)
        requires
            dt >= 0,
    ;
    assert(vel >= 0 ==> vel * dt >= 0) by (nonlinear_arith)
        requires
            dt >= 0,
    ;
}

/// An update keeps a valid game valid.
pub proof fn step_keeps_validity(game: Game, now: u64)
    requires
        game.wf(),
    ensures
        game.step(now).wf(),
{
}

/// Any number of updates keep a valid game valid.
pub proof fn run_keeps_validity(game: Game, times: Seq<u64>)
    requires
        game.wf(),
    ensures
        game.run(times).wf(),
    decreases times.len(),
{
    if times.len() > 0 {
        run_keeps_validity(game, times.drop_last());
        step_keeps_validity(game.run(times.drop_last()), times.last());
    }
}

/// Over any number of updates the lives never grow and the score never
/// shrinks.
pub proof fn counters_move_one_way(game: Game, times: Seq<u64>)
    requires
        game.wf(),
    ensures
        game.run(times).lives <= game.lives,
        game.run(times).score >= game.score,
    decreases times.len(),
{
    if times.len() > 0 {
        counters_move_one_way(game, times.drop_last());
        run_keeps_validity(game, times.drop_last());
    }
}

/// A game that is over is not changed by any number of further updates:
/// neither body moves again.
pub proof fn game_over_is_final(game: Game, times: Seq<u64>)
    requires
        !game.running,
    ensures
        game.run(times) == game,
    decreases times.len(),
{
    if times.len() > 0 {
        game_over_is_final(game, times.drop_last());
    }
}

/// In a frame of play the ball's horizontal velocity is turned round exactly
/// when the moved ball touches or has crossed a side wall, and then once
/// only; otherwise it is kept. (A frame in which the ball also sinks below
/// the field with a life to spare leaves it at rest instead.)
pub proof fn side_wall_turns_ball_once(game: Game, now: u64)
    requires
        game.wf(),
        game.running,
        game.phase is Running,
        game.ball.moved(elapsed_between(now, game.last_frame_time)).is_below_floor()
            ==> game.lives == 1,
    ensures
        game.step(now).ball.vel_x == (if game.ball.moved(
            elapsed_between(now, game.last_frame_time),
        ).meets_side_wall() {
            -game.ball.vel_x
        } else {
            game.ball.vel_x as int
        }),
        game.step(now).ball.vel_x == game.ball.vel_x || game.step(now).ball.vel_x
            == -game.ball.vel_x,
{
}

/// A ball on or beyond the left wall that is not moving to the right comes
/// out of the next frame of play with its horizontal velocity turned round,
/// however long the frame took.
pub proof fn ball_turns_back_at_left_wall(game: Game, now: u64)
    requires
        game.wf(),
        game.running,
        game.phase is Running,
        game.ball.x <= 0,
        game.ball.vel_x <= 0,
        game.ball.moved(elapsed_between(now, game.last_frame_time)).is_below_floor()
            ==> game.lives == 1,
    ensures
        game.step(now).ball.vel_x == -game.ball.vel_x,
        game.step(now).ball.vel_x >= 0,
{
    lemma_travel_sign(game.ball.vel_x, elapsed_between(now, game.last_frame_time));
}

/// After a frame of play the paddle's left edge is the exact position that
/// its velocity carried it to, brought back to the nearest of the two bounds
/// `0` and `FIELD_WIDTH - PADDLE_WIDTH` where it lies outside them.
pub proof fn paddle_is_held_between_walls(game: Game, now: u64)
    requires
        game.wf(),
        game.running,
        game.phase is Running,
    ensures
        ({
            let carried = game.paddle.x + game.paddle.vel_x * elapsed_between(
                now,
                game.last_frame_time,
            );
            game.step(now).paddle.x == (if carried < 0 {
                0
            } else if carried > FIELD_WIDTH - PADDLE_WIDTH {
                FIELD_WIDTH - PADDLE_WIDTH
            } else {
                carried
            })
        }),
{
}

/// When the ball sinks below the field with one life left, the game is over
/// with no life left, and no later update changes anything.
pub proof fn last_life_lost_ends_game(game: Game, now: u64, later: Seq<u64>)
    requires
        game.wf(),
        game.running,
        game.phase is Running,
        game.lives == 1,
        game.ball.moved(elapsed_between(now, game.last_frame_time)).is_below_floor(),
    ensures
        !game.step(now).running,
        game.step(now).lives == 0,
        game.step(now).run(later) == game.step(now),
{
    game_over_is_final(game.step(now), later);
}

/// When the ball sinks below the field with more than one life left, one
/// life is taken, play rests from the time of that update, and the ball
/// lies still in the middle of the field.
pub proof fn lost_life_pauses_play(game: Game, now: u64)
    requires
        game.wf(),
        game.running,
        game.phase is Running,
        game.lives >= 2,
        game.ball.moved(elapsed_between(now, game.last_frame_time)).is_below_floor(),
    ensures
        game.step(now).lives == game.lives - 1,
        game.step(now).phase == (Phase::Paused { since: now }),
        game.step(now).paused(),
        game.step(now).ball.x == 392_500_000_000,
        game.step(now).ball.y == 292_500_000_000,
        game.step(now).ball.vel_x == 0,
        game.step(now).ball.vel_y == 0,
{
}

/// While the pause has not lasted its full time an update changes nothing.
pub proof fn pause_holds_still(game: Game, since: u64, now: u64)
    requires
        game.running,
        game.phase == (Phase::Paused { since }),
        elapsed_between(now, since) < PAUSE_NANOS,
    ensures
        game.step(now) == game,
{
}

/// The first update after the pause has lasted its full time sets the ball
/// in the middle of the field at serve velocity and moves nothing else. The
/// update after it, at whatever time it comes, starts play and restarts the
/// frame clock at that time without moving either body, so that the length
/// of the pause never counts as time in flight.
pub proof fn pause_ends_with_a_serve(game: Game, since: u64, now: u64, next: u64)
    requires
        game.wf(),
        game.running,
        game.phase == (Phase::Paused { since }),
        elapsed_between(now, since) >= PAUSE_NANOS,
    ensures
        game.step(now).phase is ResetPending,
        game.step(now).ball == (Body {
            x: 392_500_000_000,
            y: 292_500_000_000,
            vel_x: SERVE_SPEED,
            vel_y: SERVE_SPEED,
            ..game.ball
        }),
        game.step(now) == (Game {
            phase: Phase::ResetPending,
            ball: game.step(now).ball,
            ..game
        }),
        game.step(now).step(next) == (Game {
            phase: Phase::Running,
            last_frame_time: next,
            ..game.step(now)
        }),
{
}

/// A frame of play in which the ball meets the paddle adds one to the score,
/// and no other update changes the score.
pub proof fn score_rises_on_paddle_hit(game: Game, now: u64)
    requires
        game.wf(),
    ensures
        game.step(now).score == (if game.hits_paddle_at(now) {
            bumped(game.score)
        } else {
            game.score
        }),
{
}

/// Over any number of updates the score rises by the number of frames in
/// which the ball met the paddle, as long as that sum fits the score's type.
pub proof fn score_counts_paddle_hits(game: Game, times: Seq<u64>)
    requires
        game.wf(),
        game.score + game.hits_during(times) <= i32::MAX,
    ensures
        game.run(times).score == game.score + game.hits_during(times),
    decreases times.len(),
{
    if times.len() > 0 {
        let before = game.run(times.drop_last());
        score_counts_paddle_hits(game, times.drop_last());
        run_keeps_validity(game, times.drop_last());
        score_rises_on_paddle_hit(before, times.last());
    }
}

/// Where the ball meets the paddle in every one of a run of frames, the
/// score rises by the number of those frames: a ball that stays in touch
/// with the paddle scores again in each frame.
pub proof fn every_frame_of_contact_scores(game: Game, times: Seq<u64>)
    requires
        game.wf(),
        forall|k: int|
            0 <= k < times.len() ==> #[trigger] game.run(times.take(k)).hits_paddle_at(times[k]),
        game.score + times.len() <= i32::MAX,
    ensures
        game.hits_during(times) == times.len(),
        game.run(times).score == game.score + times.len(),
    decreases times.len(),
{
    if times.len() > 0 {
        let shorter = times.drop_last();
        assert forall|k: int| 0 <= k < shorter.len() implies #[trigger] game.run(
            shorter.take(k),
        ).hits_paddle_at(shorter[k]) by {
            assert(shorter.take(k) == times.take(k));
            assert(game.run(times.take(k)).hits_paddle_at(times[k]));
        }
        every_frame_of_contact_scores(game, shorter);
        assert(times.take(times.len() - 1) == shorter);
        assert(game.run(times.take(times.len() - 1)).hits_paddle_at(times[times.len() - 1]));
    }
    score_counts_paddle_hits(game, times);
}

/// In the picture of any game, the cell in column `column` of row `row` has
/// the foreground colour if it lies in the ball's or in the paddle's
/// rectangle of whole pixels, and the background colour if it lies in
/// neither. No cell outside the two rectangles is ever painted, wherever the
/// bodies stand.
pub proof fn picture_shows_the_two_bodies(game: Game, len: nat, column: int, row: int)
    requires
        0 <= column < VIEW_WIDTH,
        0 <= row,
        row * VIEW_WIDTH + column < len,
    ensures
        game.picture(len)[row * VIEW_WIDTH + column] == (if game.ball.footprint().holds(column, row)
            || game.paddle.footprint().holds(column, row) {
            FOREGROUND
        } else {
            BACKGROUND
        }),
{
    let index = row * 800 + column;
    assert(column_of(index) == column && row_of(index) == row);
}

/// The picture depends on the game and on the length of the buffer alone:
/// painting over a finished picture of the same game gives the same picture.
pub proof fn picture_is_stable(game: Game, len: nat)
    ensures
        game.picture(len).len() == len,
        game.picture(game.picture(len).len()) == game.picture(len),
{
}

/// The rectangle of a body is its position and extent, each rounded towards
/// zero to whole pixels; a rectangle that starts left of the first column or
/// above the first row is not moved into the viewport.
pub proof fn footprint_is_truncated_not_shifted(body: Body)
    ensures
        body.x >= 0 ==> body.footprint().x * SCALE <= body.x < (body.footprint().x + 1) * SCALE,
        body.x < 0 ==> (body.footprint().x - 1) * SCALE < body.x <= body.footprint().x * SCALE,
        body.y >= 0 ==> body.footprint().y * SCALE <= body.y < (body.footprint().y + 1) * SCALE,
        body.y < 0 ==> (body.footprint().y - 1) * SCALE < body.y <= body.footprint().y * SCALE,
{
}

/// The paddle of a valid game lies wholly inside the viewport: its cells
/// are those of columns `x .. x + 100` in rows `560 .. 580`, where
/// `0 <= x <= 700` is its left edge in whole pixels.
pub proof fn paddle_is_drawn_in_place(game: Game)
    requires
        game.wf(),
    ensures
        0 <= game.paddle.footprint().x <= 700,
        game.paddle.footprint() == (Rect {
            x: game.paddle.footprint().x,
            y: 560,
            width: 100,
            height: 20,
        }),
{
}

} // verus!
