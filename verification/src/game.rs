//! The state of one game and the step that advances it.

use vstd::prelude::*;
use crate::body::{Body, FIELD_WIDTH};
use crate::input::{command_for, sample, InputCommand, KeyState};
use crate::units::{elapsed, elapsed_between};

verus! {

/// Side of the square ball.
pub const BALL_SIZE: i64 = 15_000_000_000;

/// Where the ball starts a new game, on both axes.
pub const BALL_START: i64 = 20_000_000_000;

/// Width of the paddle.
pub const PADDLE_WIDTH: i64 = 100_000_000_000;

/// Height of the paddle.
pub const PADDLE_HEIGHT: i64 = 20_000_000_000;

/// Left edge of the paddle at the start of a game.
pub const PADDLE_START_X: i64 = 350_000_000_000;

/// Top edge of the paddle, which never changes.
pub const PADDLE_Y: i64 = 560_000_000_000;

/// Speed of a served ball along each axis, in pixels per second.
pub const SERVE_SPEED: i64 = 300;

/// Speed of the paddle while an arrow key is held, in pixels per second.
pub const PADDLE_SPEED: i64 = 400;

/// How long play rests after a life is lost, in nanoseconds.
pub const PAUSE_NANOS: u64 = 2_000_000_000;

/// Lives at the start of a game.
pub const START_LIVES: i32 = 3;

/// Where play stands between two updates of a game that goes on.
#[derive(Clone, Copy, Debug, PartialEq, Eq, Structural)]
pub enum Phase {
    /// The ball is in play.
    Running,
    /// A life was lost at time `since`; the ball rests in the middle.
    Paused { since: u64 },
    /// The pause is over and the ball is set to be served; the next update
    /// restarts the frame clock.
    ResetPending,
}

/// One game: the two bodies, the counters, the phase of play, and whether
/// the game goes on.
#[derive(Clone, Copy, Debug, PartialEq, Eq, Structural)]
pub struct Game {
    pub ball: Body,
    pub paddle: Body,
    /// The time of the last update that moved the bodies, in nanoseconds.
    pub last_frame_time: u64,
    pub lives: i32,
    pub score: i32,
    pub phase: Phase,
    /// The game goes on. It is over, and no update changes it any more, once
    /// the last life is lost or the player has asked to leave; the phase
    /// stays as it was at that moment.
    pub running: bool,
}

/// The score after one more hit; it stops at the largest `i32`.
pub open spec fn bumped(score: i32) -> i32 {
    if score < i32::MAX {
        (score + 1) as i32
    } else {
        score
    }
}

impl Game {
    /// What holds of every game that was made by [`Game::new`] and changed
    /// only by the methods of this type.
    pub open spec fn wf(self) -> bool {
        &&& self.ball.width == BALL_SIZE
        &&& self.ball.height == BALL_SIZE
        &&& -SERVE_SPEED <= self.ball.vel_x <= SERVE_SPEED
        &&& -SERVE_SPEED <= self.ball.vel_y <= SERVE_SPEED
        &&& self.paddle.width == PADDLE_WIDTH
        &&& self.paddle.height == PADDLE_HEIGHT
        &&& self.paddle.y == PADDLE_Y
        &&& self.paddle.vel_y == 0
        &&& -PADDLE_SPEED <= self.paddle.vel_x <= PADDLE_SPEED
        &&& 0 <= self.paddle.x <= FIELD_WIDTH - PADDLE_WIDTH
        &&& 0 <= self.lives <= START_LIVES
        &&& self.running ==> self.lives >= 1
        &&& self.score >= 0
    }

    /// The game as it stands at time `now`, before the first update.
    pub open spec fn initial(now: u64) -> Game {
        Game {
            ball: Body {
                x: BALL_START,
                y: BALL_START,
                width: BALL_SIZE,
                height: BALL_SIZE,
                vel_x: SERVE_SPEED,
                vel_y: SERVE_SPEED,
            },
            paddle: Body {
                x: PADDLE_START_X,
                y: PADDLE_Y,
                width: PADDLE_WIDTH,
                height: PADDLE_HEIGHT,
                vel_x: 0,
                vel_y: 0,
            },
            last_frame_time: now,
            lives: START_LIVES,
            score: 0,
            phase: Phase::Running,
            running: true,
        }
    }

    /// Play rests after a lost life.
    pub open spec fn paused(self) -> bool {
        self.phase is Paused
    }

    /// The paddle obeys the arrow keys: play does not rest.
    pub open spec fn steerable(self) -> bool {
        self.phase !is Paused
    }

    /// The game with the paddle's horizontal velocity set to `vel_x`.
    pub open spec fn with_paddle_velocity(self, vel_x: i64) -> Game {
        Game { paddle: Body { vel_x, ..self.paddle }, ..self }
    }

    /// The game after the player's command for this frame. A request to exit
    /// ends the game and touches nothing else, the phase included; an arrow
    /// or their absence sets the paddle's velocity, unless play rests.
    pub open spec fn commanded(self, command: InputCommand) -> Game {
        match command {
            InputCommand::ExitRequested => Game { running: false, ..self },
            InputCommand::MoveLeft => if self.steerable() {
                self.with_paddle_velocity((-PADDLE_SPEED) as i64)
            } else {
                self
            },
            InputCommand::MoveRight => if self.steerable() {
                self.with_paddle_velocity(PADDLE_SPEED)
            } else {
                self
            },
            InputCommand::Neutral => if self.steerable() {
                self.with_paddle_velocity(0)
            } else {
                self
            },
        }
    }

    /// The game with the ball in the middle of the field at serve velocity.
    pub open spec fn with_ball_reset(self) -> Game {
        Game { ball: self.ball.centred(SERVE_SPEED, SERVE_SPEED), ..self }
    }

    /// The game after the loss of a life at time `now`. While a life is
    /// left, play rests with the ball still in the middle of the field;
    /// with none left the game is over, the ball stays where it fell and the
    /// phase as it was.
    pub open spec fn after_life_lost(self, now: u64) -> Game {
        if self.lives - 1 > 0 {
            Game {
                lives: (self.lives - 1) as i32,
                phase: Phase::Paused { since: now },
                ball: self.ball.centred(0, 0),
                ..self
            }
        } else {
            Game { lives: (self.lives - 1) as i32, running: false, ..self }
        }
    }

    /// One frame of play at time `now`: both bodies move for the time since
    /// the last frame, the ball is deflected by walls and paddle, a hit of
    /// the paddle scores, the paddle is held between the walls, and a ball
    /// that sank below the field costs a life.
    pub open spec fn played(self, now: u64) -> Game {
        let dt = elapsed_between(now, self.last_frame_time);
        let ball = self.ball.moved(dt);
        let paddle = self.paddle.slid(dt);
        let next = Game {
            ball: ball.deflected(paddle),
            paddle: paddle.held_in_field(),
            last_frame_time: now,
            score: if ball.meets_paddle(paddle) {
                bumped(self.score)
            } else {
                self.score
            },
            ..self
        };
        if ball.is_below_floor() {
            next.after_life_lost(now)
        } else {
            next
        }
    }

    /// The game after one update at time `now`.
    ///
    /// A game that is over stays as it is. A paused game stays as it is until
    /// the pause has lasted [`PAUSE_NANOS`]; the update that finds it over
    /// sets the ball for the serve. The update after that restarts the frame
    /// clock and moves nothing, so that the pause does not count as time in
    /// flight. Every other update plays one frame.
    pub open spec fn step(self, now: u64) -> Game {
        if !self.running {
            self
        } else {
            match self.phase {
                Phase::Paused { since } => if elapsed_between(now, since) >= PAUSE_NANOS {
                    Game { phase: Phase::ResetPending, ..self.with_ball_reset() }
                } else {
                    self
                },
                Phase::ResetPending => Game {
                    phase: Phase::Running,
                    last_frame_time: now,
                    ..self
                },
                Phase::Running => self.played(now),
            }
        }
    }

    /// The game after one update at each of `times`, in their order.
    pub open spec fn run(self, times: Seq<u64>) -> Game
        decreases times.len(),
    {
        if times.len() == 0 {
            self
        } else {
            self.run(times.drop_last()).step(times.last())
        }
    }

    /// An update at time `now` plays a frame in which the ball meets the
    /// paddle.
    pub open spec fn hits_paddle_at(self, now: u64) -> bool {
        let dt = elapsed_between(now, self.last_frame_time);
        self.running && self.phase is Running && self.ball.moved(dt).meets_paddle(
            self.paddle.slid(dt),
        )
    }

    /// How many of the updates at `times` play a frame in which the ball
    /// meets the paddle.
    pub open spec fn hits_during(self, times: Seq<u64>) -> nat
        decreases times.len(),
    {
        if times.len() == 0 {
            0
        } else {
            let before = self.run(times.drop_last());
            self.hits_during(times.drop_last()) + if before.hits_paddle_at(times.last()) {
                1nat
            } else {
                0nat
            }
        }
    }

    /// A new game, with the frame clock started at `now`.
    pub fn new(now: u64) -> (game: Game)
        ensures
            game == Game::initial(now),
            game.wf(),
    {
        Game {
            ball: Body {
                x: BALL_START,
                y: BALL_START,
                width: BALL_SIZE,
                height: BALL_SIZE,
                vel_x: SERVE_SPEED,
                vel_y: SERVE_SPEED,
            },
            paddle: Body {
                x: PADDLE_START_X,
                y: PADDLE_Y,
                width: PADDLE_WIDTH,
                height: PADDLE_HEIGHT,
                vel_x: 0,
                vel_y: 0,
            },
            last_frame_time: now,
            lives: START_LIVES,
            score: 0,
            phase: Phase::Running,
            running: true,
        }
    }

    /// Whether every field is in the range that the game keeps it in.
    pub fn is_valid(&self) -> (ok: bool)
        ensures
            ok == self.wf(),
    {
        self.ball.width == BALL_SIZE && self.ball.height == BALL_SIZE
            && -SERVE_SPEED <= self.ball.vel_x && self.ball.vel_x <= SERVE_SPEED
            && -SERVE_SPEED <= self.ball.vel_y && self.ball.vel_y <= SERVE_SPEED
            && self.paddle.width == PADDLE_WIDTH && self.paddle.height == PADDLE_HEIGHT
            && self.paddle.y == PADDLE_Y && self.paddle.vel_y == 0
            && -PADDLE_SPEED <= self.paddle.vel_x && self.paddle.vel_x <= PADDLE_SPEED
            && 0 <= self.paddle.x && self.paddle.x <= FIELD_WIDTH - PADDLE_WIDTH
            && 0 <= self.lives && self.lives <= START_LIVES
            && (!self.running || self.lives >= 1)
            && self.score >= 0
    }

    /// Whether the game goes on.
    pub fn is_running(&self) -> (yes: bool)
        ensures
            yes == self.running,
    {
        self.running
    }

    /// Whether play rests after a lost life.
    pub fn is_paused(&self) -> (yes: bool)
        ensures
            yes == self.paused(),
    {
        match self.phase {
            Phase::Paused { .. } => true,
            _ => false,
        }
    }

    /// Carries out the player's command for this frame.
    pub fn apply(&mut self, command: InputCommand)
        ensures
            *final(self) == old(self).commanded(command),
            old(self).wf() ==> final(self).wf(),
    {
        let steerable = !self.is_paused();
        match command {
            InputCommand::ExitRequested => {
                self.running = false;
            },
            InputCommand::MoveLeft => {
                if steerable {
                    self.paddle.vel_x = -PADDLE_SPEED;
                }
            },
            InputCommand::MoveRight => {
                if steerable {
                    self.paddle.vel_x = PADDLE_SPEED;
                }
            },
            InputCommand::Neutral => {
                if steerable {
                    self.paddle.vel_x = 0;
                }
            },
        }
    }

    /// Samples the held keys and carries out the command that they stand for.
    pub fn process_input(&mut self, keys: KeyState)
        ensures
            *final(self) == old(self).commanded(command_for(keys)),
            old(self).wf() ==> final(self).wf(),
    {
        let command = sample(keys);
        self.apply(command);
    }

    /// Puts the ball in the middle of the field and gives it the serve
    /// velocity.
    pub fn reset_ball(&mut self)
        requires
            old(self).wf(),
        ensures
            *final(self) == old(self).with_ball_reset(),
            final(self).wf(),
    {
        self.ball.place_at_centre(SERVE_SPEED, SERVE_SPEED);
    }

    /// Advances the game to time `now`.
    pub fn update(&mut self, now: u64)
        requires
            old(self).wf(),
        ensures
            *final(self) == old(self).step(now),
            final(self).wf(),
            final(self).lives <= old(self).lives,
            final(self).score >= old(self).score,
    {
        if !self.running {
            return;
        }
        match self.phase {
            Phase::Paused { since } => {
                if elapsed(now, since) >= PAUSE_NANOS {
                    self.phase = Phase::ResetPending;
                    self.reset_ball();
                }
            },
            Phase::ResetPending => {
                self.phase = Phase::Running;
                self.last_frame_time = now;
            },
            Phase::Running => {
                self.play(now);
            },
        }
    }

    /// Runs the simulation part of one frame: the player's command first,
    /// then the update.
    pub fn frame(&mut self, keys: KeyState, now: u64)
        requires
            old(self).wf(),
        ensures
            *final(self) == old(self).commanded(command_for(keys)).step(now),
            final(self).wf(),
    {
        self.process_input(keys);
        self.update(now);
    }

    /// Plays one frame at time `now`.
    fn play(&mut self, now: u64)
        requires
            old(self).wf(),
            old(self).running,
            old(self).phase is Running,
        ensures
            *final(self) == old(self).played(now),
            final(self).wf(),
            final(self).lives <= old(self).lives,
            final(self).score >= old(self).score,
    {
        let dt = elapsed(now, self.last_frame_time);
        self.last_frame_time = now;
        self.ball.integrate(dt);
        self.paddle.integrate_x(dt);
        let scored = self.ball.hits_paddle(&self.paddle);
        let lost = self.ball.fell_out();
        self.ball.deflect(&self.paddle);
        if scored && self.score < i32::MAX {
            self.score = self.score + 1;
        }
        self.paddle.hold_in_field();
        if lost {
            self.lives = self.lives - 1;
            if self.lives > 0 {
                self.phase = Phase::Paused { since: now };
                self.ball.place_at_centre(0, 0);
            } else {
                self.running = false;
            }
        }
    }
}

} // verus!
