//! A bat-and-ball arcade simulation with three lives.
//!
//! A ball bounces inside an 800 x 600 viewport and is deflected by a paddle
//! that the player steers along the bottom edge. Each time the ball escapes
//! past the paddle a life is lost and play pauses for two seconds before the
//! ball is served again from the centre.
//!
//! The crate holds the whole simulation: sampling of the keys, the update
//! step with its pause and serve state machine, collision rules, and the
//! rasteriser that paints a frame into a pixel buffer. It opens no window and
//! reads no clock: the caller hands in which keys are held and the current
//! time in nanoseconds, and receives the pixels to present.
//!
//! Lengths are held in billionths of a pixel and time in nanoseconds, so that
//! moving a body with a whole-number speed over a whole number of nanoseconds
//! is exact.

pub mod units;
pub mod body;
pub mod input;
pub mod game;
pub mod render;
pub mod report;
pub mod laws;
