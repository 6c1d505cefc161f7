//! Fixed-point lengths, velocities and time.
//!
//! A length is an `i64` count of billionths of a pixel, a velocity is an
//! `i64` number of pixels per second and a time is a `u64` count of
//! nanoseconds. A body moving at `v` pixels per second for `t` nanoseconds
//! travels exactly `v * t` billionths of a pixel.

use vstd::prelude::*;

verus! {

/// Billionths in one pixel; also nanoseconds in one second.
pub const SCALE: i64 = 1_000_000_000;

/// The value of type `i64` nearest to `v`.
pub open spec fn saturate(v: int) -> i64 {
    if v > i64::MAX {
        i64::MAX
    } else if v < i64::MIN {
        i64::MIN
    } else {
        v as i64
    }
}

/// The time that passed from `then` to `now`: zero if the clock has not
/// moved forward.
pub open spec fn elapsed_between(now: u64, then: u64) -> u64 {
    if now >= then {
        (now - then) as u64
    } else {
        0
    }
}

/// The length in whole pixels, rounded towards zero: 3.9 pixels are 3 and
/// -3.2 pixels are -3.
pub open spec fn whole_pixels(length: i64) -> i64 {
    if length >= 0 {
        (length / SCALE) as i64
    } else {
        (-((-length) / (SCALE as int))) as i64
    }
}

proof fn lemma_travel_fits(vel: i64, dt: u64)
    ensures
        -0x7fff_ffff_ffff_ffff_8000_0000_0000_0000 <= vel * dt
            <= 0x7fff_ffff_ffff_ffff_0000_0000_0000_0000,
{
    assert(vel * dt <= 0x7fff_ffff_ffff_ffff * 0xffff_ffff_ffff_ffff) by (nonlinear_arith)
        requires
            vel <= 0x7fff_ffff_ffff_ffff,
            0 <= dt <= 0xffff_ffff_ffff_ffff,
    ;
    assert(vel * dt >= -0x8000_0000_0000_0000 * 0xffff_ffff_ffff_ffff) by (nonlinear_arith)
        requires
            vel >= -0x8000_0000_0000_0000,
            0 <= dt <= 0xffff_ffff_ffff_ffff,
    ;
}

/// Nanoseconds from `then` to `now`, zero where `now` lies before `then`.
pub fn elapsed(now: u64, then: u64) -> (dt: u64)
    ensures
        dt == elapsed_between(now, then),
{
    if now >= then {
        now - then
    } else {
        0
    }
}

/// The position reached from `pos` after moving at `vel` pixels per second
/// for `dt` nanoseconds, held at the nearest representable length where the
/// exact one does not fit.
pub fn advance(pos: i64, vel: i64, dt: u64) -> (reached: i64)
    ensures
        reached == saturate(pos + vel * dt),
{
    proof {
        lemma_travel_fits(vel, dt);
    }
    let travel: i128 = (vel as i128) * (dt as i128);
    let exact: i128 = (pos as i128) + travel;
    if exact > i64::MAX as i128 {
        i64::MAX
    } else if exact < i64::MIN as i128 {
        i64::MIN
    } else {
        exact as i64
    }
}

/// Cuts a length down to whole pixels.
pub fn to_pixels(length: i64) -> (px: i64)
    ensures
        px == whole_pixels(length),
{
    if length >= 0 {
        length / 1_000_000_000
    } else if length == i64::MIN {
        -9_223_372_036
    } else {
        -((-length) / 1_000_000_000)
    }
}

} // verus!
