use vstd::prelude::*;
use crate::units::{Position, DIR_SCALE, PLAYER_SPEED, PLAYER_START_X, PLAYER_START_Y};

verus! {

/// The player sprite: a position and a fixed horizontal speed in pixels
/// per second.
#[derive(Clone, Copy, PartialEq, Eq, Structural, Debug)]
pub struct Player {
    pub pos: Position,
    pub speed: i64,
}

/// The signed horizontal direction read off the key state: the right key
/// contributes +1, the left key -1, so both held cancel to 0.
pub open spec fn key_dir(left: bool, right: bool) -> int {
    (if right { 1int } else { 0int }) - (if left { 1int } else { 0int })
}

/// Turns the pressed state of the two arrow keys into the signed scalar
/// direction in {-1, 0, 1}.
pub fn key_direction(left: bool, right: bool) -> (d: i64)
    ensures
        d == key_dir(left, right),
{
    let mut d: i64 = 0;
    if left {
        d = d - 1;
    }
    if right {
        d = d + 1;
    }
    d
}

impl Player {
    /// The player as created at startup: centered horizontally, low on the
    /// screen, with the fixed speed.
    pub fn spawn() -> (p: Player)
        ensures
            p.pos.x == PLAYER_START_X,
            p.pos.y == PLAYER_START_Y,
            p.speed == PLAYER_SPEED,
    {
        Player { pos: Position { x: PLAYER_START_X, y: PLAYER_START_Y }, speed: PLAYER_SPEED }
    }
}

/// One frame of player input: moves the player horizontally by
/// `direction * speed * dt`, where the direction comes from the two arrow
/// keys. The vertical position never changes. In position units the step is
/// `key_dir * DIR_SCALE * speed * dt_micros`, which is exactly
/// `key_dir * speed` pixels per second over `dt_micros` microseconds.
pub fn player_movement(p: &mut Player, left: bool, right: bool, dt_micros: u64)
    requires
        0 <= old(p).speed,
        dt_micros <= i64::MAX,
        DIR_SCALE * old(p).speed * dt_micros <= i64::MAX,
        i64::MIN <= old(p).pos.x - DIR_SCALE * old(p).speed * dt_micros,
        old(p).pos.x + DIR_SCALE * old(p).speed * dt_micros <= i64::MAX,
    ensures
        final(p).pos.x == old(p).pos.x + key_dir(left, right) * DIR_SCALE * old(p).speed * dt_micros,
        final(p).pos.y == old(p).pos.y,
        final(p).speed == old(p).speed,
{
    let d = key_direction(left, right);
    let dt: i64 = dt_micros as i64;
    proof {
        let s = p.speed as int;
        let t = dt_micros as int;
        assert(0 <= s * t && s * t <= DIR_SCALE * s * t && (s * t) * DIR_SCALE == DIR_SCALE * s * t)
            by (nonlinear_arith)
            requires
                0 <= s,
                0 <= t,
        ;
    }
    let sd: i64 = p.speed * dt;
    let step: i64 = sd * DIR_SCALE;
    proof {
        let s = p.speed as int;
        let t = dt_micros as int;
        let dd = d as int;
        assert(dd * (DIR_SCALE * s * t) == dd * DIR_SCALE * s * t
            && (-1 <= dd <= 1 && 0 <= DIR_SCALE * s * t
                ==> -(DIR_SCALE * s * t) <= dd * (DIR_SCALE * s * t) <= DIR_SCALE * s * t))
            by (nonlinear_arith);
    }
    let delta: i64 = d * step;
    p.pos.x = p.pos.x + delta;
}

} // verus!
