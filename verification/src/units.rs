use vstd::prelude::*;

verus! {

/// Positions are fixed-point: one screen pixel is this many position units.
pub const NANOS_PER_PIXEL: i64 = 1_000_000_000;

/// Frame times are whole microseconds; this many make one second.
pub const MICROS_PER_SECOND: i64 = 1_000_000;

/// Direction components are fixed-point thousandths: a component equal to
/// `DIR_SCALE` stands for 1.0.
pub const DIR_SCALE: i64 = 1000;

/// Slack allowed on the squared magnitude of a direction vector. A unit
/// vector rounded to thousandths has squared magnitude within this distance
/// of `DIR_SCALE * DIR_SCALE` (each component is off by at most half a
/// thousandth, which moves the squared magnitude by less than 1_415).
pub const DIR_SQ_TOLERANCE: i64 = 2000;

/// Player speed, in pixels per second.
pub const PLAYER_SPEED: i64 = 300;

/// Enemy speed, in pixels per second.
pub const ENEMY_SPEED: i64 = 150;

/// Where the player starts, in position units.
pub const PLAYER_START_X: i64 = 0;
pub const PLAYER_START_Y: i64 = -200 * 1_000_000_000;

/// Enemies spawn along the top edge: x uniform in this closed range,
/// y always exactly this value, in position units.
pub const SPAWN_X_MIN: i64 = -400 * 1_000_000_000;
pub const SPAWN_X_MAX: i64 = 400 * 1_000_000_000;
pub const SPAWN_Y: i64 = 300 * 1_000_000_000;

/// A position is off screen when a coordinate passes these bounds
/// (in position units: 800 and 600 pixels).
pub const OFFSCREEN_X: i64 = 800 * 1_000_000_000;
pub const OFFSCREEN_Y: i64 = 600 * 1_000_000_000;

/// One enemy is spawned each time this many microseconds elapse.
pub const SPAWN_PERIOD_MICROS: u64 = 2_000_000;

/// A point of the scene, in position units (nano-pixels).
#[derive(Clone, Copy, PartialEq, Eq, Structural, Debug)]
pub struct Position {
    pub x: i64,
    pub y: i64,
}

/// A direction vector in fixed-point thousandths.
#[derive(Clone, Copy, PartialEq, Eq, Structural, Debug)]
pub struct DirVec {
    pub x: i64,
    pub y: i64,
}

/// Whether `(dx, dy)` has magnitude 1 up to the fixed-point tolerance:
/// its squared magnitude lies within `DIR_SQ_TOLERANCE` of
/// `DIR_SCALE * DIR_SCALE`.
pub open spec fn near_unit(dx: int, dy: int) -> bool {
    DIR_SCALE * DIR_SCALE - DIR_SQ_TOLERANCE <= dx * dx + dy * dy
        <= DIR_SCALE * DIR_SCALE + DIR_SQ_TOLERANCE
}

impl DirVec {
    /// Whether this vector has magnitude 1 up to the fixed-point tolerance.
    pub open spec fn is_near_unit(self) -> bool {
        near_unit(self.x as int, self.y as int)
    }
}

/// A near-unit vector has each component within `DIR_SCALE` of zero.
pub proof fn lemma_near_unit_bounds(dx: int, dy: int)
    requires
        near_unit(dx, dy),
    ensures
        -DIR_SCALE <= dx <= DIR_SCALE,
        -DIR_SCALE <= dy <= DIR_SCALE,
{
    assert((dx > DIR_SCALE || dx < -DIR_SCALE ==> dx * dx > DIR_SCALE * DIR_SCALE + DIR_SQ_TOLERANCE)
        && (dy > DIR_SCALE || dy < -DIR_SCALE ==> dy * dy > DIR_SCALE * DIR_SCALE + DIR_SQ_TOLERANCE)
        && dx * dx >= 0 && dy * dy >= 0) by (nonlinear_arith);
}

/// Checks whether `(dx, dy)` is a valid fixed-point direction: returns the
/// vector exactly when it is near-unit, and `None` otherwise.
pub fn try_direction(dx: i64, dy: i64) -> (r: Option<DirVec>)
    ensures
        r is Some <==> near_unit(dx as int, dy as int),
        r is Some ==> r.unwrap() == (DirVec { x: dx, y: dy }),
{
    if dx < -DIR_SCALE || dx > DIR_SCALE || dy < -DIR_SCALE || dy > DIR_SCALE {
        proof {
            assert((dx > DIR_SCALE || dx < -DIR_SCALE ==> dx * dx > DIR_SCALE * DIR_SCALE + DIR_SQ_TOLERANCE)
                && (dy > DIR_SCALE || dy < -DIR_SCALE ==> dy * dy > DIR_SCALE * DIR_SCALE + DIR_SQ_TOLERANCE)
                && dx * dx >= 0 && dy * dy >= 0) by (nonlinear_arith);
        }
        None
    } else {
        proof {
            assert(-DIR_SCALE <= dx <= DIR_SCALE && -DIR_SCALE <= dy <= DIR_SCALE
                ==> 0 <= dx * dx <= DIR_SCALE * DIR_SCALE && 0 <= dy * dy <= DIR_SCALE * DIR_SCALE)
                by (nonlinear_arith);
        }
        let sq: i64 = dx * dx + dy * dy;
        if DIR_SCALE * DIR_SCALE - DIR_SQ_TOLERANCE <= sq && sq <= DIR_SCALE * DIR_SCALE + DIR_SQ_TOLERANCE {
            Some(DirVec { x: dx, y: dy })
        } else {
            None
        }
    }
}

} // verus!
