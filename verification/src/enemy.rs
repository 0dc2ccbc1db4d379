use vstd::prelude::*;
use crate::units::{
    lemma_near_unit_bounds, DirVec, Position, DIR_SCALE, OFFSCREEN_X, OFFSCREEN_Y,
};

verus! {

/// An enemy sprite: a position, a fixed speed in pixels per second, and the
/// constant direction it travels in, chosen at spawn time.
#[derive(Clone, Copy, PartialEq, Eq, Structural, Debug)]
pub struct Enemy {
    pub pos: Position,
    pub speed: i64,
    pub dir: DirVec,
}

impl Enemy {
    /// The one invariant an enemy carries: its direction has magnitude 1
    /// up to the fixed-point tolerance, and its speed is not negative.
    pub open spec fn wf(self) -> bool {
        self.dir.is_near_unit() && 0 <= self.speed
    }

    /// Whether one frame of `dt_micros` microseconds can move this enemy
    /// without leaving the range of a coordinate: the machine-width bound
    /// every caller of `step` must meet.
    pub open spec fn can_step(self, dt_micros: int) -> bool {
        &&& 0 <= dt_micros <= i64::MAX
        &&& DIR_SCALE * self.speed * dt_micros <= i64::MAX
        &&& i64::MIN <= self.pos.x - DIR_SCALE * self.speed * dt_micros
        &&& self.pos.x + DIR_SCALE * self.speed * dt_micros <= i64::MAX
        &&& i64::MIN <= self.pos.y - DIR_SCALE * self.speed * dt_micros
        &&& self.pos.y + DIR_SCALE * self.speed * dt_micros <= i64::MAX
    }

    /// One frame of motion: the position advances by
    /// `direction * speed * dt`, and direction and speed never change. In
    /// position units the step of a coordinate is exactly
    /// `dir * speed * dt_micros`, since a direction unit is a thousandth,
    /// a speed unit one pixel per second, and a time unit a microsecond.
    pub fn step(&mut self, dt_micros: u64)
        requires
            old(self).wf(),
            old(self).can_step(dt_micros as int),
        ensures
            final(self).pos.x == old(self).pos.x + old(self).dir.x * old(self).speed * dt_micros,
            final(self).pos.y == old(self).pos.y + old(self).dir.y * old(self).speed * dt_micros,
            final(self).dir == old(self).dir,
            final(self).speed == old(self).speed,
            final(self).wf(),
    {
        proof {
            lemma_near_unit_bounds(self.dir.x as int, self.dir.y as int);
            let s = self.speed as int;
            let t = dt_micros as int;
            assert(0 <= s * t && s * t <= DIR_SCALE * s * t) by (nonlinear_arith)
                requires
                    0 <= s,
                    0 <= t,
            ;
            let dx = self.dir.x as int;
            let dy = self.dir.y as int;
            assert(dx * (s * t) == dx * s * t && dy * (s * t) == dy * s * t
                && (-DIR_SCALE <= dx <= DIR_SCALE && 0 <= s * t
                    ==> -(DIR_SCALE * (s * t)) <= dx * (s * t) <= DIR_SCALE * (s * t))
                && (-DIR_SCALE <= dy <= DIR_SCALE && 0 <= s * t
                    ==> -(DIR_SCALE * (s * t)) <= dy * (s * t) <= DIR_SCALE * (s * t))
                && DIR_SCALE * (s * t) == DIR_SCALE * s * t) by (nonlinear_arith);
        }
        let dt: i64 = dt_micros as i64;
        let sd: i64 = self.speed * dt;
        let delta_x: i64 = self.dir.x * sd;
        let delta_y: i64 = self.dir.y * sd;
        self.pos.x = self.pos.x + delta_x;
        self.pos.y = self.pos.y + delta_y;
    }

    /// The boundary test the mover consults: whether the enemy sits more
    /// than 800 pixels from center horizontally or 600 vertically. The
    /// mover never acts on it — enemies are kept either way.
    pub fn is_off_screen(&self) -> (r: bool)
        ensures
            r == (self.pos.x > OFFSCREEN_X || self.pos.x < -OFFSCREEN_X
                || self.pos.y > OFFSCREEN_Y || self.pos.y < -OFFSCREEN_Y),
    {
        self.pos.x > OFFSCREEN_X || self.pos.x < -OFFSCREEN_X
            || self.pos.y > OFFSCREEN_Y || self.pos.y < -OFFSCREEN_Y
    }
}

/// The total of a sequence of frame times.
pub open spec fn sum_times(dts: Seq<int>) -> int
    decreases dts.len(),
{
    if dts.len() == 0 {
        0
    } else {
        dts[0] + sum_times(dts.subrange(1, dts.len() as int))
    }
}

/// A coordinate advanced frame by frame: starting from `x0`, each frame of
/// length `dts[i]` adds `d * s * dts[i]`, exactly as `Enemy::step` does to
/// each coordinate.
pub open spec fn advanced_coord(x0: int, d: int, s: int, dts: Seq<int>) -> int
    decreases dts.len(),
{
    if dts.len() == 0 {
        x0
    } else {
        advanced_coord(x0 + d * s * dts[0], d, s, dts.subrange(1, dts.len() as int))
    }
}

/// Law: over any number of frames with constant direction and speed, the
/// per-frame steps accumulate to a single straight-line displacement — the
/// final coordinate is the start plus `direction * speed * (total of all
/// frame times)`. Both coordinates of an enemy advance this way.
pub proof fn lemma_advance_accumulates(x0: int, d: int, s: int, dts: Seq<int>)
    ensures
        advanced_coord(x0, d, s, dts) == x0 + d * s * sum_times(dts),
    decreases dts.len(),
{
    if dts.len() == 0 {
    } else {
        let rest = dts.subrange(1, dts.len() as int);
        lemma_advance_accumulates(x0 + d * s * dts[0], d, s, rest);
        assert(d * s * (dts[0] + sum_times(rest)) == d * s * dts[0] + d * s * sum_times(rest))
            by (nonlinear_arith);
    }
}

} // verus!
