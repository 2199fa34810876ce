//! The moving-obstacle scheduler: one optional hazard per level moves back
//! and forth between a start pose and a target pose, forever. The scheduler
//! advances a linear phase position inside the period, reflecting the
//! direction at either end (ping-pong), and samples the pose by linear
//! interpolation. The engine's smooth ease curve is applied outside this
//! core; the phase and direction bookkeeping here is what decides where in
//! its cycle the hazard is.

use vstd::prelude::*;

verus! {

/// Largest magnitude a pose coordinate may have, in thousandths of a world
/// unit.
pub const COORD_LIMIT: i64 = 1_000_000_000;

/// Largest period a mover may have, in milliseconds.
pub const DURATION_LIMIT: u64 = 1_000_000_000;

/// A pose, held as integer coordinates in thousandths of a world unit.
#[derive(Clone, Copy, Debug, PartialEq, Eq, Structural)]
pub struct Vec3i {
    pub x: i64,
    pub y: i64,
    pub z: i64,
}

impl Vec3i {
    /// Every coordinate is within the supported range.
    pub open spec fn bounded(self) -> bool {
        &&& -COORD_LIMIT <= self.x <= COORD_LIMIT
        &&& -COORD_LIMIT <= self.y <= COORD_LIMIT
        &&& -COORD_LIMIT <= self.z <= COORD_LIMIT
    }

    /// The origin pose.
    pub fn zero() -> (r: Vec3i)
        ensures
            r == (Vec3i { x: 0, y: 0, z: 0 }),
    {
        Vec3i { x: 0, y: 0, z: 0 }
    }
}

/// The moving-obstacle descriptor attached to a level piece: where the
/// hazard moves to and how long one sweep takes, in milliseconds.
#[derive(Clone, Copy, Debug, PartialEq, Eq, Structural)]
pub struct TweenMove {
    pub target: Vec3i,
    pub duration: u64,
}

impl TweenMove {
    /// The descriptor describes a mover the scheduler can drive.
    pub open spec fn wf(self) -> bool {
        &&& 0 < self.duration <= DURATION_LIMIT
        &&& self.target.bounded()
    }
}

/// Linear interpolation from `a` to `b` at position `pos` of `d`.
pub open spec fn lerp(a: int, b: int, pos: int, d: int) -> int {
    if b >= a {
        a + (b - a) * pos / d
    } else {
        a - (a - b) * pos / d
    }
}

/// Live state of one mover: the two endpoint poses, the period of one
/// sweep, the position inside the current sweep and the direction.
#[derive(Clone, Copy, Debug, PartialEq, Eq, Structural)]
pub struct TweenState {
    pub start: Vec3i,
    pub target: Vec3i,
    /// Length of one sweep (start to target), in milliseconds.
    pub duration: u64,
    /// How far into the current sweep the mover is, in milliseconds.
    pub pos: u64,
    /// Whether the mover is headed towards the target.
    pub forward: bool,
}

impl TweenState {
    /// The poses are bounded, the position lies inside the sweep, and the
    /// direction is canonical at the two endpoints: at position 0 the mover
    /// heads forward, at the far endpoint it heads backward.
    pub open spec fn wf(self) -> bool {
        &&& 0 < self.duration <= DURATION_LIMIT
        &&& self.pos <= self.duration
        &&& self.start.bounded()
        &&& self.target.bounded()
        &&& self.pos == self.duration ==> !self.forward
        &&& self.pos == 0 ==> self.forward
    }

    /// The position unrolled onto one full period (out and back): a single
    /// coordinate in `[0, 2 * duration)` that increases with elapsed time.
    pub open spec fn unrolled(self) -> int {
        if self.forward {
            self.pos as int
        } else {
            2 * self.duration - self.pos
        }
    }

    /// Where in the sweep the mover is after `delta` more milliseconds.
    pub open spec fn pos_after(self, delta: int) -> int {
        let u = (self.unrolled() + delta) % (2 * self.duration);
        if u <= self.duration {
            u
        } else {
            2 * self.duration - u
        }
    }

    /// Which way the mover heads after `delta` more milliseconds.
    pub open spec fn forward_after(self, delta: int) -> bool {
        (self.unrolled() + delta) % (2 * self.duration) < self.duration
    }

    /// How many times the direction flips while `delta` milliseconds pass:
    /// one flip for each endpoint the mover reaches.
    pub open spec fn flips_in(self, delta: int) -> int {
        (self.unrolled() + delta) / (self.duration as int) - self.unrolled() / (
        self.duration as int)
    }

    /// A fresh mover for the given descriptor: at the start pose, headed
    /// towards the target.
    pub fn fresh(start: Vec3i, mv: &TweenMove) -> (t: TweenState)
        requires
            start.bounded(),
            mv.wf(),
        ensures
            t.wf(),
            t.start == start,
            t.target == mv.target,
            t.duration == mv.duration,
            t.pos == 0,
            t.forward,
    {
        TweenState { start, target: mv.target, duration: mv.duration, pos: 0, forward: true }
    }

    /// Advance the mover by `delta` milliseconds, reflecting the direction
    /// whenever an endpoint is reached, so the motion ping-pongs forever.
    pub fn advance(&mut self, delta: u64)
        requires
            old(self).wf(),
        ensures
            final(self).wf(),
            final(self).start == old(self).start,
            final(self).target == old(self).target,
            final(self).duration == old(self).duration,
            final(self).pos == old(self).pos_after(delta as int),
            final(self).forward == old(self).forward_after(delta as int),
    {
        let d = self.duration;
        let period = 2 * d;
        let u: u64 = if self.forward {
            self.pos
        } else {
            period - self.pos
        };
        let step = delta % period;
        let u2 = (u + step) % period;
        proof {
            vstd::arithmetic::div_mod::lemma_small_mod(u as nat, period as nat);
            vstd::arithmetic::div_mod::lemma_mod_twice(delta as int, period as int);
            vstd::arithmetic::div_mod::lemma_add_mod_noop(u as int, step as int, period as int);
            vstd::arithmetic::div_mod::lemma_add_mod_noop(u as int, delta as int, period as int);
            assert(u2 == (self.unrolled() + delta) % (2 * d));
        }
        if u2 < d {
            self.pos = u2;
            self.forward = true;
        } else {
            self.pos = period - u2;
            self.forward = false;
        }
    }

    /// The pose at the current position: each coordinate interpolated
    /// linearly from the start pose to the target pose.
    pub fn sample(&self) -> (p: Vec3i)
        requires
            self.wf(),
        ensures
            p.x == lerp(self.start.x as int, self.target.x as int, self.pos as int, self.duration as int),
            p.y == lerp(self.start.y as int, self.target.y as int, self.pos as int, self.duration as int),
            p.z == lerp(self.start.z as int, self.target.z as int, self.pos as int, self.duration as int),
            p.bounded(),
            self.pos == 0 ==> p == self.start,
            self.pos == self.duration ==> p == self.target,
    {
        let p = Vec3i {
            x: lerp_coord(self.start.x, self.target.x, self.pos, self.duration),
            y: lerp_coord(self.start.y, self.target.y, self.pos, self.duration),
            z: lerp_coord(self.start.z, self.target.z, self.pos, self.duration),
        };
        p
    }
}

/// One interpolated coordinate; the division is performed on non-negative
/// quantities so the result lies between `a` and `b`.
fn lerp_coord(a: i64, b: i64, pos: u64, d: u64) -> (r: i64)
    requires
        0 < d <= DURATION_LIMIT,
        pos <= d,
        -COORD_LIMIT <= a <= COORD_LIMIT,
        -COORD_LIMIT <= b <= COORD_LIMIT,
    ensures
        r == lerp(a as int, b as int, pos as int, d as int),
        -COORD_LIMIT <= r <= COORD_LIMIT,
        pos == 0 ==> r == a,
        pos == d ==> r == b,
{
    proof {
        vstd::arithmetic::div_mod::lemma_div_basics(d as int);
    }
    if b >= a {
        let diff = (b - a) as u64;
        proof {
            lemma_scaled_bounds(diff as int, pos as int, d as int);
        }
        let scaled = diff * pos / d;
        a + (scaled as i64)
    } else {
        let diff = (a - b) as u64;
        proof {
            lemma_scaled_bounds(diff as int, pos as int, d as int);
        }
        let scaled = diff * pos / d;
        a - (scaled as i64)
    }
}

/// The scaled offset `diff * pos / d` never overflows and never leaves
/// `[0, diff]` while `pos` stays inside the sweep.
proof fn lemma_scaled_bounds(diff: int, pos: int, d: int)
    requires
        0 <= diff <= 2 * COORD_LIMIT,
        0 < d <= DURATION_LIMIT,
        0 <= pos <= d,
    ensures
        0 <= diff * pos <= 2 * COORD_LIMIT * DURATION_LIMIT,
        0 <= diff * pos / d <= diff,
        pos == d ==> diff * pos / d == diff,
        pos == 0 ==> diff * pos / d == 0,
{
    vstd::arithmetic::mul::lemma_mul_nonnegative(diff, pos);
    vstd::arithmetic::mul::lemma_mul_inequality(pos, d, diff);
    vstd::arithmetic::mul::lemma_mul_is_commutative(diff, pos);
    vstd::arithmetic::mul::lemma_mul_is_commutative(diff, d);
    vstd::arithmetic::mul::lemma_mul_inequality(diff, 2 * COORD_LIMIT, d);
    vstd::arithmetic::mul::lemma_mul_is_commutative(2 * COORD_LIMIT, d);
    vstd::arithmetic::mul::lemma_mul_inequality(d, DURATION_LIMIT as int, 2 * COORD_LIMIT);
    vstd::arithmetic::mul::lemma_mul_is_commutative(2 * COORD_LIMIT, DURATION_LIMIT as int);
    vstd::arithmetic::div_mod::lemma_div_is_ordered(0, diff * pos, d);
    vstd::arithmetic::div_mod::lemma_div_is_ordered(diff * pos, diff * d, d);
    vstd::arithmetic::div_mod::lemma_div_by_multiple(diff, d);
}

/// Ping-pong at the midpoint: a mover that starts at position 0 headed
/// forward and runs for one and a half periods has flipped direction
/// exactly once, sits halfway through the sweep, and is headed backward.
pub proof fn lemma_ping_pong_midpoint(t: TweenState, delta: int)
    requires
        t.wf(),
        t.pos == 0,
        t.forward,
        t.duration % 2 == 0,
        delta == 3 * (t.duration as int) / 2,
    ensures
        t.pos_after(delta) == t.duration / 2,
        !t.forward_after(delta),
        t.flips_in(delta) == 1,
{
    let d = t.duration as int;
    assert(t.unrolled() == 0);
    assert(delta == 3 * d / 2 == d + d / 2) by {
        vstd::arithmetic::div_mod::lemma_fundamental_div_mod(d, 2);
    }
    assert(0 <= d + d / 2 < 2 * d) by {
        vstd::arithmetic::div_mod::lemma_div_is_ordered(0, d, 2);
        vstd::arithmetic::div_mod::lemma_multiply_divide_lt(d, 2, d);
    }
    vstd::arithmetic::div_mod::lemma_small_mod((d + d / 2) as nat, (2 * d) as nat);
    assert((0 + delta) % (2 * d) == d + d / 2);
    assert(t.pos_after(delta) == 2 * d - (d + d / 2) == d - d / 2);
    assert(d - d / 2 == d / 2) by {
        vstd::arithmetic::div_mod::lemma_fundamental_div_mod(d, 2);
    }
    assert(t.flips_in(delta) == (d + d / 2) / d);
    assert((d + d / 2) / d == 1) by {
        vstd::arithmetic::div_mod::lemma_div_is_ordered(d, d + d / 2, d);
        vstd::arithmetic::div_mod::lemma_div_basics(d);
        assert(d / d == 1);
        vstd::arithmetic::div_mod::lemma_multiply_divide_lt(d + d / 2, d, 2);
        vstd::arithmetic::mul::lemma_mul_is_commutative(d, 2);
    }
}

} // verus!
