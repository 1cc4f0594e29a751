//! Points and vectors of the arena, in whole units.

use crate::draw::{fraction_of, lemma_fraction_of_bounds, scale, HALF_DRAW};
use crate::{ARENA_HEIGHT, ARENA_WIDTH, SPAWN_INSET, SPEED};
use vstd::prelude::*;

verus! {

/// A position in the arena, or a displacement per tick.
#[derive(Clone, Copy, Debug, PartialEq, Eq, Structural)]
pub struct Point {
    pub x: i32,
    pub y: i32,
}

/// Where a draw puts a fresh dot on an axis of length `bound`: the draw is
/// spread evenly over the coordinates that keep `SPAWN_INSET` from both ends
/// of the axis.
pub open spec fn spawn_coordinate(draw: u32, bound: int) -> int {
    SPAWN_INSET + fraction_of(draw, bound - 2 * SPAWN_INSET)
}

/// One component of a velocity: its magnitude, negated when the sign draw
/// is one half or more.
pub open spec fn signed_by(magnitude: int, sign_draw: u32) -> int {
    if sign_draw >= HALF_DRAW {
        -magnitude
    } else {
        magnitude
    }
}

/// The absolute value of `v`.
pub open spec fn magnitude(v: int) -> int {
    if v < 0 {
        -v
    } else {
        v
    }
}

/// The square of the Euclidean distance between `a` and `b`.
pub open spec fn distance_squared(a: Point, b: Point) -> int {
    (a.x - b.x) * (a.x - b.x) + (a.y - b.y) * (a.y - b.y)
}

/// Whether `d` is the Euclidean distance `sqrt(square)` rounded up to a
/// whole number: the least natural number whose square reaches `square`.
pub open spec fn is_rounded_up_root(d: int, square: int) -> bool {
    &&& 0 <= d
    &&& d * d >= square
    &&& d > 0 ==> (d - 1) * (d - 1) < square
}

/// Squares grow with their non-negative argument.
pub proof fn lemma_square_monotone(a: int, b: int)
    requires
        0 <= a <= b,
    ensures
        a * a <= b * b,
{
    assert(a * a <= b * b) by (nonlinear_arith)
        requires
            0 <= a <= b,
    ;
}

/// A spawn coordinate keeps the inset from both ends of its axis.
pub proof fn lemma_spawn_coordinate_bounds(draw: u32, bound: int)
    requires
        2 * SPAWN_INSET < bound,
    ensures
        SPAWN_INSET <= spawn_coordinate(draw, bound) < bound - SPAWN_INSET,
{
    lemma_fraction_of_bounds(draw, bound - 2 * SPAWN_INSET);
}

/// Comparing the rounded-up distance with a whole number gives the same
/// answer as comparing the exact distance with it.
pub proof fn lemma_rounded_up_root_compares_exactly(d: int, square: int, reach: int)
    requires
        is_rounded_up_root(d, square),
        0 <= reach,
    ensures
        d <= reach <==> square <= reach * reach,
{
    if d <= reach {
        lemma_square_monotone(d, reach);
    } else {
        lemma_square_monotone(reach, d - 1);
    }
}

fn spawn_on_axis(draw: u32, bound: i32) -> (c: i32)
    requires
        2 * SPAWN_INSET < bound,
    ensures
        c == spawn_coordinate(draw, bound as int),
        SPAWN_INSET <= c < bound - SPAWN_INSET,
{
    SPAWN_INSET + scale(draw, bound - 2 * SPAWN_INSET)
}

fn signed(magnitude: i32, sign_draw: u32) -> (v: i32)
    requires
        0 <= magnitude,
    ensures
        v == signed_by(magnitude as int, sign_draw),
{
    if sign_draw >= HALF_DRAW {
        -magnitude
    } else {
        magnitude
    }
}

fn gap(a: i32, b: i32) -> (g: u64)
    ensures
        g == magnitude(a - b),
        g <= 0xffff_ffff,
{
    let wide: i64 = a as i64 - b as i64;
    if wide < 0 {
        (-wide) as u64
    } else {
        wide as u64
    }
}

impl Point {
    /// The point `(x, y)`.
    pub fn new(x: i32, y: i32) -> (p: Self)
        ensures
            p.x == x,
            p.y == y,
    {
        Self { x, y }
    }

    /// The starting position that the draws `draw_x` and `draw_y` give.
    pub open spec fn spawned(draw_x: u32, draw_y: u32) -> Point {
        Point {
            x: spawn_coordinate(draw_x, ARENA_WIDTH as int) as i32,
            y: spawn_coordinate(draw_y, ARENA_HEIGHT as int) as i32,
        }
    }

    /// The velocity that the draws give: `offset` splits `SPEED` between the
    /// axes, `neg_x` and `neg_y` choose the signs.
    pub open spec fn headed(offset: u32, neg_x: u32, neg_y: u32) -> Point {
        let along = fraction_of(offset, SPEED as int);
        Point {
            x: signed_by(along, neg_x) as i32,
            y: signed_by(SPEED - along, neg_y) as i32,
        }
    }

    /// This point moved by `delta`.
    pub open spec fn moved(self, delta: Point) -> Point {
        Point { x: (self.x + delta.x) as i32, y: (self.y + delta.y) as i32 }
    }

    /// Whether moving this point by `delta` stays within the coordinate
    /// range.
    pub open spec fn can_move(self, delta: Point) -> bool {
        &&& i32::MIN <= self.x + delta.x <= i32::MAX
        &&& i32::MIN <= self.y + delta.y <= i32::MAX
    }

    /// A starting position for a floating dot, from one draw per axis.
    /// Evenly spread draws give evenly spread positions. The position keeps
    /// at least `SPAWN_INSET` from every edge, so a fresh dot never overlaps
    /// a wall.
    pub fn random_point(draw_x: u32, draw_y: u32) -> (p: Self)
        ensures
            p == Self::spawned(draw_x, draw_y),
            SPAWN_INSET <= p.x < ARENA_WIDTH - SPAWN_INSET,
            SPAWN_INSET <= p.y < ARENA_HEIGHT - SPAWN_INSET,
    {
        Self { x: spawn_on_axis(draw_x, ARENA_WIDTH), y: spawn_on_axis(draw_y, ARENA_HEIGHT) }
    }

    /// A velocity for a floating dot. The magnitudes of its components are
    /// complementary parts of `SPEED`, so every heading has the same speed.
    pub fn random_direction(offset: u32, neg_x: u32, neg_y: u32) -> (v: Self)
        ensures
            v == Self::headed(offset, neg_x, neg_y),
            magnitude(v.x as int) + magnitude(v.y as int) == SPEED,
    {
        let along: i32 = scale(offset, SPEED);
        Self { x: signed(along, neg_x), y: signed(SPEED - along, neg_y) }
    }

    /// Adds `delta` to this point. Nothing wraps and nothing is clamped:
    /// keeping the point inside the arena is the caller's business.
    pub fn translate(&mut self, delta: Point)
        requires
            old(self).can_move(delta),
        ensures
            *final(self) == old(self).moved(delta),
            final(self).x == old(self).x + delta.x,
            final(self).y == old(self).y + delta.y,
    {
        self.x = self.x + delta.x;
        self.y = self.y + delta.y;
    }

    /// The exact square of the Euclidean distance to `target`.
    pub fn distance_squared(self, target: Point) -> (square: u128)
        ensures
            square == distance_squared(self, target),
    {
        let a: u64 = gap(self.x, target.x);
        let b: u64 = gap(self.y, target.y);
        assert(a * a <= 0xffff_ffff * 0xffff_ffff && b * b <= 0xffff_ffff * 0xffff_ffff)
            by (nonlinear_arith)
            requires
                a <= 0xffff_ffff,
                b <= 0xffff_ffff,
        ;
        assert(a * a == (self.x - target.x) * (self.x - target.x)) by (nonlinear_arith)
            requires
                a == magnitude(self.x - target.x),
        ;
        assert(b * b == (self.y - target.y) * (self.y - target.y)) by (nonlinear_arith)
            requires
                b == magnitude(self.y - target.y),
        ;
        (a * a) as u128 + (b * b) as u128
    }

    /// The Euclidean distance to `target`, rounded up to a whole unit.
    pub fn distance(self, target: Point) -> (d: u64)
        ensures
            is_rounded_up_root(d as int, distance_squared(self, target)),
    {
        let square: u128 = self.distance_squared(target);
        let mut low: u64 = 0;
        let mut high: u64 = 0x2_0000_0000;
        assert(square <= 0x2_0000_0000int * 0x2_0000_0000int) by (nonlinear_arith)
            requires
                square == distance_squared(self, target),
        ;
        while low < high
            invariant
                low <= high <= 0x2_0000_0000,
                high * high >= square,
                low > 0 ==> (low - 1) * (low - 1) < square,
            decreases high - low,
        {
            let mid: u64 = low + (high - low) / 2;
            proof {
                lemma_square_monotone(mid as int, 0x2_0000_0000);
            }
            let mid_square: u128 = (mid as u128) * (mid as u128);
            if mid_square >= square {
                high = mid;
            } else {
                low = mid + 1;
            }
        }
        low
    }
}

impl From<(i32, i32)> for Point {
    fn from(pos: (i32, i32)) -> (p: Point) {
        Point::new(pos.0, pos.1)
    }
}

impl vstd::std_specs::convert::FromSpecImpl<(i32, i32)> for Point {
    open spec fn obeys_from_spec() -> bool {
        true
    }

    open spec fn from_spec(pos: (i32, i32)) -> Point {
        Point { x: pos.0, y: pos.1 }
    }
}

} // verus!
