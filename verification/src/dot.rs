//! A single dot: where it is, how large it is, where it is heading, and
//! the state machine that one tick advances.

use crate::color::Color;
use crate::geometry::{
    distance_squared, lemma_rounded_up_root_compares_exactly, magnitude, Point,
};
use crate::{ARENA_HEIGHT, ARENA_WIDTH, GROWTH_SPEED, HANG_TIME, MAX_RADIUS, MIN_RADIUS, SPEED};
use vstd::prelude::*;

verus! {

/// The state of a dot. A dot passes through the states in the order in which
/// they are listed and never goes back; only a capture restarts it at
/// `Growing`.
#[derive(Clone, Copy, Debug, PartialEq, Eq, Structural)]
pub enum DotState {
    /// Drifting, and open to capture.
    Floating,
    /// Captured and expanding; captures the floating dots it touches.
    Growing,
    /// At maximum radius since the timestamp it carries.
    Full(u32),
    /// Contracting back to the minimum radius.
    Shrinking,
    /// Back at the minimum radius and inert for the rest of the round.
    Dead,
}

impl DotState {
    /// Position of the state in the life of a dot.
    pub open spec fn rank(self) -> nat {
        match self {
            DotState::Floating => 0,
            DotState::Growing => 1,
            DotState::Full(_) => 2,
            DotState::Shrinking => 3,
            DotState::Dead => 4,
        }
    }

    /// The state without its timestamp.
    pub open spec fn packed(self) -> PackedDotState {
        match self {
            DotState::Floating => PackedDotState::Floating,
            DotState::Growing => PackedDotState::Growing,
            DotState::Full(_) => PackedDotState::Full,
            DotState::Shrinking => PackedDotState::Shrinking,
            DotState::Dead => PackedDotState::Dead,
        }
    }

    /// Whether a dot in this state captures the floating dots it touches.
    pub open spec fn capturing(self) -> bool {
        self is Growing || self is Full || self is Shrinking
    }

    /// Whether a dot in this state captures the floating dots it touches.
    pub fn is_capturing(&self) -> (b: bool)
        ensures
            b == self.capturing(),
    {
        match self {
            DotState::Growing | DotState::Full(_) | DotState::Shrinking => true,
            _ => false,
        }
    }

    /// Whether this is the `Floating` state.
    pub fn is_floating(&self) -> (b: bool)
        ensures
            b == (*self is Floating),
    {
        match self {
            DotState::Floating => true,
            _ => false,
        }
    }
}

/// The state of a dot as the packed record carries it: the variant without
/// the timestamp.
#[derive(Clone, Copy, Debug, PartialEq, Eq, Structural)]
pub enum PackedDotState {
    Floating,
    Growing,
    Full,
    Shrinking,
    Dead,
}

impl PackedDotState {
    /// The number that stands for the state in a packed record.
    pub open spec fn code_of(self) -> u8 {
        match self {
            PackedDotState::Floating => 1,
            PackedDotState::Growing => 2,
            PackedDotState::Full => 3,
            PackedDotState::Shrinking => 4,
            PackedDotState::Dead => 5,
        }
    }

    /// The number that stands for the state in a packed record.
    pub fn code(self) -> (c: u8)
        ensures
            c == self.code_of(),
    {
        match self {
            PackedDotState::Floating => 1,
            PackedDotState::Growing => 2,
            PackedDotState::Full => 3,
            PackedDotState::Shrinking => 4,
            PackedDotState::Dead => 5,
        }
    }
}

impl From<DotState> for PackedDotState {
    fn from(state: DotState) -> (packed: Self) {
        match state {
            DotState::Floating => PackedDotState::Floating,
            DotState::Growing => PackedDotState::Growing,
            DotState::Full(_) => PackedDotState::Full,
            DotState::Shrinking => PackedDotState::Shrinking,
            DotState::Dead => PackedDotState::Dead,
        }
    }
}

impl vstd::std_specs::convert::FromSpecImpl<DotState> for PackedDotState {
    open spec fn obeys_from_spec() -> bool {
        true
    }

    open spec fn from_spec(state: DotState) -> Self {
        state.packed()
    }
}

/// The packed record of one dot:
/// `[x, y, radius, state code, red, green, blue]`, lengths in units.
pub type PackedDot = [i64; 7];

/// One dot of a round.
#[derive(Clone, Copy, Debug, PartialEq, Eq, Structural)]
pub struct Dot {
    pub position: Point,
    pub radius: i32,
    pub velocity: Point,
    pub state: DotState,
    pub color: Color,
}

impl Dot {
    /// The radius lies between the minimum and the maximum.
    pub open spec fn radius_in_range(self) -> bool {
        MIN_RADIUS <= self.radius <= MAX_RADIUS
    }

    /// The velocity is zero, or its components share out `SPEED`.
    pub open spec fn velocity_is_valid(self) -> bool {
        ||| self.velocity == (Point { x: 0, y: 0 })
        ||| magnitude(self.velocity.x as int) + magnitude(self.velocity.y as int) == SPEED
    }

    /// What every dot of a round satisfies: a radius in range, a valid
    /// velocity, and a position from which one more step can be taken.
    pub open spec fn wf(self) -> bool {
        &&& self.radius_in_range()
        &&& self.velocity_is_valid()
        &&& self.position.can_move(self.velocity)
    }

    /// The horizontal edge condition: the dot touches or has crossed the
    /// left or the right wall.
    pub open spec fn at_side_wall(self) -> bool {
        self.position.x <= self.radius || self.position.x >= ARENA_WIDTH - self.radius
    }

    /// The vertical edge condition: the dot touches or has crossed the top
    /// or the bottom wall.
    pub open spec fn at_end_wall(self) -> bool {
        self.position.y <= self.radius || self.position.y >= ARENA_HEIGHT - self.radius
    }

    /// The dot after one step along its velocity.
    pub open spec fn moved(self) -> Dot {
        Dot { position: self.position.moved(self.velocity), ..self }
    }

    /// The dot after the walls have turned it: each velocity component is
    /// inverted where its edge condition holds, both of them in a corner.
    pub open spec fn bounced(self) -> Dot {
        Dot {
            velocity: Point {
                x: if self.at_side_wall() {
                    (-self.velocity.x) as i32
                } else {
                    self.velocity.x
                },
                y: if self.at_end_wall() {
                    (-self.velocity.y) as i32
                } else {
                    self.velocity.y
                },
            },
            ..self
        }
    }

    /// The dot after one more step of growth, which never passes the
    /// maximum radius.
    pub open spec fn grown(self) -> Dot {
        Dot {
            radius: if self.radius + GROWTH_SPEED > MAX_RADIUS {
                MAX_RADIUS
            } else {
                (self.radius + GROWTH_SPEED) as i32
            },
            ..self
        }
    }

    /// The dot after one more step of shrinking, which never passes the
    /// minimum radius.
    pub open spec fn shrunk(self) -> Dot {
        Dot {
            radius: if self.radius - GROWTH_SPEED < MIN_RADIUS {
                MIN_RADIUS
            } else {
                (self.radius - GROWTH_SPEED) as i32
            },
            ..self
        }
    }

    /// The dot in another state, all else unchanged.
    pub open spec fn in_state(self, state: DotState) -> Dot {
        Dot { state, ..self }
    }

    /// The dot one tick later, at time `now`.
    pub open spec fn ticked(self, now: u32) -> Dot {
        match self.state {
            DotState::Floating => self.moved().bounced(),
            DotState::Growing => if self.radius >= MAX_RADIUS {
                self.in_state(DotState::Full(now))
            } else {
                self.grown()
            },
            DotState::Full(since) => if now - since >= HANG_TIME {
                self.in_state(DotState::Shrinking)
            } else {
                self
            },
            DotState::Shrinking => if self.radius <= MIN_RADIUS {
                self.in_state(DotState::Dead)
            } else {
                self.shrunk()
            },
            DotState::Dead => self,
        }
    }

    /// The dot after a capture.
    pub open spec fn captured(self) -> Dot {
        self.in_state(DotState::Growing)
    }

    /// Whether the two dots touch: the distance between their centres is at
    /// most the sum of their radii.
    pub open spec fn touches(self, other: Dot) -> bool {
        &&& 0 <= self.radius + other.radius
        &&& distance_squared(self.position, other.position) <= (self.radius + other.radius) * (
        self.radius + other.radius)
    }

    /// Whether a floating dot is where the walls keep it: on each axis
    /// inside the walls, or past one by less than a step and already
    /// heading back.
    pub open spec fn in_play(self) -> bool {
        let Dot { position, radius, velocity, .. } = self;
        &&& radius - magnitude(velocity.x as int) < position.x < ARENA_WIDTH - radius + magnitude(
            velocity.x as int,
        )
        &&& position.x <= radius ==> velocity.x > 0
        &&& position.x >= ARENA_WIDTH - radius ==> velocity.x < 0
        &&& radius - magnitude(velocity.y as int) < position.y < ARENA_HEIGHT - radius + magnitude(
            velocity.y as int,
        )
        &&& position.y <= radius ==> velocity.y > 0
        &&& position.y >= ARENA_HEIGHT - radius ==> velocity.y < 0
    }

    /// The record that stands for the dot in a packed buffer.
    pub open spec fn record(self) -> Seq<i64> {
        seq![
            self.position.x as i64,
            self.position.y as i64,
            self.radius as i64,
            self.state.packed().code_of() as i64,
            self.color.r as i64,
            self.color.g as i64,
            self.color.b as i64,
        ]
    }

    /// A dot of minimum radius.
    pub fn new(position: Point, velocity: Point, state: DotState, color: Color) -> (dot: Self)
        ensures
            dot == (Dot { position, radius: MIN_RADIUS, velocity, state, color }),
    {
        Self { position, velocity, state, radius: MIN_RADIUS, color }
    }

    /// Whether the dot is well formed, for a caller that has put a dot
    /// together by hand.
    pub fn is_well_formed(&self) -> (b: bool)
        ensures
            b == self.wf(),
    {
        let vx: i64 = self.velocity.x as i64;
        let vy: i64 = self.velocity.y as i64;
        let speed: i64 = (if vx < 0 { -vx } else { vx }) + (if vy < 0 { -vy } else { vy });
        let x: i64 = self.position.x as i64 + vx;
        let y: i64 = self.position.y as i64 + vy;
        let radius_fits: bool = MIN_RADIUS <= self.radius && self.radius <= MAX_RADIUS;
        let velocity_fits: bool = speed == 0 || speed == SPEED as i64;
        let step_fits: bool = i32::MIN as i64 <= x && x <= i32::MAX as i64 && i32::MIN as i64 <= y
            && y <= i32::MAX as i64;
        radius_fits && velocity_fits && step_fits
    }

    /// Advances the dot by one tick, at time `now`.
    ///
    /// A floating dot takes a step and is then turned by the walls it has
    /// reached. A growing dot grows until it is full and then records `now`.
    /// A full dot starts to shrink once `HANG_TIME` has passed since then. A
    /// shrinking dot shrinks to the minimum radius and then dies. The state
    /// stays or moves one place on, and never back.
    pub fn tick(&mut self, now: u32)
        requires
            old(self).wf(),
        ensures
            *final(self) == old(self).ticked(now),
            final(self).wf(),
            old(self).state.rank() <= final(self).state.rank() <= old(self).state.rank() + 1,
            old(self).state is Floating && old(self).in_play() ==> final(self).in_play(),
    {
        match self.state {
            DotState::Floating => {
                self.position.translate(self.velocity);
                self.handle_bounce();
            },
            DotState::Growing => {
                if self.radius >= MAX_RADIUS {
                    self.state = DotState::Full(now);
                } else if self.radius + GROWTH_SPEED > MAX_RADIUS {
                    self.radius = MAX_RADIUS;
                } else {
                    self.radius = self.radius + GROWTH_SPEED;
                }
            },
            DotState::Full(since) => {
                if now >= since && now - since >= HANG_TIME {
                    self.state = DotState::Shrinking;
                }
            },
            DotState::Shrinking => {
                if self.radius <= MIN_RADIUS {
                    self.state = DotState::Dead;
                } else if self.radius - GROWTH_SPEED < MIN_RADIUS {
                    self.radius = MIN_RADIUS;
                } else {
                    self.radius = self.radius - GROWTH_SPEED;
                }
            },
            DotState::Dead => {},
        }
    }

    /// Captures the dot: whatever its state was, it is `Growing` now.
    pub fn capture(&mut self)
        ensures
            *final(self) == old(self).captured(),
    {
        self.state = DotState::Growing;
    }

    /// Turns the dot at the walls it has reached: in a corner both velocity
    /// components are inverted, at a side wall the horizontal one, at the
    /// top or bottom the vertical one.
    pub fn handle_bounce(&mut self)
        requires
            old(self).radius_in_range(),
            old(self).velocity_is_valid(),
        ensures
            *final(self) == old(self).bounced(),
    {
        let side: bool = self.position.x <= self.radius || self.position.x >= ARENA_WIDTH
            - self.radius;
        let end: bool = self.position.y <= self.radius || self.position.y >= ARENA_HEIGHT
            - self.radius;
        if side && end {
            self.velocity = Point::new(-self.velocity.x, -self.velocity.y);
        } else if side {
            self.velocity = Point::new(-self.velocity.x, self.velocity.y);
        } else if end {
            self.velocity = Point::new(self.velocity.x, -self.velocity.y);
        }
    }

    /// Whether this dot touches `other`. The distance is compared exactly:
    /// rounding it up to a whole unit never changes the answer.
    pub fn is_touching(&self, other: &Dot) -> (b: bool)
        ensures
            b == self.touches(*other),
    {
        let reach: i64 = self.radius as i64 + other.radius as i64;
        if reach < 0 {
            return false;
        }
        let d: u64 = self.position.distance(other.position);
        proof {
            lemma_rounded_up_root_compares_exactly(
                d as int,
                distance_squared(self.position, other.position),
                reach as int,
            );
        }
        d <= reach as u64
    }

    /// The record that stands for the dot in a packed buffer. The timestamp
    /// of a full dot is not part of it.
    pub fn pack(&self) -> (packed: PackedDot)
        ensures
            packed@ == self.record(),
    {
        let packed: PackedDot = [
            self.position.x as i64,
            self.position.y as i64,
            self.radius as i64,
            PackedDotState::from(self.state).code() as i64,
            self.color.r as i64,
            self.color.g as i64,
            self.color.b as i64,
        ];
        assert(packed@ =~= self.record());
        packed
    }
}

} // verus!
