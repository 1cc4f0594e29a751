//! A round as a mathematical value, and what each operation makes of it.
//!
//! The executable `Level` is specified against this model: every operation
//! of `Level` is stated as one function of `LevelView`.

use crate::color::{mixed, Color};
use crate::dot::{Dot, DotState};
use crate::draw::lemma_fraction_of_bounds;
use crate::geometry::{lemma_spawn_coordinate_bounds, Point};
use crate::table::{level_defined, total_dots, win_threshold};
use crate::{ARENA_HEIGHT, ARENA_WIDTH, MIN_RADIUS, SPEED};
use vstd::prelude::*;

verus! {

/// Number of draws that make one floating dot: two for the position, three
/// for the velocity, three for the colour.
pub const DRAWS_PER_DOT: usize = 8;

/// Number of draws that colour the player's capture dot.
pub const DRAWS_PER_PLAYER: usize = 3;

/// Number of entries in the header of a packed buffer.
pub const HEADER_LENGTH: usize = 6;

/// Number of entries in the packed record of one dot.
pub const RECORD_LENGTH: usize = 7;

/// The state of a round. A round moves from `Begin` to `Waiting` to
/// `Clicked` and ends in `Won` or `Lost`.
#[derive(Clone, Copy, Debug, PartialEq, Eq, Structural)]
pub enum LevelState {
    /// Constructed, the dots not yet made.
    Begin,
    /// The dots drift; the player has not clicked yet.
    Waiting,
    /// The capture dot is planted and the chain reaction runs.
    Clicked,
    /// Settled with enough dots captured.
    Won,
    /// Settled with too few dots captured.
    Lost,
}

impl LevelState {
    /// The number that stands for the state in a packed header.
    pub open spec fn code_of(self) -> u8 {
        match self {
            LevelState::Begin => 0,
            LevelState::Waiting => 1,
            LevelState::Clicked => 2,
            LevelState::Won => 3,
            LevelState::Lost => 4,
        }
    }

    /// Whether the round is over.
    pub open spec fn terminal(self) -> bool {
        self is Won || self is Lost
    }

    /// Whether `next` is the state one step after this one.
    pub open spec fn precedes(self, next: LevelState) -> bool {
        match self {
            LevelState::Begin => next is Waiting,
            LevelState::Waiting => next is Clicked,
            LevelState::Clicked => next.terminal(),
            LevelState::Won => false,
            LevelState::Lost => false,
        }
    }

    /// Whether a round in this state can be in state `next` after one
    /// operation: it stays, or it takes one step.
    pub open spec fn may_become(self, next: LevelState) -> bool {
        self == next || self.precedes(next)
    }

    /// The number that stands for the state in a packed header.
    pub fn code(self) -> (c: u8)
        ensures
            c == self.code_of(),
    {
        match self {
            LevelState::Begin => 0,
            LevelState::Waiting => 1,
            LevelState::Clicked => 2,
            LevelState::Won => 3,
            LevelState::Lost => 4,
        }
    }
}

/// Whether entry `at` of a packed buffer is a length in units: the first
/// three entries of every record, which are x, y and the radius.
pub open spec fn length_entry(at: int) -> bool {
    at >= HEADER_LENGTH && (at - HEADER_LENGTH) % (RECORD_LENGTH as int) < 3
}

/// Whether entry `at` of a packed buffer is a length in units, to be
/// divided by `UNITS_PER_PIXEL` for its value in pixels.
pub fn is_length_entry(at: usize) -> (b: bool)
    ensures
        b == length_entry(at as int),
{
    at >= HEADER_LENGTH && (at - HEADER_LENGTH) % RECORD_LENGTH < 3
}

/// The floating dot that the draws make for `id`: dot `id` reads the eight
/// draws from `DRAWS_PER_DOT * id` on, in the order position, velocity,
/// colour.
pub open spec fn spawned_dot(draws: Seq<u32>, id: int) -> Dot {
    let at = DRAWS_PER_DOT * id;
    Dot {
        position: Point::spawned(draws[at], draws[at + 1]),
        radius: MIN_RADIUS,
        velocity: Point::headed(draws[at + 2], draws[at + 3], draws[at + 4]),
        state: DotState::Floating,
        color: mixed(draws[at + 5], draws[at + 6], draws[at + 7]),
    }
}

/// The first `total` floating dots that the draws make.
pub open spec fn spawned_dots(total: nat, draws: Seq<u32>) -> Seq<Dot> {
    Seq::new(total, |id: int| spawned_dot(draws, id))
}

/// The capture dot that a click at `(x, y)` plants: at rest and growing.
pub open spec fn planted_dot(x: i32, y: i32, color: Color) -> Dot {
    Dot {
        position: Point { x, y },
        radius: MIN_RADIUS,
        velocity: Point { x: 0, y: 0 },
        state: DotState::Growing,
        color,
    }
}

/// The dots after each has been advanced by one tick.
pub open spec fn advanced(dots: Seq<Dot>, now: u32) -> Seq<Dot> {
    Seq::new(dots.len(), |id: int| dots[id].ticked(now))
}

/// Whether dot `other` is a capturing dot that touches dot `id`.
pub open spec fn captures(dots: Seq<Dot>, id: int, other: int) -> bool {
    &&& 0 <= other < dots.len()
    &&& dots[other].state.capturing()
    &&& dots[id].touches(dots[other])
}

/// Whether dot `id` is marked for capture: it floats and some capturing dot
/// touches it.
pub open spec fn is_hit(dots: Seq<Dot>, id: int) -> bool {
    &&& dots[id].state is Floating
    &&& exists|other: int| captures(dots, id, other)
}

/// The dots after collision detection: every marked dot is captured, all
/// marks taken from the dots as they were before any capture.
pub open spec fn collided(dots: Seq<Dot>) -> Seq<Dot> {
    Seq::new(
        dots.len(),
        |id: int|
            if is_hit(dots, id) {
                dots[id].captured()
            } else {
                dots[id]
            },
    )
}

/// Whether `id` names a dot in a capturing state.
pub open spec fn is_capturer(dots: Seq<Dot>, id: int) -> bool {
    0 <= id < dots.len() && dots[id].state.capturing()
}

/// Whether any dot is still in a capturing state.
pub open spec fn any_capturing(dots: Seq<Dot>) -> bool {
    exists|id: int| is_capturer(dots, id)
}

/// Number of dots in the `Floating` state.
pub open spec fn floating_count(dots: Seq<Dot>) -> nat {
    dots.filter(|d: Dot| d.state is Floating).len()
}

/// Number of dots captured so far in a round of level `number`: the dots the
/// level started with, less those that still float.
pub open spec fn captured_count(number: u8, dots: Seq<Dot>) -> int {
    total_dots(number) - floating_count(dots)
}

/// How a settled round of level `number` ends.
pub open spec fn outcome(number: u8, dots: Seq<Dot>) -> LevelState {
    if captured_count(number, dots) >= win_threshold(number) {
        LevelState::Won
    } else {
        LevelState::Lost
    }
}

/// A round as a mathematical value.
pub struct LevelView {
    /// The level number.
    pub number: u8,
    /// The state of the round.
    pub state: LevelState,
    /// The dots, each at the index that is its id.
    pub dots: Seq<Dot>,
    /// The time of the latest tick.
    pub last_update: u32,
}

impl LevelView {
    /// A round of level `number` that has not begun.
    pub open spec fn fresh(number: u8) -> LevelView {
        LevelView { number, state: LevelState::Begin, dots: Seq::empty(), last_update: 0 }
    }

    /// Number of dots the round's level starts with.
    pub open spec fn total(self) -> int {
        total_dots(self.number) as int
    }

    /// What holds of every round that the operations can reach.
    ///
    /// Every dot is well formed, and every floating dot is in play. Before
    /// the round begins there are no dots. While it waits, the dots are
    /// those of the level and all of them float. From the click on there is
    /// one more dot, the player's, which comes last and does not float.
    pub open spec fn wf(self) -> bool {
        &&& forall|id: int| 0 <= id < self.dots.len() ==> (#[trigger] self.dots[id]).wf()
        &&& forall|id: int|
            0 <= id < self.dots.len() && (#[trigger] self.dots[id]).state is Floating
                ==> self.dots[id].in_play()
        &&& match self.state {
            LevelState::Begin => self.dots.len() == 0,
            LevelState::Waiting => {
                &&& level_defined(self.number)
                &&& self.dots.len() == self.total()
                &&& forall|id: int|
                    0 <= id < self.dots.len() ==> (#[trigger] self.dots[id]).state is Floating
            },
            _ => {
                &&& level_defined(self.number)
                &&& self.dots.len() == self.total() + 1
                &&& !(self.dots[self.total()].state is Floating)
            },
        }
    }

    /// The round after `begin`: a round in `Begin` whose level is defined
    /// gets its dots and waits; any other round is left as it is.
    pub open spec fn begun(self, draws: Seq<u32>) -> LevelView {
        if self.state is Begin && level_defined(self.number) {
            LevelView {
                state: LevelState::Waiting,
                dots: spawned_dots(total_dots(self.number), draws),
                ..self
            }
        } else {
            self
        }
    }

    /// The round after `add_player`: a waiting round gets the capture dot
    /// as its last dot and is `Clicked`; any other round is left as it is.
    pub open spec fn with_player(self, x: i32, y: i32, color: Color) -> LevelView {
        if self.state is Waiting {
            LevelView {
                state: LevelState::Clicked,
                dots: self.dots.push(planted_dot(x, y, color)),
                ..self
            }
        } else {
            self
        }
    }

    /// The round after the outcome check: a `Clicked` round in which no dot
    /// captures any more is won or lost; any other round is left as it is.
    pub open spec fn settled(self) -> LevelView {
        if self.state is Clicked && !any_capturing(self.dots) {
            LevelView { state: outcome(self.number, self.dots), ..self }
        } else {
            self
        }
    }

    /// The round with every dot advanced by one tick at time `now`.
    pub open spec fn advanced_by(self, now: u32) -> LevelView {
        LevelView { dots: advanced(self.dots, now), ..self }
    }

    /// The round after collision detection.
    pub open spec fn after_collisions(self) -> LevelView {
        LevelView { dots: collided(self.dots), ..self }
    }

    /// Whether a tick advances the round: it waits or runs.
    pub open spec fn running(self) -> bool {
        self.state is Waiting || self.state is Clicked
    }

    /// The round after a tick at time `now`. A round that waits or runs has
    /// every dot advanced, then the collisions resolved, then the outcome
    /// checked. Any other round is frozen. Either way the time is recorded.
    pub open spec fn ticked(self, now: u32) -> LevelView {
        if self.running() {
            LevelView { last_update: now, ..self.advanced_by(now).after_collisions().settled() }
        } else {
            LevelView { last_update: now, ..self }
        }
    }

    /// The header of the packed buffer: level number, state code, number of
    /// dots, win threshold, captured count, time of the latest tick.
    pub open spec fn header(self) -> Seq<u32> {
        seq![
            self.number as u32,
            self.state.code_of() as u32,
            self.dots.len() as u32,
            win_threshold(self.number) as u32,
            captured_count(self.number, self.dots) as u32,
            self.last_update,
        ]
    }

    /// Entry `at` of the packed buffer: an entry of the header, or entry
    /// `(at - 6) % 7` of the record of dot `(at - 6) / 7`.
    pub open spec fn packed_entry(self, at: int) -> i64 {
        if at < HEADER_LENGTH {
            self.header()[at] as i64
        } else {
            self.dots[(at - HEADER_LENGTH) / RECORD_LENGTH as int].record()[(at - HEADER_LENGTH)
                % RECORD_LENGTH as int]
        }
    }

    /// The packed buffer: the header, then the record of every dot in id
    /// order.
    pub open spec fn packed(self) -> Seq<i64> {
        Seq::new(
            (HEADER_LENGTH + RECORD_LENGTH * self.dots.len()) as nat,
            |at: int| self.packed_entry(at),
        )
    }
}

/// Counting one more dot adds one to the floating count if the dot floats.
pub proof fn lemma_floating_count_push(dots: Seq<Dot>, dot: Dot)
    ensures
        floating_count(dots.push(dot)) == floating_count(dots) + if dot.state is Floating {
            1nat
        } else {
            0nat
        },
{
    reveal(Seq::filter);
    assert(dots.push(dot).drop_last() =~= dots);
}

/// No more dots float than there are dots.
pub proof fn lemma_floating_count_bound(dots: Seq<Dot>)
    ensures
        floating_count(dots) <= dots.len(),
{
    dots.lemma_filter_len(|d: Dot| d.state is Floating);
}

/// Where no dot floats that did not float before, no more dots float than
/// before.
pub proof fn lemma_floating_count_monotone(before: Seq<Dot>, after: Seq<Dot>)
    requires
        before.len() == after.len(),
        forall|id: int|
            0 <= id < after.len() && (#[trigger] after[id]).state is Floating
                ==> before[id].state is Floating,
    ensures
        floating_count(after) <= floating_count(before),
    decreases before.len(),
{
    if before.len() > 0 {
        assert forall|id: int|
            0 <= id < after.drop_last().len() && (#[trigger] after.drop_last()[id]).state
                is Floating implies before.drop_last()[id].state is Floating by {
            assert(after[id].state is Floating);
        }
        lemma_floating_count_monotone(before.drop_last(), after.drop_last());
        assert(before.drop_last().push(before.last()) =~= before);
        assert(after.drop_last().push(after.last()) =~= after);
        lemma_floating_count_push(before.drop_last(), before.last());
        lemma_floating_count_push(after.drop_last(), after.last());
    } else {
        assert(before =~= after);
    }
}

/// Where every dot floats, the floating count is the number of dots.
pub proof fn lemma_floating_count_all(dots: Seq<Dot>)
    requires
        forall|id: int| 0 <= id < dots.len() ==> (#[trigger] dots[id]).state is Floating,
    ensures
        floating_count(dots) == dots.len(),
    decreases dots.len(),
{
    reveal(Seq::filter);
    if dots.len() > 0 {
        lemma_floating_count_all(dots.drop_last());
        assert(dots.drop_last().push(dots.last()) =~= dots);
        lemma_floating_count_push(dots.drop_last(), dots.last());
    }
}

/// In a well-formed round of a defined level the captured count lies
/// between zero and the number of dots the level started with, and it is
/// zero while the round waits.
pub proof fn lemma_captured_count_bounds(v: LevelView)
    requires
        v.wf(),
        level_defined(v.number),
    ensures
        0 <= captured_count(v.number, v.dots) <= total_dots(v.number),
        v.state is Waiting ==> captured_count(v.number, v.dots) == 0,
{
    match v.state {
        LevelState::Begin => {
            lemma_floating_count_bound(v.dots);
        },
        LevelState::Waiting => {
            lemma_floating_count_all(v.dots);
        },
        _ => {
            let spawned = v.dots.drop_last();
            assert(spawned.push(v.dots.last()) =~= v.dots);
            lemma_floating_count_push(spawned, v.dots.last());
            lemma_floating_count_bound(spawned);
        },
    }
}

/// A freshly made floating dot is well formed and in play.
pub proof fn lemma_spawned_dot_wf(draws: Seq<u32>, id: int)
    ensures
        spawned_dot(draws, id).wf(),
        spawned_dot(draws, id).in_play(),
        spawned_dot(draws, id).state is Floating,
{
    let at = DRAWS_PER_DOT * id;
    lemma_spawn_coordinate_bounds(draws[at], ARENA_WIDTH as int);
    lemma_spawn_coordinate_bounds(draws[at + 1], ARENA_HEIGHT as int);
    lemma_fraction_of_bounds(draws[at + 2], SPEED as int);
}

/// A round that has not begun is well formed.
pub proof fn lemma_fresh_wf(number: u8)
    ensures
        LevelView::fresh(number).wf(),
{
}

/// `begin` keeps a round well formed.
pub proof fn lemma_begun_wf(v: LevelView, draws: Seq<u32>)
    requires
        v.wf(),
    ensures
        v.begun(draws).wf(),
{
    if v.state is Begin && level_defined(v.number) {
        let after = v.begun(draws);
        assert forall|id: int| 0 <= id < after.dots.len() implies (#[trigger] after.dots[id]).wf()
            && after.dots[id].in_play() && after.dots[id].state is Floating by {
            lemma_spawned_dot_wf(draws, id);
        }
    }
}

/// `add_player` keeps a round well formed.
pub proof fn lemma_with_player_wf(v: LevelView, x: i32, y: i32, color: Color)
    requires
        v.wf(),
    ensures
        v.with_player(x, y, color).wf(),
{
}

/// A tick never moves a dot back in its life, collisions included: only
/// floating dots are captured.
pub proof fn lemma_tick_advances_dots(v: LevelView, now: u32, id: int)
    requires
        v.wf(),
        0 <= id < v.dots.len(),
    ensures
        v.ticked(now).dots.len() == v.dots.len(),
        v.dots[id].state.rank() <= v.ticked(now).dots[id].state.rank(),
{
}

/// Advancing every dot keeps a round well formed.
pub proof fn lemma_advanced_wf(v: LevelView, now: u32)
    requires
        v.wf(),
    ensures
        v.advanced_by(now).wf(),
{
    let after = v.advanced_by(now);
    assert forall|id: int| 0 <= id < after.dots.len() implies (#[trigger] after.dots[id]).wf() && (
    after.dots[id].state is Floating ==> after.dots[id].in_play()) && (v.dots[id].state
        is Floating ==> after.dots[id].state is Floating) by {
        assert(v.dots[id].wf());
    }
    if !(v.state is Begin) && !(v.state is Waiting) {
        assert(!(v.dots[v.total()].state is Floating));
    }
}

/// Collision detection keeps a round well formed. While the round waits it
/// changes nothing, for no dot captures yet.
pub proof fn lemma_collisions_wf(v: LevelView)
    requires
        v.wf(),
    ensures
        v.after_collisions().wf(),
        v.state is Waiting ==> v.after_collisions() == v,
{
    let after = v.after_collisions();
    assert forall|id: int| 0 <= id < after.dots.len() implies (#[trigger] after.dots[id]).wf() && (
    after.dots[id].state is Floating ==> after.dots[id].in_play()) by {
        assert(v.dots[id].wf());
    }
    if v.state is Waiting {
        assert forall|id: int| 0 <= id < v.dots.len() implies !is_hit(v.dots, id) by {
            if is_hit(v.dots, id) {
                let other = choose|other: int| captures(v.dots, id, other);
                assert(v.dots[other].state is Floating);
            }
        }
        assert(after.dots =~= v.dots);
    } else if !(v.state is Begin) {
        assert(!(v.dots[v.total()].state is Floating));
    }
}

/// The outcome check keeps a round well formed.
pub proof fn lemma_settled_wf(v: LevelView)
    requires
        v.wf(),
    ensures
        v.settled().wf(),
{
}

/// A tick keeps a round well formed.
pub proof fn lemma_ticked_wf(v: LevelView, now: u32)
    requires
        v.wf(),
    ensures
        v.ticked(now).wf(),
{
    if v.running() {
        lemma_advanced_wf(v, now);
        lemma_collisions_wf(v.advanced_by(now));
        lemma_settled_wf(v.advanced_by(now).after_collisions());
    }
}

} // verus!
