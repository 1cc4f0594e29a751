//! One round of one level: the dots, the state of the round, and the
//! operations that the session drives it with.

use crate::color::{mixed, random_color};
use crate::dot::{Dot, DotState, PackedDot};
use crate::geometry::Point;
use crate::model::{
    advanced, any_capturing, captures, collided, floating_count, is_capturer, is_hit,
    lemma_advanced_wf, lemma_begun_wf, lemma_captured_count_bounds, lemma_collisions_wf,
    lemma_floating_count_bound, lemma_floating_count_push, spawned_dot, spawned_dots, LevelState,
    LevelView, DRAWS_PER_DOT, HEADER_LENGTH, RECORD_LENGTH,
};
use crate::table::{level, level_defined, total_dots, ConfigLookupError};
use vstd::prelude::*;

verus! {

/// One round of one level.
pub struct Level {
    dots: Vec<Dot>,
    level: u8,
    level_state: LevelState,
    last_update: u32,
}

impl View for Level {
    type V = LevelView;

    closed spec fn view(&self) -> LevelView {
        LevelView {
            number: self.level,
            state: self.level_state,
            dots: self.dots@,
            last_update: self.last_update,
        }
    }
}

/// Makes the floating dots that level `l` starts with, each from eight
/// draws: dot `id` reads `draws[8 * id]` to `draws[8 * id + 7]`. Fails for a
/// level that the table does not define.
pub fn init_dots(l: u8, draws: &Vec<u32>) -> (res: Result<Vec<Dot>, ConfigLookupError>)
    requires
        level_defined(l) ==> draws@.len() >= DRAWS_PER_DOT * total_dots(l),
    ensures
        level_defined(l) ==> (res matches Ok(dots) && dots@ == spawned_dots(total_dots(l), draws@)),
        !level_defined(l) ==> (res matches Err(e) && e.level == l),
{
    let (total, _) = level(l)?;
    let mut ret: Vec<Dot> = Vec::new();
    let mut idx: usize = 0;
    while idx < total as usize
        invariant
            idx <= total,
            total == total_dots(l),
            total <= 60,
            draws@.len() >= DRAWS_PER_DOT * total,
            ret@.len() == idx,
            forall|id: int| 0 <= id < idx ==> ret@[id] == spawned_dot(draws@, id),
        decreases total - idx,
    {
        let at: usize = DRAWS_PER_DOT * idx;
        let dot: Dot = Dot::new(
            Point::random_point(draws[at], draws[at + 1]),
            Point::random_direction(draws[at + 2], draws[at + 3], draws[at + 4]),
            DotState::Floating,
            random_color(draws[at + 5], draws[at + 6], draws[at + 7]),
        );
        ret.push(dot);
        idx = idx + 1;
    }
    assert(ret@ =~= spawned_dots(total_dots(l), draws@));
    Ok(ret)
}

impl Level {
    /// What holds of every round that the operations of `Level` make.
    pub open spec fn wf(&self) -> bool {
        self@.wf()
    }

    /// A round of level `l` that has not begun. Any level number is taken:
    /// whether the table defines it is asked when the round begins.
    pub fn new(l: u8) -> (res: Result<Level, ConfigLookupError>)
        ensures
            res matches Ok(made) && made@ == LevelView::fresh(l) && made.wf(),
    {
        Ok(Level { dots: Vec::new(), level: l, level_state: LevelState::Begin, last_update: 0 })
    }

    /// The level number.
    pub fn level(&self) -> (l: u8)
        ensures
            l == self@.number,
    {
        self.level
    }

    /// The state of the round.
    pub fn level_state(&self) -> (state: LevelState)
        ensures
            state == self@.state,
    {
        self.level_state
    }

    /// The time of the latest tick, zero before the first.
    pub fn last_update(&self) -> (time: u32)
        ensures
            time == self@.last_update,
    {
        self.last_update
    }

    /// The dots, each at the index that is its id.
    pub fn dots(&self) -> (dots: &Vec<Dot>)
        ensures
            dots@ == self@.dots,
    {
        &self.dots
    }

    /// Begins the round. In `Begin` it makes the dots of the level from the
    /// draws and waits for the click, or fails if the table does not define
    /// the level. In any other state it does nothing.
    pub fn begin(&mut self, draws: &Vec<u32>) -> (res: Result<(), ConfigLookupError>)
        requires
            old(self).wf(),
            old(self)@.state is Begin && level_defined(old(self)@.number) ==> draws@.len()
                >= DRAWS_PER_DOT * total_dots(old(self)@.number),
        ensures
            final(self)@ == old(self)@.begun(draws@),
            final(self).wf(),
            old(self)@.state.may_become(final(self)@.state),
            res is Err <==> old(self)@.state is Begin && !level_defined(old(self)@.number),
            res matches Err(e) ==> e.level == old(self)@.number,
    {
        if self.level_state == LevelState::Begin {
            let dots: Vec<Dot> = init_dots(self.level, draws)?;
            self.dots = dots;
            self.level_state = LevelState::Waiting;
            proof {
                lemma_begun_wf(old(self)@, draws@);
            }
        }
        Ok(())
    }

    /// Advances the round by one tick at time `now`. A round that waits or
    /// runs has every dot advanced, the collisions resolved and the outcome
    /// checked; a round in `Begin`, `Won` or `Lost` is frozen. Either way
    /// `now` is recorded as the time of the latest tick.
    pub fn tick(&mut self, now: u32) -> (res: Result<(), ConfigLookupError>)
        requires
            old(self).wf(),
        ensures
            res is Ok,
            final(self)@ == old(self)@.ticked(now),
            final(self).wf(),
            old(self)@.state.may_become(final(self)@.state),
            final(self)@.dots.len() == old(self)@.dots.len(),
            forall|id: int|
                0 <= id < old(self)@.dots.len() ==> old(self)@.dots[id].state.rank() <= (
                #[trigger] final(self)@.dots[id]).state.rank(),
    {
        match self.level_state {
            LevelState::Begin | LevelState::Won | LevelState::Lost => {},
            _ => {
                self.advance_dots(now);
                self.handle_collisions();
                self.handle_death()?;
            },
        }
        self.last_update = now;
        Ok(())
    }

    /// Plants the player's capture dot at `(x, y)`, coloured by three draws.
    /// A waiting round gets the dot as its last and is `Clicked`; in any
    /// other state the call does nothing.
    pub fn add_player(&mut self, x: i32, y: i32, red: u32, green: u32, blue: u32)
        requires
            old(self).wf(),
        ensures
            final(self)@ == old(self)@.with_player(x, y, mixed(red, green, blue)),
            final(self).wf(),
            old(self)@.state.may_become(final(self)@.state),
    {
        if self.level_state == LevelState::Waiting {
            let player: Dot = Dot::new(
                Point::new(x, y),
                Point::new(0, 0),
                DotState::Growing,
                random_color(red, green, blue),
            );
            self.dots.push(player);
            self.level_state = LevelState::Clicked;
        }
    }

    /// The header of the packed buffer:
    /// `[level number, state code, number of dots, win threshold, captured
    /// count, time of the latest tick]`. The captured count is the number of
    /// dots the level starts with, less the dots that float; before the
    /// round begins no dot floats yet, and the count is that whole number.
    /// Fails if the table does not define the level.
    pub fn header(&self) -> (res: Result<Vec<u32>, ConfigLookupError>)
        requires
            self.wf(),
        ensures
            level_defined(self@.number) ==> (res matches Ok(header) && header@ == self@.header()),
            !level_defined(self@.number) ==> (res matches Err(e) && e.level == self@.number),
            res matches Ok(header) ==> header@[4] == total_dots(self@.number) - floating_count(
                self@.dots,
            ),
    {
        let (level_dots, win_threshold) = level(self.level)?;
        let floating: usize = self.count_floating();
        proof {
            lemma_captured_count_bounds(self@);
        }
        let captured: u32 = level_dots as u32 - floating as u32;
        let total: u32 = self.dots.len() as u32;
        let header: Vec<u32> = vec![
            self.level as u32,
            self.level_state.code() as u32,
            total,
            win_threshold as u32,
            captured,
            self.last_update,
        ];
        assert(header@ =~= self@.header());
        Ok(header)
    }

    /// The packed buffer: the header, then the seven-entry record of every
    /// dot in id order. Its length is `6 + 7 * n` for `n` dots, the `n` that
    /// the third entry of the header gives. Fails if the table does not
    /// define the level.
    pub fn pack(&self) -> (res: Result<Vec<i64>, ConfigLookupError>)
        requires
            self.wf(),
        ensures
            level_defined(self@.number) ==> (res matches Ok(buffer) && buffer@ == self@.packed()),
            !level_defined(self@.number) ==> (res matches Err(e) && e.level == self@.number),
            res matches Ok(buffer) ==> (buffer@.len() == HEADER_LENGTH + RECORD_LENGTH
                * self@.dots.len() && buffer@[2] == self@.dots.len()),
    {
        let header: Vec<u32> = self.header()?;
        let n: usize = self.dots.len();
        let mut ret: Vec<i64> = Vec::with_capacity(HEADER_LENGTH + RECORD_LENGTH * n);
        let mut k: usize = 0;
        while k < HEADER_LENGTH
            invariant
                k <= HEADER_LENGTH,
                header@ == self@.header(),
                ret@.len() == k,
                forall|at: int| 0 <= at < k ==> ret@[at] == self@.packed_entry(at),
            decreases HEADER_LENGTH - k,
        {
            ret.push(header[k] as i64);
            k = k + 1;
        }
        let mut id: usize = 0;
        while id < n
            invariant
                id <= n,
                n == self.dots@.len(),
                n <= 61,
                ret@.len() == HEADER_LENGTH + RECORD_LENGTH * id,
                forall|at: int| 0 <= at < ret@.len() ==> ret@[at] == self@.packed_entry(at),
            decreases n - id,
        {
            let packed: PackedDot = self.dots[id].pack();
            let mut k: usize = 0;
            while k < RECORD_LENGTH
                invariant
                    k <= RECORD_LENGTH,
                    id < n,
                    n == self.dots@.len(),
                    packed@ == self.dots@[id as int].record(),
                    ret@.len() == HEADER_LENGTH + RECORD_LENGTH * id + k,
                    forall|at: int| 0 <= at < ret@.len() ==> ret@[at] == self@.packed_entry(at),
                decreases RECORD_LENGTH - k,
            {
                ret.push(packed[k]);
                k = k + 1;
            }
            id = id + 1;
        }
        assert(ret@ =~= self@.packed());
        Ok(ret)
    }

    /// Captures dot `id`.
    fn capture_dot(&mut self, id: usize)
        requires
            id < old(self).dots@.len(),
        ensures
            final(self).dots@ == old(self).dots@.update(
                id as int,
                old(self).dots@[id as int].captured(),
            ),
            final(self).level == old(self).level,
            final(self).level_state == old(self).level_state,
            final(self).last_update == old(self).last_update,
    {
        let mut dot: Dot = self.dots[id];
        dot.capture();
        self.dots.set(id, dot);
    }

    /// Advances every dot by one tick at time `now`.
    fn advance_dots(&mut self, now: u32)
        requires
            old(self).wf(),
        ensures
            final(self)@ == old(self)@.advanced_by(now),
            final(self).wf(),
    {
        let n: usize = self.dots.len();
        let mut id: usize = 0;
        while id < n
            invariant
                id <= n,
                n == self.dots@.len(),
                n == old(self).dots@.len(),
                old(self).wf(),
                self.level == old(self).level,
                self.level_state == old(self).level_state,
                self.last_update == old(self).last_update,
                forall|k: int| 0 <= k < id ==> self.dots@[k] == old(self).dots@[k].ticked(now),
                forall|k: int| id <= k < n ==> self.dots@[k] == old(self).dots@[k],
            decreases n - id,
        {
            let mut dot: Dot = self.dots[id];
            assert(old(self)@.dots[id as int].wf());
            dot.tick(now);
            self.dots.set(id, dot);
            id = id + 1;
        }
        proof {
            assert(self@.dots =~= advanced(old(self)@.dots, now));
            lemma_advanced_wf(old(self)@, now);
        }
    }

    /// Whether dot `id` is marked for capture: it floats and a capturing
    /// dot touches it.
    fn is_marked(&self, id: usize) -> (marked: bool)
        requires
            id < self.dots@.len(),
        ensures
            marked == is_hit(self@.dots, id as int),
    {
        if !self.dots[id].state.is_floating() {
            return false;
        }
        let n: usize = self.dots.len();
        let mut other: usize = 0;
        while other < n
            invariant
                other <= n,
                n == self.dots@.len(),
                id < n,
                self.dots@[id as int].state is Floating,
                forall|k: int| 0 <= k < other ==> !captures(self@.dots, id as int, k),
            decreases n - other,
        {
            if self.dots[other].state.is_capturing() && self.dots[id].is_touching(
                &self.dots[other],
            ) {
                assert(captures(self@.dots, id as int, other as int));
                return true;
            }
            other = other + 1;
        }
        false
    }

    /// Resolves the collisions of this tick. Every floating dot that a
    /// capturing dot touches is marked; when all pairs have been looked at,
    /// every marked dot is captured once. No capture of this tick has any
    /// part in the marking.
    pub fn handle_collisions(&mut self)
        requires
            old(self).wf(),
        ensures
            final(self)@ == old(self)@.after_collisions(),
            final(self).wf(),
    {
        let n: usize = self.dots.len();
        let mut marks: Vec<bool> = Vec::with_capacity(n);
        let mut id: usize = 0;
        while id < n
            invariant
                id <= n,
                n == self.dots@.len(),
                marks@.len() == id,
                forall|k: int| 0 <= k < id ==> marks@[k] == is_hit(self@.dots, k),
            decreases n - id,
        {
            let marked: bool = self.is_marked(id);
            marks.push(marked);
            id = id + 1;
        }
        id = 0;
        while id < n
            invariant
                id <= n,
                n == self.dots@.len(),
                n == old(self).dots@.len(),
                marks@.len() == n,
                self.level == old(self).level,
                self.level_state == old(self).level_state,
                self.last_update == old(self).last_update,
                forall|k: int| 0 <= k < n ==> marks@[k] == is_hit(old(self)@.dots, k),
                forall|k: int| 0 <= k < id ==> self.dots@[k] == collided(old(self)@.dots)[k],
                forall|k: int| id <= k < n ==> self.dots@[k] == old(self).dots@[k],
            decreases n - id,
        {
            if marks[id] {
                self.capture_dot(id);
            }
            id = id + 1;
        }
        proof {
            assert(self@.dots =~= collided(old(self)@.dots));
            lemma_collisions_wf(old(self)@);
        }
    }

    /// Whether any dot is in a capturing state.
    fn has_capturing(&self) -> (found: bool)
        ensures
            found == any_capturing(self@.dots),
    {
        let n: usize = self.dots.len();
        let mut id: usize = 0;
        while id < n
            invariant
                id <= n,
                n == self.dots@.len(),
                forall|k: int| 0 <= k < id ==> !is_capturer(self@.dots, k),
            decreases n - id,
        {
            if self.dots[id].state.is_capturing() {
                assert(is_capturer(self@.dots, id as int));
                return true;
            }
            id = id + 1;
        }
        false
    }

    /// Number of dots that float.
    fn count_floating(&self) -> (count: usize)
        ensures
            count == floating_count(self@.dots),
            count <= self@.dots.len(),
    {
        let n: usize = self.dots.len();
        let mut count: usize = 0;
        let mut id: usize = 0;
        proof {
            assert(self.dots@.take(0) =~= Seq::<Dot>::empty());
            lemma_floating_count_bound(self.dots@.take(0));
        }
        while id < n
            invariant
                id <= n,
                n == self.dots@.len(),
                count == floating_count(self.dots@.take(id as int)),
                count <= id,
            decreases n - id,
        {
            proof {
                assert(self.dots@.take(id as int).push(self.dots@[id as int]) =~= self.dots@.take(
                    id + 1,
                ));
                lemma_floating_count_push(self.dots@.take(id as int), self.dots@[id as int]);
            }
            if self.dots[id].state.is_floating() {
                count = count + 1;
            }
            id = id + 1;
        }
        assert(self.dots@.take(n as int) =~= self.dots@);
        count
    }

    /// Checks whether the round is over. A `Clicked` round in which no dot
    /// captures any more is `Won` if the captured count reaches the win
    /// threshold of the level, and `Lost` otherwise. Any other round is left
    /// as it is.
    pub fn handle_death(&mut self) -> (res: Result<(), ConfigLookupError>)
        requires
            old(self).wf(),
        ensures
            res is Ok,
            final(self)@ == old(self)@.settled(),
            final(self).wf(),
    {
        if self.level_state == LevelState::Clicked {
            if !self.has_capturing() {
                let (level_dots, win_threshold) = level(self.level)?;
                let floating: usize = self.count_floating();
                proof {
                    lemma_captured_count_bounds(self@);
                }
                let captured: usize = level_dots as usize - floating;
                if captured >= win_threshold as usize {
                    self.level_state = LevelState::Won;
                } else {
                    self.level_state = LevelState::Lost;
                }
            }
        }
        Ok(())
    }
}

} // verus!
