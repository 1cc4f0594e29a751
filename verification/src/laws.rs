//! What holds of every dot, every round and every session, whatever the
//! draws, the clicks and the clock.

use crate::color::Color;
use crate::dot::Dot;
use crate::game::GameView;
use crate::model::{
    captured_count, floating_count, lemma_begun_wf, lemma_captured_count_bounds,
    lemma_floating_count_monotone, lemma_fresh_wf, lemma_tick_advances_dots, lemma_ticked_wf,
    lemma_with_player_wf, LevelState, LevelView, HEADER_LENGTH, RECORD_LENGTH,
};
use crate::table::{level_defined, total_dots, LAST_LEVEL};
use crate::{ARENA_HEIGHT, ARENA_WIDTH, MAX_RADIUS, MIN_RADIUS, SPEED};
use vstd::prelude::*;

verus! {

/// An operation on a round.
pub enum Event {
    /// `begin` with these draws.
    Begin(Seq<u32>),
    /// `add_player` at a point, with the colour of the capture dot.
    Click(i32, i32, Color),
    /// `tick` at a time.
    Tick(u32),
}

/// The round after one operation.
pub open spec fn applied(v: LevelView, event: Event) -> LevelView {
    match event {
        Event::Begin(draws) => v.begun(draws),
        Event::Click(x, y, color) => v.with_player(x, y, color),
        Event::Tick(now) => v.ticked(now),
    }
}

/// The round after a sequence of operations, the first of them first.
pub open spec fn run(v: LevelView, events: Seq<Event>) -> LevelView
    decreases events.len(),
{
    if events.len() == 0 {
        v
    } else {
        applied(run(v, events.drop_last()), events.last())
    }
}

/// The dot after a tick at each of the given times, the first of them
/// first.
pub open spec fn dot_after(dot: Dot, times: Seq<u32>) -> Dot
    decreases times.len(),
{
    if times.len() == 0 {
        dot
    } else {
        dot_after(dot, times.drop_last()).ticked(times.last())
    }
}

/// Position of a round state in the life of a round; the two ends share the
/// last place.
pub open spec fn round_rank(state: LevelState) -> nat {
    match state {
        LevelState::Begin => 0,
        LevelState::Waiting => 1,
        LevelState::Clicked => 2,
        LevelState::Won => 3,
        LevelState::Lost => 3,
    }
}

/// One tick leaves the state of a dot as it is or moves it one place on.
pub proof fn law_dot_tick_moves_forward(dot: Dot, now: u32)
    ensures
        dot.state.rank() <= dot.ticked(now).state.rank() <= dot.state.rank() + 1,
        dot.ticked(now).state.rank() == dot.state.rank() ==> dot.ticked(now).state == dot.state,
{
}

/// Over any number of ticks the state of a dot never moves back, and while
/// its place is the same the state is the same.
pub proof fn law_dot_states_in_order(dot: Dot, times: Seq<u32>, i: int, j: int)
    requires
        0 <= i <= j <= times.len(),
    ensures
        dot_after(dot, times.take(i)).state.rank() <= dot_after(dot, times.take(j)).state.rank(),
        dot_after(dot, times.take(i)).state.rank() == dot_after(dot, times.take(j)).state.rank()
            ==> dot_after(dot, times.take(i)).state == dot_after(dot, times.take(j)).state,
    decreases j - i,
{
    if i < j {
        law_dot_states_in_order(dot, times, i, j - 1);
        assert(times.take(j).drop_last() =~= times.take(j - 1));
        law_dot_tick_moves_forward(dot_after(dot, times.take(j - 1)), times[j - 1]);
    }
}

/// A dot that is ticked and never captured does not come back to a state
/// that it has left: if it is in one state at two moments, it is in that
/// state at every moment between them.
pub proof fn law_dot_state_never_returns(dot: Dot, times: Seq<u32>, i: int, j: int, k: int)
    requires
        0 <= i <= j <= k <= times.len(),
        dot_after(dot, times.take(i)).state == dot_after(dot, times.take(k)).state,
    ensures
        dot_after(dot, times.take(j)).state == dot_after(dot, times.take(i)).state,
{
    law_dot_states_in_order(dot, times, i, j);
    law_dot_states_in_order(dot, times, j, k);
}

/// A dot that the walls find in a corner has both components of its
/// velocity inverted, not one.
pub proof fn law_corner_inverts_both(dot: Dot)
    requires
        dot.at_side_wall(),
        dot.at_end_wall(),
    ensures
        dot.bounced().velocity.x == (-dot.velocity.x) as i32,
        dot.bounced().velocity.y == (-dot.velocity.y) as i32,
{
}

/// One operation leaves the state of a round as it is or moves it one step
/// on: from `Begin` to `Waiting`, from `Waiting` to `Clicked`, from
/// `Clicked` to `Won` or `Lost`. A round that is won or lost stays so.
pub proof fn law_round_state_steps(v: LevelView, event: Event)
    ensures
        v.state.may_become(applied(v, event).state),
        v.state.terminal() ==> applied(v, event).state == v.state,
{
}

/// Over any sequence of operations the state of a round never moves back,
/// and a round that is won or lost stays so.
pub proof fn law_round_states_in_order(v: LevelView, events: Seq<Event>)
    ensures
        round_rank(v.state) <= round_rank(run(v, events).state),
        v.state.terminal() ==> run(v, events).state == v.state,
    decreases events.len(),
{
    if events.len() > 0 {
        law_round_states_in_order(v, events.drop_last());
        law_round_state_steps(run(v, events.drop_last()), events.last());
    }
}

/// Every operation keeps a round well formed.
pub proof fn law_round_stays_well_formed(v: LevelView, events: Seq<Event>)
    requires
        v.wf(),
    ensures
        run(v, events).wf(),
    decreases events.len(),
{
    if events.len() > 0 {
        law_round_stays_well_formed(v, events.drop_last());
        let before = run(v, events.drop_last());
        match events.last() {
            Event::Begin(draws) => lemma_begun_wf(before, draws),
            Event::Click(x, y, color) => lemma_with_player_wf(before, x, y, color),
            Event::Tick(now) => lemma_ticked_wf(before, now),
        }
    }
}

/// In every round that the operations can reach from a round that has not
/// begun, the radius of every dot lies between the minimum and the maximum.
pub proof fn law_radius_stays_in_range(number: u8, events: Seq<Event>, id: int)
    requires
        0 <= id < run(LevelView::fresh(number), events).dots.len(),
    ensures
        MIN_RADIUS <= run(LevelView::fresh(number), events).dots[id].radius <= MAX_RADIUS,
{
    lemma_fresh_wf(number);
    law_round_stays_well_formed(LevelView::fresh(number), events);
    assert(run(LevelView::fresh(number), events).dots[id].wf());
}

/// In every round that the operations can reach from a round that has not
/// begun, every floating dot is in play: it passes a wall by less than one
/// step before it is turned, so its centre never leaves the arena.
pub proof fn law_floating_dots_stay_in_the_arena(number: u8, events: Seq<Event>, id: int)
    requires
        0 <= id < run(LevelView::fresh(number), events).dots.len(),
        run(LevelView::fresh(number), events).dots[id].state is Floating,
    ensures
        run(LevelView::fresh(number), events).dots[id].in_play(),
        MIN_RADIUS - SPEED < run(LevelView::fresh(number), events).dots[id].position.x
            < ARENA_WIDTH - MIN_RADIUS + SPEED,
        MIN_RADIUS - SPEED < run(LevelView::fresh(number), events).dots[id].position.y
            < ARENA_HEIGHT - MIN_RADIUS + SPEED,
{
    lemma_fresh_wf(number);
    law_round_stays_well_formed(LevelView::fresh(number), events);
    assert(run(LevelView::fresh(number), events).dots[id].wf());
}

/// In every round that the operations can reach from a round that has not
/// begun, the captured count is the number of dots the level started with,
/// less the floating dots, and lies between zero and that number.
pub proof fn law_captured_count_in_range(number: u8, events: Seq<Event>)
    requires
        level_defined(number),
    ensures
        run(LevelView::fresh(number), events).number == number,
        run(LevelView::fresh(number), events).header()[4] == total_dots(number) - floating_count(
            run(LevelView::fresh(number), events).dots,
        ),
        0 <= captured_count(number, run(LevelView::fresh(number), events).dots) <= total_dots(
            number,
        ),
{
    let start = LevelView::fresh(number);
    lemma_fresh_wf(number);
    law_round_stays_well_formed(start, events);
    law_round_keeps_its_level(start, events);
    lemma_captured_count_bounds(run(start, events));
}

/// A tick never lowers the captured count: a dot that has left `Floating`
/// does not float again.
pub proof fn law_captured_count_never_falls(v: LevelView, now: u32)
    ensures
        floating_count(v.ticked(now).dots) <= floating_count(v.dots),
        captured_count(v.number, v.dots) <= captured_count(v.number, v.ticked(now).dots),
{
    if v.running() {
        lemma_floating_count_monotone(v.dots, v.ticked(now).dots);
    }
}

/// No operation changes the level number of a round.
pub proof fn law_round_keeps_its_level(v: LevelView, events: Seq<Event>)
    ensures
        run(v, events).number == v.number,
    decreases events.len(),
{
    if events.len() > 0 {
        law_round_keeps_its_level(v, events.drop_last());
    }
}

/// Within a round no dot is removed and no dot moves back in its life, the
/// captures of collision detection included: they fall on floating dots
/// only.
pub proof fn law_round_never_moves_a_dot_back(v: LevelView, events: Seq<Event>, id: int)
    requires
        v.wf(),
        0 <= id < v.dots.len(),
    ensures
        id < run(v, events).dots.len(),
        v.dots[id].state.rank() <= run(v, events).dots[id].state.rank(),
    decreases events.len(),
{
    if events.len() > 0 {
        law_round_never_moves_a_dot_back(v, events.drop_last(), id);
        law_round_stays_well_formed(v, events.drop_last());
        if let Event::Tick(now) = events.last() {
            lemma_tick_advances_dots(run(v, events.drop_last()), now, id);
        }
    }
}

/// A second `add_player` changes nothing: the first has moved the round to
/// `Clicked`, so exactly one capture dot is ever planted.
pub proof fn law_second_click_is_ignored(
    v: LevelView,
    x: i32,
    y: i32,
    color: Color,
    x2: i32,
    y2: i32,
    color2: Color,
)
    ensures
        v.with_player(x, y, color).with_player(x2, y2, color2) == v.with_player(x, y, color),
        v.state is Waiting ==> v.with_player(x, y, color).dots.len() == v.dots.len() + 1,
{
}

/// Moving on from the last level that the table defines starts the session
/// afresh: the first level, and both counters at zero.
pub proof fn law_last_level_wraps(g: GameView)
    requires
        g.level.number == LAST_LEVEL,
    ensures
        g.advanced() == GameView::fresh(),
        g.advanced().level.number == 1,
        g.advanced().attempts == 0,
        g.advanced().current_attempts == 0,
{
}

/// A tick leaves a round that is won or lost as it is, but for the time it
/// records; only a click moves the session on.
pub proof fn law_settled_round_is_frozen(g: GameView, now: u32)
    requires
        g.level.state.terminal(),
    ensures
        g.ticked(now).level == (LevelView { last_update: now, ..g.level }),
        g.ticked(now).attempts == g.attempts,
        g.ticked(now).current_attempts == g.current_attempts,
{
}

/// The packed buffer is the header followed by the records: the first six
/// entries are the header, and the record of dot `id` fills the seven
/// entries from `6 + 7 * id` on.
pub proof fn law_packed_layout(v: LevelView, id: int)
    requires
        0 <= id < v.dots.len(),
    ensures
        v.packed().len() == HEADER_LENGTH + RECORD_LENGTH * v.dots.len(),
        v.packed().take(HEADER_LENGTH as int) == v.header().map_values(|entry: u32| entry as i64),
        v.packed().subrange(
            HEADER_LENGTH + RECORD_LENGTH * id,
            HEADER_LENGTH + RECORD_LENGTH * id + RECORD_LENGTH,
        ) == v.dots[id].record(),
{
    let start = HEADER_LENGTH + RECORD_LENGTH * id;
    assert(v.packed().take(HEADER_LENGTH as int) =~= v.header().map_values(
        |entry: u32| entry as i64,
    ));
    assert forall|k: int| 0 <= k < RECORD_LENGTH implies #[trigger] v.packed()[start + k]
        == v.dots[id].record()[k] by {
        assert((start + k - HEADER_LENGTH) / (RECORD_LENGTH as int) == id);
        assert((start + k - HEADER_LENGTH) % (RECORD_LENGTH as int) == k);
    }
    assert(v.packed().subrange(start, start + RECORD_LENGTH) =~= v.dots[id].record());
}

} // verus!
