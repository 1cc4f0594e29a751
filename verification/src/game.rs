//! The session: one live round, the attempt counters that outlast it, and
//! the life cycle that a click drives.

use crate::color::mixed;
use crate::level::Level;
use crate::model::{LevelState, LevelView, DRAWS_PER_DOT, DRAWS_PER_PLAYER};
use crate::table::{level, level_defined, total_dots, ConfigLookupError, FIRST_LEVEL};
use crate::{SCREEN_HEIGHT, SCREEN_WIDTH};
use vstd::prelude::*;

verus! {

/// The fixed dimensions of the arena, in pixels.
pub struct GameConfig {
    height: u16,
    width: u16,
}

impl GameConfig {
    #[verifier::type_invariant]
    spec fn fixed(self) -> bool {
        self.height == SCREEN_HEIGHT && self.width == SCREEN_WIDTH
    }

    /// The dimensions of the arena: `SCREEN_HEIGHT` by `SCREEN_WIDTH`.
    pub fn new() -> (config: Self)
        ensures
            config.height_of() == SCREEN_HEIGHT,
            config.width_of() == SCREEN_WIDTH,
    {
        Self { height: SCREEN_HEIGHT, width: SCREEN_WIDTH }
    }

    /// The height, in pixels. Every configuration holds the height of the
    /// screen.
    pub fn height(&self) -> (height: u16)
        ensures
            height == self.height_of(),
            height == SCREEN_HEIGHT,
    {
        proof {
            use_type_invariant(self);
        }
        self.height
    }

    /// The width, in pixels. Every configuration holds the width of the
    /// screen.
    pub fn width(&self) -> (width: u16)
        ensures
            width == self.width_of(),
            width == SCREEN_WIDTH,
    {
        proof {
            use_type_invariant(self);
        }
        self.width
    }

    /// The height that the configuration holds, in pixels.
    pub closed spec fn height_of(self) -> u16 {
        self.height
    }

    /// The width that the configuration holds, in pixels.
    pub closed spec fn width_of(self) -> u16 {
        self.width
    }
}

/// A session as a mathematical value.
pub struct GameView {
    /// The live round.
    pub level: LevelView,
    /// Restarts counted on the levels that were won.
    pub attempts: u32,
    /// Restarts of the current level.
    pub current_attempts: u32,
}

impl GameView {
    /// A session at the first level, the round not begun, the counters at
    /// zero.
    pub open spec fn fresh() -> GameView {
        GameView { level: LevelView::fresh(FIRST_LEVEL), attempts: 0, current_attempts: 0 }
    }

    /// What holds of every session: the round is well formed and its level
    /// is one that the table defines.
    pub open spec fn wf(self) -> bool {
        self.level.wf() && level_defined(self.level.number)
    }

    /// Whether the table defines the level after the current one.
    pub open spec fn has_next_level(self) -> bool {
        self.level.number < u8::MAX && level_defined((self.level.number + 1) as u8)
    }

    /// The session after `next_level`. Where the table defines the next
    /// level, a round of it that has not begun, the restarts of the level
    /// left behind added to `attempts`, and `current_attempts` at zero.
    /// Where it does not, a fresh session.
    pub open spec fn advanced(self) -> GameView {
        if self.has_next_level() {
            GameView {
                level: LevelView::fresh((self.level.number + 1) as u8),
                attempts: (self.attempts + self.current_attempts) as u32,
                current_attempts: 0,
            }
        } else {
            GameView::fresh()
        }
    }

    /// The session after `restart_level`: a round of the same level that
    /// has not begun, and one more restart counted.
    pub open spec fn restarted(self) -> GameView {
        GameView {
            level: LevelView::fresh(self.level.number),
            attempts: self.attempts,
            current_attempts: (self.current_attempts + 1) as u32,
        }
    }

    /// Number of draws that the next click reads: eight for every dot of
    /// the level when it begins the round, three when it plants the capture
    /// dot, none otherwise.
    pub open spec fn draws_needed(self) -> nat {
        match self.level.state {
            LevelState::Begin => DRAWS_PER_DOT as nat * total_dots(self.level.number),
            LevelState::Waiting => DRAWS_PER_PLAYER as nat,
            _ => 0,
        }
    }

    /// Whether the counters have room for what `next_level` adds to them.
    pub open spec fn can_advance(self) -> bool {
        self.has_next_level() ==> self.attempts + self.current_attempts <= u32::MAX
    }

    /// Whether the counters have room for what `restart_level` adds to
    /// them.
    pub open spec fn can_restart(self) -> bool {
        self.current_attempts < u32::MAX
    }

    /// Whether the counters have room for what the next click adds to
    /// them.
    pub open spec fn counters_have_room(self) -> bool {
        match self.level.state {
            LevelState::Won => self.can_advance(),
            LevelState::Lost => self.can_restart(),
            _ => true,
        }
    }

    /// The session after a click at `(x, y)`. In `Begin` the round begins;
    /// in `Waiting` the capture dot is planted, coloured by the first three
    /// draws; in `Clicked` nothing happens; after a win the session moves to
    /// the next level; after a loss it restarts the level.
    pub open spec fn clicked(self, x: i32, y: i32, draws: Seq<u32>) -> GameView {
        match self.level.state {
            LevelState::Begin => GameView { level: self.level.begun(draws), ..self },
            LevelState::Waiting => GameView {
                level: self.level.with_player(x, y, mixed(draws[0], draws[1], draws[2])),
                ..self
            },
            LevelState::Clicked => self,
            LevelState::Won => self.advanced(),
            LevelState::Lost => self.restarted(),
        }
    }

    /// The session after a tick at time `now`.
    pub open spec fn ticked(self, now: u32) -> GameView {
        GameView { level: self.level.ticked(now), ..self }
    }
}

/// The live round of a session and the attempt counters.
pub struct GameInstance {
    attempts: u32,
    current_attempts: u32,
    level: Level,
}

impl View for GameInstance {
    type V = GameView;

    closed spec fn view(&self) -> GameView {
        GameView {
            level: self.level@,
            attempts: self.attempts,
            current_attempts: self.current_attempts,
        }
    }
}

impl GameInstance {
    /// A session at level `l` with the counters at zero, or the lookup
    /// error if the table does not define `l`.
    pub fn new(l: u8) -> (res: Result<Self, ConfigLookupError>)
        ensures
            level_defined(l) ==> (res matches Ok(made) && made@.wf() && made@ == (GameView {
                level: LevelView::fresh(l),
                attempts: 0,
                current_attempts: 0,
            })),
            !level_defined(l) ==> (res matches Err(e) && e.level == l),
    {
        let _ = level(l)?;
        Ok(Self { level: Level::new(l)?, attempts: 0, current_attempts: 0 })
    }

    /// The live round.
    pub fn level(&self) -> (round: &Level)
        ensures
            round@ == self@.level,
    {
        &self.level
    }

    /// The counters: `[attempts, current_attempts]`.
    pub fn score(&self) -> (score: [u32; 2])
        ensures
            score@ == seq![self@.attempts, self@.current_attempts],
    {
        let score: [u32; 2] = [self.attempts, self.current_attempts];
        assert(score@ =~= seq![self@.attempts, self@.current_attempts]);
        score
    }

    /// Starts a round of level `l` that has not begun and counts one more
    /// restart. If the table does not define `l`, nothing changes and the
    /// lookup error is returned.
    pub fn start_level(&mut self, l: u8) -> (res: Result<(), ConfigLookupError>)
        requires
            old(self)@.level.wf(),
            level_defined(l) ==> old(self)@.current_attempts < u32::MAX,
        ensures
            final(self)@.level.wf(),
            level_defined(l) ==> res is Ok && final(self)@ == (GameView {
                level: LevelView::fresh(l),
                attempts: old(self)@.attempts,
                current_attempts: (old(self)@.current_attempts + 1) as u32,
            }),
            !level_defined(l) ==> (res matches Err(e) && e.level == l) && final(self)@ == old(self)@,
    {
        let _ = level(l)?;
        self.level = Level::new(l)?;
        self.current_attempts = self.current_attempts + 1;
        Ok(())
    }

    /// Moves on from level `l` to the level after it: a round of level
    /// `l + 1` that has not begun, the restarts of the level left behind
    /// added to `attempts`, and `current_attempts` at zero. If the table
    /// does not define `l + 1`, nothing changes and the lookup error is
    /// returned.
    pub fn next_level(&mut self, l: u8) -> (res: Result<(), ConfigLookupError>)
        requires
            old(self)@.level.wf(),
            l < u8::MAX,
            level_defined((l + 1) as u8) ==> old(self)@.attempts + old(self)@.current_attempts
                <= u32::MAX,
        ensures
            final(self)@.level.wf(),
            level_defined((l + 1) as u8) ==> res is Ok && final(self)@ == (GameView {
                level: LevelView::fresh((l + 1) as u8),
                attempts: (old(self)@.attempts + old(self)@.current_attempts) as u32,
                current_attempts: 0,
            }),
            !level_defined((l + 1) as u8) ==> (res matches Err(e) && e.level == l + 1)
                && final(self)@ == old(self)@,
    {
        let _ = level(l + 1)?;
        self.level = Level::new(l + 1)?;
        self.attempts = self.attempts + self.current_attempts;
        self.current_attempts = 0;
        Ok(())
    }
}

/// A session of the game.
pub struct Game {
    config: GameConfig,
    current: GameInstance,
}

impl View for Game {
    type V = GameView;

    closed spec fn view(&self) -> GameView {
        self.current@
    }
}

impl Game {
    /// What holds of every session that the operations of `Game` make.
    pub open spec fn wf(&self) -> bool {
        self@.wf()
    }

    /// A session at the first level, the round not begun, the counters at
    /// zero.
    pub fn new() -> (game: Self)
        ensures
            game@ == GameView::fresh(),
            game.wf(),
    {
        Self { config: GameConfig::new(), current: GameInstance::new(FIRST_LEVEL).unwrap() }
    }

    /// The height of the arena, in pixels.
    pub fn height(&self) -> (height: u16)
        ensures
            height == SCREEN_HEIGHT,
    {
        self.config.height()
    }

    /// The width of the arena, in pixels.
    pub fn width(&self) -> (width: u16)
        ensures
            width == SCREEN_WIDTH,
    {
        self.config.width()
    }

    /// The live round.
    pub fn level(&self) -> (round: &Level)
        ensures
            round@ == self@.level,
    {
        self.current.level()
    }

    /// Number of draws that the next click reads.
    pub fn draws_needed(&self) -> (n: usize)
        requires
            self.wf(),
        ensures
            n == self@.draws_needed(),
    {
        match self.level_state() {
            LevelState::Begin => {
                let (total, _) = level(self.current.level.level()).unwrap();
                DRAWS_PER_DOT * (total as usize)
            },
            LevelState::Waiting => DRAWS_PER_PLAYER,
            _ => 0,
        }
    }

    /// Whether the counters have room for what the next click adds to
    /// them.
    pub fn counters_have_room(&self) -> (room: bool)
        ensures
            room == self@.counters_have_room(),
    {
        match self.level_state() {
            LevelState::Won => {
                let number: u8 = self.current.level.level();
                number == u8::MAX || level(number + 1).is_err() || self.current.attempts
                    <= u32::MAX - self.current.current_attempts
            },
            LevelState::Lost => self.current.current_attempts < u32::MAX,
            _ => true,
        }
    }

    /// Advances the live round by one tick at time `now`.
    pub fn tick(&mut self, now: u32)
        requires
            old(self).wf(),
        ensures
            final(self)@ == old(self)@.ticked(now),
            final(self).wf(),
    {
        self.current.level.tick(now).unwrap();
    }

    /// Handles a click at `(x, y)`. In `Begin` the round begins, its dots
    /// made from the draws. In `Waiting` the capture dot is planted at the
    /// click, coloured by the first three draws. In `Clicked` nothing
    /// happens. After a win the session moves to the next level, and after a
    /// loss it restarts the level.
    pub fn handle_click(&mut self, x: i32, y: i32, draws: &Vec<u32>)
        requires
            old(self).wf(),
            draws@.len() >= old(self)@.draws_needed(),
            old(self)@.counters_have_room(),
        ensures
            final(self)@ == old(self)@.clicked(x, y, draws@),
            final(self).wf(),
    {
        let state: LevelState = self.level_state();
        match state {
            LevelState::Begin => {
                self.current.level.begin(draws).unwrap();
            },
            LevelState::Waiting => {
                self.add_player(x, y, draws[0], draws[1], draws[2]);
            },
            LevelState::Clicked => {},
            LevelState::Won => {
                self.next_level();
            },
            LevelState::Lost => {
                self.restart_level();
            },
        }
    }

    /// The header of the packed buffer of the live round.
    pub fn header(&self) -> (header: Vec<u32>)
        requires
            self.wf(),
        ensures
            header@ == self@.level.header(),
    {
        self.current.level.header().unwrap()
    }

    /// The packed buffer of the live round.
    pub fn pack(&self) -> (buffer: Vec<i64>)
        requires
            self.wf(),
        ensures
            buffer@ == self@.level.packed(),
    {
        self.current.level.pack().unwrap()
    }

    /// The counters: `[attempts, current_attempts]`.
    pub fn score(&self) -> (score: [u32; 2])
        ensures
            score@ == seq![self@.attempts, self@.current_attempts],
    {
        self.current.score()
    }

    /// Plants the capture dot in the live round.
    pub fn add_player(&mut self, x: i32, y: i32, red: u32, green: u32, blue: u32)
        requires
            old(self).wf(),
        ensures
            final(self)@ == (GameView {
                level: old(self)@.level.with_player(x, y, mixed(red, green, blue)),
                ..old(self)@
            }),
            final(self).wf(),
    {
        self.current.level.add_player(x, y, red, green, blue)
    }

    /// Moves on to the next level, or to a fresh session at the first level
    /// when the table defines no further level.
    pub fn next_level(&mut self)
        requires
            old(self).wf(),
            old(self)@.can_advance(),
        ensures
            final(self)@ == old(self)@.advanced(),
            final(self).wf(),
    {
        let number: u8 = self.current.level.level();
        match self.current.next_level(number) {
            Ok(()) => {},
            Err(_) => {
                self.restart_game();
            },
        }
    }

    /// Starts the session afresh: the first level, the round not begun, the
    /// counters at zero.
    pub fn restart_game(&mut self)
        ensures
            final(self)@ == GameView::fresh(),
            final(self).wf(),
    {
        self.current = GameInstance::new(FIRST_LEVEL).unwrap();
    }

    /// Restarts the current level and counts the restart.
    pub fn restart_level(&mut self)
        requires
            old(self).wf(),
            old(self)@.can_restart(),
        ensures
            final(self)@ == old(self)@.restarted(),
            final(self).wf(),
    {
        let number: u8 = self.current.level.level();
        self.current.start_level(number).unwrap();
    }

    /// The state of the live round.
    pub fn level_state(&self) -> (state: LevelState)
        ensures
            state == self@.level.state,
    {
        self.current.level.level_state()
    }
}

impl Default for Game {
    fn default() -> (game: Self)
        ensures
            game@ == GameView::fresh(),
            game.wf(),
    {
        Self::new()
    }
}

} // verus!
