use dot_capture::color::Color;
use dot_capture::dot::{Dot, DotState};
use dot_capture::geometry::Point;
use dot_capture::level::{init_dots, Level};
use dot_capture::model::LevelState;
use dot_capture::table::ConfigLookupError;
use dot_capture::{MAX_RADIUS, MIN_RADIUS};

/// The draw that puts a fresh dot at `coordinate` on an axis of length `bound`.
fn draw_for(coordinate: i32, bound: i32) -> u32 {
    let span = (bound - 32_200) as u64;
    let offset = (coordinate - 16_100) as u64;
    (((offset << 32) + span - 1) / span) as u32
}

/// The eight draws of a dot at `(x, y)` that drifts straight down.
fn falling_dot(x: i32, y: i32) -> [u32; 8] {
    [draw_for(x, 800_000), draw_for(y, 600_000), 0, 0, 0, 0, 0, 0]
}

/// Five dots: two near the middle, 15 000 units apart, and three far off.
fn cluster() -> Vec<u32> {
    let mut draws: Vec<u32> = Vec::new();
    draws.extend(falling_dot(400_000, 300_000));
    draws.extend(falling_dot(415_000, 300_000));
    draws.extend(falling_dot(100_000, 100_000));
    draws.extend(falling_dot(100_000, 500_000));
    draws.extend(falling_dot(700_000, 100_000));
    draws
}

fn pseudo_draws(count: usize, seed: u32) -> Vec<u32> {
    let mut draws: Vec<u32> = Vec::with_capacity(count);
    let mut state = seed;
    for _ in 0..count {
        state = state.wrapping_mul(1_664_525).wrapping_add(1_013_904_223);
        draws.push(state);
    }
    draws
}

fn waiting_cluster() -> Level {
    let mut level = Level::new(1).unwrap();
    level.begin(&cluster()).unwrap();
    level
}

fn run_until_settled(level: &mut Level, mut now: u32) -> u32 {
    let mut ticks: u32 = 0;
    while level.level_state() == LevelState::Clicked {
        now += 16;
        level.tick(now).unwrap();
        ticks += 1;
        assert!(ticks < 100_000);
    }
    ticks
}

fn floating_dots(level: &Level) -> usize {
    level.dots().iter().filter(|d| d.state == DotState::Floating).count()
}

#[test]
fn new_level_has_not_begun() {
    let level = Level::new(3).unwrap();
    assert_eq!(level.level(), 3);
    assert_eq!(level.level_state(), LevelState::Begin);
    assert_eq!(level.last_update(), 0);
    assert!(level.dots().is_empty());
}

#[test]
fn new_level_takes_any_number() {
    let level = Level::new(200).unwrap();
    assert_eq!(level.level(), 200);
    assert_eq!(level.level_state(), LevelState::Begin);
}

#[test]
fn init_dots_reads_eight_draws_per_dot() {
    let mut draws: Vec<u32> = vec![0; 40];
    draws[8] = 0x8000_0000;
    draws[9] = 0xffff_ffff;
    draws[10] = 0x4000_0000;
    draws[11] = 0x8000_0000;
    draws[12] = 0;
    draws[13] = 0x4000_0000;
    draws[14] = 0x8000_0000;
    draws[15] = 0xffff_ffff;
    let dots = init_dots(1, &draws).unwrap();
    assert_eq!(dots.len(), 5);
    assert_eq!(
        dots[0],
        Dot {
            position: Point { x: 16_100, y: 16_100 },
            radius: MIN_RADIUS,
            velocity: Point { x: 0, y: 2_000 },
            state: DotState::Floating,
            color: Color { r: 0, g: 0, b: 0 },
        }
    );
    assert_eq!(
        dots[1],
        Dot {
            position: Point { x: 400_000, y: 583_899 },
            radius: MIN_RADIUS,
            velocity: Point { x: -500, y: 1_500 },
            state: DotState::Floating,
            color: Color { r: 63, g: 127, b: 254 },
        }
    );
    assert_eq!(dots[2], dots[0]);
}

#[test]
fn init_dots_makes_as_many_dots_as_the_level_has() {
    for (number, total) in [(1u8, 5usize), (2, 10), (7, 35), (12, 60)] {
        let dots = init_dots(number, &pseudo_draws(8 * total, 7)).unwrap();
        assert_eq!(dots.len(), total);
        assert!(dots.iter().all(|d| d.state == DotState::Floating && d.radius == MIN_RADIUS));
    }
}

#[test]
fn init_dots_fails_for_an_undefined_level() {
    assert_eq!(init_dots(0, &Vec::new()), Err(ConfigLookupError { level: 0 }));
    assert_eq!(init_dots(13, &pseudo_draws(480, 1)), Err(ConfigLookupError { level: 13 }));
}

#[test]
fn begin_populates_the_level_and_waits() {
    let mut level = Level::new(2).unwrap();
    let draws = pseudo_draws(80, 99);
    assert_eq!(level.begin(&draws), Ok(()));
    assert_eq!(level.level_state(), LevelState::Waiting);
    assert_eq!(level.dots().len(), 10);
    assert_eq!(level.dots(), &init_dots(2, &draws).unwrap());
    assert_eq!(level.last_update(), 0);
}

#[test]
fn begin_uses_only_the_draws_it_needs() {
    let mut short = Level::new(1).unwrap();
    let mut long = Level::new(1).unwrap();
    let draws = pseudo_draws(100, 5);
    short.begin(&draws[..40].to_vec()).unwrap();
    long.begin(&draws).unwrap();
    assert_eq!(short.dots(), long.dots());
}

#[test]
fn begin_fails_for_an_undefined_level() {
    let mut level = Level::new(13).unwrap();
    assert_eq!(level.begin(&pseudo_draws(480, 3)), Err(ConfigLookupError { level: 13 }));
    assert_eq!(level.level_state(), LevelState::Begin);
    assert!(level.dots().is_empty());
}

#[test]
fn begin_is_ignored_once_the_round_has_begun() {
    let mut level = waiting_cluster();
    let before = level.dots().clone();
    assert_eq!(level.begin(&pseudo_draws(40, 11)), Ok(()));
    assert_eq!(level.level_state(), LevelState::Waiting);
    assert_eq!(level.dots(), &before);
    level.add_player(1, 2, 3, 4, 5);
    assert_eq!(level.begin(&pseudo_draws(40, 12)), Ok(()));
    assert_eq!(level.level_state(), LevelState::Clicked);
    assert_eq!(level.dots().len(), 6);
}

#[test]
fn cluster_dots_are_where_the_draws_put_them() {
    let level = waiting_cluster();
    let positions: Vec<Point> = level.dots().iter().map(|d| d.position).collect();
    assert_eq!(
        positions,
        vec![
            Point { x: 400_000, y: 300_000 },
            Point { x: 415_000, y: 300_000 },
            Point { x: 100_000, y: 100_000 },
            Point { x: 100_000, y: 500_000 },
            Point { x: 700_000, y: 100_000 },
        ]
    );
    assert!(level.dots().iter().all(|d| d.velocity == Point { x: 0, y: 2_000 }));
}

#[test]
fn add_player_plants_a_growing_dot_at_rest() {
    let mut level = waiting_cluster();
    level.add_player(-7, 123, 0x8000_0000, 0, 0xffff_ffff);
    assert_eq!(level.level_state(), LevelState::Clicked);
    assert_eq!(level.dots().len(), 6);
    assert_eq!(
        level.dots()[5],
        Dot {
            position: Point { x: -7, y: 123 },
            radius: MIN_RADIUS,
            velocity: Point { x: 0, y: 0 },
            state: DotState::Growing,
            color: Color { r: 127, g: 0, b: 254 },
        }
    );
}

#[test]
fn add_player_leaves_the_other_dots_alone() {
    let mut level = waiting_cluster();
    let before = level.dots().clone();
    level.add_player(5, 5, 0, 0, 0);
    assert_eq!(&level.dots()[..5], &before[..]);
}

#[test]
fn add_player_twice_plants_one_dot() {
    let mut level = waiting_cluster();
    level.add_player(390_000, 302_000, 1, 2, 3);
    let after_first = level.dots().clone();
    level.add_player(10_000, 20_000, 4, 5, 6);
    assert_eq!(level.dots().len(), 6);
    assert_eq!(level.dots(), &after_first);
    assert_eq!(level.level_state(), LevelState::Clicked);
}

#[test]
fn add_player_is_ignored_before_the_round_begins() {
    let mut level = Level::new(1).unwrap();
    level.add_player(1, 1, 0, 0, 0);
    assert_eq!(level.level_state(), LevelState::Begin);
    assert!(level.dots().is_empty());
}

#[test]
fn add_player_takes_any_point() {
    let mut level = waiting_cluster();
    level.add_player(i32::MIN, i32::MAX, 0, 0, 0);
    assert_eq!(level.dots()[5].position, Point { x: i32::MIN, y: i32::MAX });
    level.tick(16).unwrap();
    assert_eq!(level.dots()[5].position, Point { x: i32::MIN, y: i32::MAX });
    assert_eq!(level.dots()[5].radius, MIN_RADIUS + 1_000);
    assert_eq!(floating_dots(&level), 5);
}

#[test]
fn tick_before_the_round_begins_records_the_time_only() {
    let mut level = Level::new(1).unwrap();
    assert_eq!(level.tick(500), Ok(()));
    assert_eq!(level.last_update(), 500);
    assert_eq!(level.level_state(), LevelState::Begin);
    assert!(level.dots().is_empty());
}

#[test]
fn tick_while_waiting_moves_the_dots() {
    let mut level = waiting_cluster();
    level.tick(16).unwrap();
    assert_eq!(level.level_state(), LevelState::Waiting);
    assert_eq!(level.last_update(), 16);
    assert_eq!(level.dots()[0].position, Point { x: 400_000, y: 302_000 });
    assert_eq!(level.dots()[3].position, Point { x: 100_000, y: 502_000 });
    assert_eq!(floating_dots(&level), 5);
}

#[test]
fn waiting_round_never_settles() {
    let mut level = waiting_cluster();
    for tick in 1..2_000 {
        level.tick(tick * 16).unwrap();
    }
    assert_eq!(level.level_state(), LevelState::Waiting);
    assert_eq!(floating_dots(&level), 5);
    for dot in level.dots() {
        assert!(-2_000 + MIN_RADIUS < dot.position.y && dot.position.y < 600_000 - MIN_RADIUS + 2_000);
    }
}

#[test]
fn floating_dot_touched_by_the_player_is_captured() {
    let mut level = waiting_cluster();
    level.add_player(390_000, 302_000, 0, 0, 0);
    level.tick(16).unwrap();
    assert_eq!(level.dots()[0].state, DotState::Growing);
    assert_eq!(level.dots()[0].position, Point { x: 400_000, y: 302_000 });
    assert_eq!(level.dots()[0].radius, MIN_RADIUS);
    assert_eq!(level.dots()[5].radius, MIN_RADIUS + 1_000);
    assert_eq!(level.level_state(), LevelState::Clicked);
}

#[test]
fn capture_of_this_tick_captures_no_other_dot_in_the_same_tick() {
    let mut level = waiting_cluster();
    level.add_player(390_000, 302_000, 0, 0, 0);
    level.tick(16).unwrap();
    assert!(level.dots()[1].is_touching(&level.dots()[0]));
    assert_eq!(level.dots()[0].state, DotState::Growing);
    assert_eq!(level.dots()[1].state, DotState::Floating);
    level.tick(32).unwrap();
    assert_eq!(level.dots()[1].state, DotState::Growing);
    assert_eq!(level.dots()[1].position, Point { x: 415_000, y: 304_000 });
    assert_eq!(floating_dots(&level), 3);
}

#[test]
fn handle_collisions_marks_before_it_captures() {
    let mut level = waiting_cluster();
    level.add_player(390_000, 300_000, 0, 0, 0);
    level.handle_collisions();
    let states: Vec<DotState> = level.dots().iter().map(|d| d.state).collect();
    assert_eq!(
        states,
        vec![
            DotState::Growing,
            DotState::Floating,
            DotState::Floating,
            DotState::Floating,
            DotState::Floating,
            DotState::Growing,
        ]
    );
    level.handle_collisions();
    assert_eq!(level.dots()[1].state, DotState::Growing);
    assert_eq!(floating_dots(&level), 3);
}

#[test]
fn handle_collisions_changes_nothing_while_waiting() {
    let mut level = waiting_cluster();
    let before = level.dots().clone();
    level.handle_collisions();
    assert_eq!(level.dots(), &before);
}

#[test]
fn handle_death_waits_for_the_last_capturing_dot() {
    let mut level = waiting_cluster();
    level.add_player(390_000, 300_000, 0, 0, 0);
    assert_eq!(level.handle_death(), Ok(()));
    assert_eq!(level.level_state(), LevelState::Clicked);
}

#[test]
fn handle_death_is_idle_while_waiting() {
    let mut level = waiting_cluster();
    assert_eq!(level.handle_death(), Ok(()));
    assert_eq!(level.level_state(), LevelState::Waiting);
}

#[test]
fn round_with_a_capture_is_won() {
    let mut level = Level::new(1).unwrap();
    level.begin(&pseudo_draws(40, 2024)).unwrap();
    let target = level.dots()[0].position;
    level.add_player(target.x, target.y, 1, 2, 3);
    run_until_settled(&mut level, 0);
    assert_eq!(level.level_state(), LevelState::Won);
    assert!(floating_dots(&level) <= 4);
    assert!(level.dots().iter().all(|d| d.state == DotState::Floating || d.state == DotState::Dead));
}

#[test]
fn cluster_round_captures_two_dots_and_is_won() {
    let mut level = waiting_cluster();
    level.add_player(390_000, 302_000, 0, 0, 0);
    run_until_settled(&mut level, 0);
    assert_eq!(level.level_state(), LevelState::Won);
    let states: Vec<DotState> = level.dots().iter().map(|d| d.state).collect();
    assert_eq!(
        states,
        vec![
            DotState::Dead,
            DotState::Dead,
            DotState::Floating,
            DotState::Floating,
            DotState::Floating,
            DotState::Dead,
        ]
    );
    assert_eq!(level.header().unwrap()[4], 2);
    assert!(level.dots().iter().all(|d| d.radius == MIN_RADIUS));
}

#[test]
fn round_without_a_capture_is_lost() {
    let mut level = waiting_cluster();
    level.add_player(-10_000_000, -10_000_000, 0, 0, 0);
    let ticks = run_until_settled(&mut level, 0);
    assert_eq!(level.level_state(), LevelState::Lost);
    assert_eq!(floating_dots(&level), 5);
    assert_eq!(level.dots()[5].state, DotState::Dead);
    assert_eq!(level.header().unwrap()[4], 0);
    // 42 ticks of growth, one to become full, 19 of 16 ms to hang, 42 to
    // shrink, one to die and be counted.
    assert_eq!(ticks, 42 + 1 + 19 + 42 + 1);
}

#[test]
fn round_below_the_threshold_is_lost() {
    let mut level = Level::new(4).unwrap();
    let mut draws = cluster();
    for _ in 0..15 {
        draws.extend(falling_dot(700_000, 500_000));
    }
    level.begin(&draws).unwrap();
    assert_eq!(level.dots().len(), 20);
    level.add_player(390_000, 302_000, 0, 0, 0);
    run_until_settled(&mut level, 0);
    assert_eq!(floating_dots(&level), 18);
    assert_eq!(level.header().unwrap()[3], 5);
    assert_eq!(level.header().unwrap()[4], 2);
    assert_eq!(level.level_state(), LevelState::Lost);
}

#[test]
fn round_at_the_threshold_is_won() {
    let mut level = Level::new(2).unwrap();
    let mut draws = cluster();
    for _ in 0..5 {
        draws.extend(falling_dot(700_000, 500_000));
    }
    level.begin(&draws).unwrap();
    level.add_player(390_000, 302_000, 0, 0, 0);
    run_until_settled(&mut level, 0);
    assert_eq!(level.header().unwrap()[3], 2);
    assert_eq!(level.header().unwrap()[4], 2);
    assert_eq!(level.level_state(), LevelState::Won);
}

#[test]
fn settled_round_is_frozen() {
    let mut level = waiting_cluster();
    level.add_player(390_000, 302_000, 0, 0, 0);
    let now = 16 * run_until_settled(&mut level, 0);
    assert_eq!(level.last_update(), now);
    let before = level.dots().clone();
    level.tick(now + 500).unwrap();
    level.add_player(1, 1, 1, 1, 1);
    level.begin(&cluster()).unwrap();
    assert_eq!(level.level_state(), LevelState::Won);
    assert_eq!(level.dots(), &before);
    assert_eq!(level.last_update(), now + 500);
}

#[test]
fn radii_stay_in_range_and_states_never_go_back() {
    let mut level = Level::new(3).unwrap();
    level.begin(&pseudo_draws(120, 77)).unwrap();
    let target = level.dots()[7].position;
    level.add_player(target.x, target.y, 0, 0, 0);
    let rank = |state: DotState| match state {
        DotState::Floating => 0,
        DotState::Growing => 1,
        DotState::Full(_) => 2,
        DotState::Shrinking => 3,
        DotState::Dead => 4,
    };
    let mut ranks: Vec<i32> = level.dots().iter().map(|d| rank(d.state)).collect();
    let mut now: u32 = 0;
    while level.level_state() == LevelState::Clicked {
        now += 16;
        level.tick(now).unwrap();
        assert_eq!(level.dots().len(), 16);
        for (id, dot) in level.dots().iter().enumerate() {
            assert!(MIN_RADIUS <= dot.radius && dot.radius <= MAX_RADIUS);
            assert!(ranks[id] <= rank(dot.state) && rank(dot.state) <= ranks[id] + 1);
            ranks[id] = rank(dot.state);
        }
        let header = level.header().unwrap();
        assert_eq!(header[4] as usize, 15 - floating_dots(&level));
    }
    assert!(level.level_state() == LevelState::Won || level.level_state() == LevelState::Lost);
}

#[test]
fn header_of_a_level_that_has_not_begun() {
    let level = Level::new(1).unwrap();
    assert_eq!(level.header(), Ok(vec![1, 0, 0, 1, 5, 0]));
}

#[test]
fn header_of_a_waiting_level() {
    let mut level = Level::new(2).unwrap();
    level.begin(&pseudo_draws(80, 1)).unwrap();
    level.tick(4_000_000_000).unwrap();
    assert_eq!(level.header(), Ok(vec![2, 1, 10, 2, 0, 4_000_000_000]));
}

#[test]
fn header_counts_the_captured_dots() {
    let mut level = waiting_cluster();
    level.add_player(390_000, 302_000, 0, 0, 0);
    assert_eq!(level.header(), Ok(vec![1, 2, 6, 1, 0, 0]));
    level.tick(16).unwrap();
    assert_eq!(level.header(), Ok(vec![1, 2, 6, 1, 1, 16]));
    level.tick(32).unwrap();
    assert_eq!(level.header(), Ok(vec![1, 2, 6, 1, 2, 32]));
    let now = 32 + 16 * run_until_settled(&mut level, 32);
    assert_eq!(level.header(), Ok(vec![1, 3, 6, 1, 2, now]));
}

#[test]
fn header_of_a_lost_level_has_state_code_four() {
    let mut level = waiting_cluster();
    level.add_player(-10_000_000, 0, 0, 0, 0);
    let now = 16 * run_until_settled(&mut level, 0);
    assert_eq!(level.header(), Ok(vec![1, 4, 6, 1, 0, now]));
}

#[test]
fn header_fails_for_an_undefined_level() {
    let level = Level::new(0).unwrap();
    assert_eq!(level.header(), Err(ConfigLookupError { level: 0 }));
    assert_eq!(level.pack(), Err(ConfigLookupError { level: 0 }));
}

#[test]
fn pack_of_a_level_that_has_not_begun_is_the_header() {
    let level = Level::new(5).unwrap();
    assert_eq!(level.pack(), Ok(vec![5, 0, 0, 7, 25, 0]));
}

#[test]
fn pack_length_is_six_and_seven_per_dot() {
    let mut level = Level::new(3).unwrap();
    level.begin(&pseudo_draws(120, 8)).unwrap();
    let buffer = level.pack().unwrap();
    assert_eq!(buffer[2], 15);
    assert_eq!(buffer.len(), 6 + 7 * 15);
    level.add_player(0, 0, 0, 0, 0);
    level.tick(3).unwrap();
    let buffer = level.pack().unwrap();
    assert_eq!(buffer[2], 16);
    assert_eq!(buffer.len(), 6 + 7 * (buffer[2] as usize));
}

#[test]
fn pack_lists_the_header_and_then_every_dot() {
    let mut level = waiting_cluster();
    level.add_player(390_000, 302_000, 0x8000_0000, 0, 0xffff_ffff);
    level.tick(16).unwrap();
    let buffer = level.pack().unwrap();
    let mut expected: Vec<i64> = vec![1, 2, 6, 1, 1, 16];
    expected.extend([400_000, 302_000, 8_000, 2, 0, 0, 0]);
    expected.extend([415_000, 302_000, 8_000, 1, 0, 0, 0]);
    expected.extend([100_000, 102_000, 8_000, 1, 0, 0, 0]);
    expected.extend([100_000, 502_000, 8_000, 1, 0, 0, 0]);
    expected.extend([700_000, 102_000, 8_000, 1, 0, 0, 0]);
    expected.extend([390_000, 302_000, 9_000, 2, 127, 0, 254]);
    assert_eq!(buffer, expected);
    for (id, dot) in level.dots().iter().enumerate() {
        assert_eq!(&buffer[6 + 7 * id..6 + 7 * id + 7], &dot.pack()[..]);
    }
    let header: Vec<i64> = level.header().unwrap().iter().map(|&entry| i64::from(entry)).collect();
    assert_eq!(&buffer[..6], &header[..]);
}
