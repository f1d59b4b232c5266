use game::clock::{timer_step, TimerStep, TIMER_BATCH};
use game::callback::Callback;
use game::clock::{clamp_millis, now_ms};
use game::fishing::effective_control;
use game::ids::{BaitId, EncounterId, LocationId, RodId};
use game::progression::level_for_xp;
use game::rng::Rng;
use game::world::{
    environment_at, game_day, next_day_part_change_ms, next_weather_change_ms, DayPart,
    GAME_DAY_REAL_MS,
};

#[test]
fn level_curve_matches_expected_boundaries() {
    assert_eq!(level_for_xp(0), 1);
    assert_eq!(level_for_xp(49), 1);
    assert_eq!(level_for_xp(50), 2);
    assert_eq!(level_for_xp(199), 2);
    assert_eq!(level_for_xp(200), 3);
    assert_eq!(level_for_xp(u64::MAX), 607_400_100);
}

#[test]
fn level_curve_squares_thresholds() {
    // 50 * k * k experience reaches level k + 1.
    for k in [1_u64, 2, 3, 10, 100, 1_000] {
        assert_eq!(level_for_xp(50 * k * k), (k + 1) as u32);
        assert_eq!(level_for_xp(50 * k * k - 1), k as u32);
    }
    assert_eq!(level_for_xp(i64::MAX as u64), 429_496_730);
}

#[test]
fn level_never_drops_as_experience_grows() {
    let mut previous = level_for_xp(0);
    for xp in (0_u64..20_000).step_by(7) {
        let level = level_for_xp(xp);
        assert!(level >= previous);
        previous = level;
    }
}

#[test]
fn worn_rods_keep_most_of_their_control() {
    assert_eq!(effective_control(20, 100), 20);
    assert!(effective_control(20, 1) >= 15);
    assert!(effective_control(20, 25) < effective_control(20, 100));
}

#[test]
fn seeded_sequence_is_stable() {
    let mut first = Rng::new(42);
    let mut second = Rng::new(42);
    for _ in 0..32 {
        assert_eq!(first.next_u64(), second.next_u64());
    }
}

#[test]
fn range_stays_inside_bounds() {
    let mut rng = Rng::new(7);
    for _ in 0..1_000 {
        let value = rng.range_inclusive(10, 15);
        assert!((10..=15).contains(&value));
    }
}

#[test]
fn below_stays_under_the_bound() {
    let mut rng = Rng::new(99);
    for upper in [1_u64, 2, 3, 7, 1_000, u64::MAX] {
        assert!(rng.below(upper) < upper);
    }
    let mut single = Rng::new(5);
    assert_eq!(single.range_inclusive(4, 4), 4);
}

#[test]
fn callback_round_trip() {
    let values = [
        Callback::Reel { encounter_id: EncounterId(123_456), step: 7 },
        Callback::BuyBait { bait_id: BaitId(3) },
        Callback::Travel { location_id: LocationId(2) },
        Callback::Home,
        Callback::ForageBait,
        Callback::Explore,
        Callback::BuyRod { rod_id: RodId(4) },
        Callback::EquipRod { rod_id: RodId(2) },
        Callback::Pull { encounter_id: EncounterId(77), step: 3 },
        Callback::GiveLine { encounter_id: EncounterId(77), step: 3 },
        Callback::Tasks,
        Callback::ClaimObjective { objective_id: 3 },
        Callback::TurnInContract,
        Callback::Talk,
        Callback::Conditions,
        Callback::RepairRods,
        Callback::Records,
        Callback::Titles,
        Callback::EquipTitle { title_id: 6 },
        Callback::Crafting,
        Callback::Craft { recipe_id: 2 },
        Callback::GroupCast { cycle: -123_456 },
        Callback::GroupJournal,
        Callback::GroupRecords,
        Callback::GroupHelp,
    ];
    for value in values {
        assert_eq!(Callback::decode(&value.encode()), Some(value));
    }
}

#[test]
fn unknown_callback_payloads_are_refused() {
    assert_eq!(Callback::decode(&[]), None);
    assert_eq!(Callback::decode(&[2, 1]), None);
    assert_eq!(Callback::decode(&[1, 200]), None);
    let mut long = Callback::Home.encode();
    long.push(0);
    assert_eq!(Callback::decode(&long), None);
}

#[test]
fn future_boundaries_are_strictly_ahead() {
    for now in [0_i64, 1, 123_456_789, GAME_DAY_REAL_MS - 1, GAME_DAY_REAL_MS] {
        assert!(next_weather_change_ms(now) > now);
        assert!(next_day_part_change_ms(now) > now);
    }
}

#[test]
fn game_day_matches_accelerated_clock() {
    assert_eq!(game_day(0), 0);
    assert_eq!(game_day(GAME_DAY_REAL_MS - 1), 0);
    assert_eq!(game_day(GAME_DAY_REAL_MS), 1);
}

#[test]
fn weather_holds_until_its_next_change() {
    let now = 987_654_321_i64;
    let change = next_weather_change_ms(now);
    assert_eq!(environment_at(now).weather, environment_at(change - 1).weather);
    assert_eq!(change % 900_000, 0);
}

#[test]
fn day_parts_follow_the_game_clock() {
    // Game minute 300 (05:00) starts the morning; 1440 minutes span one game day.
    let morning = 300 * 5_000;
    assert_eq!(environment_at(morning).day_part, DayPart::Morning);
    assert_eq!(environment_at(morning).game_minute, 300);
    assert_eq!(environment_at(morning - 1).day_part, DayPart::Night);
    assert_eq!(next_day_part_change_ms(morning - 1), morning);
    assert_eq!(game_day(-1), -1);
}

#[test]
fn clock_milliseconds_are_clamped() {
    assert_eq!(clamp_millis(None), 0);
    assert_eq!(clamp_millis(Some(1_234)), 1_234);
    assert_eq!(clamp_millis(Some(u128::MAX)), i64::MAX);
    assert!(now_ms() > 0);
}

#[test]
fn timer_driver_sleeps_until_the_next_timer() {
    assert_eq!(timer_step(None, 5), TimerStep::WaitForWake);
    assert_eq!(timer_step(Some(1_500), 1_000), TimerStep::Sleep { ms: 500 });
    assert_eq!(timer_step(Some(1_000), 1_000), TimerStep::Drain { limit: TIMER_BATCH });
    assert_eq!(timer_step(Some(10), 1_000), TimerStep::Drain { limit: 64 });
}
