//! Deterministic accelerated world clock derived only from wall-clock milliseconds.
//! No world tick is persisted: the same timestamp always yields the same day part and weather.

use vstd::prelude::*;
use vstd::wrapping::u64_specs;

verus! {

#[derive(Clone, Copy, Debug, PartialEq, Eq, Structural)]
pub enum Weather {
    Clear,
    Rain,
    Fog,
}

#[derive(Clone, Copy, Debug, PartialEq, Eq, Structural)]
pub enum DayPart {
    Morning,
    Day,
    Evening,
    Night,
}

#[derive(Clone, Copy, Debug, PartialEq, Eq, Structural)]
pub struct Environment {
    pub weather: Weather,
    pub game_minute: u16,
    pub day_part: DayPart,
}

/// Real milliseconds in one accelerated game day (two real hours).
pub const GAME_DAY_REAL_MS: i64 = 7_200_000;

/// Real milliseconds between weather rolls.
pub const WEATHER_SLOT_MS: i64 = 900_000;

/// Real milliseconds per game minute (`GAME_DAY_REAL_MS / 1440`).
pub const GAME_MINUTE_REAL_MS: i64 = 5_000;

pub const WEATHER_MIX: u64 = 0x9E37_79B9_7F4A_7C15;

pub const WEATHER_SALT: u64 = 0xD1B5_4A32_D192_ED03;

/// `x.rotate_left(17)` for 64-bit values.
pub open spec fn rotate_left_17(x: u64) -> u64 {
    (x << 17u64) | (x >> 47u64)
}

fn rotate_left_17_exec(x: u64) -> (r: u64)
    ensures
        r == rotate_left_17(x),
{
    (x << 17u64) | (x >> 47u64)
}

/// Clamps a mathematical integer into the `i64` range, as the saturating operations do.
pub open spec fn saturate_i64(x: int) -> i64 {
    if x > i64::MAX {
        i64::MAX
    } else if x < i64::MIN {
        i64::MIN
    } else {
        x as i64
    }
}

pub fn saturating_add_i64(a: i64, b: i64) -> (r: i64)
    ensures
        r == saturate_i64(a + b),
{
    match a.checked_add(b) {
        Some(v) => v,
        None => if b > 0 {
            i64::MAX
        } else {
            i64::MIN
        },
    }
}

pub fn saturating_sub_i64(a: i64, b: i64) -> (r: i64)
    ensures
        r == saturate_i64(a - b),
{
    match a.checked_sub(b) {
        Some(v) => v,
        None => if b < 0 {
            i64::MAX
        } else {
            i64::MIN
        },
    }
}

pub fn saturating_mul_i64(a: i64, b: i64) -> (r: i64)
    ensures
        r == saturate_i64(a * b),
{
    match a.checked_mul(b) {
        Some(v) => v,
        None => {
            if (a > 0 && b > 0) || (a < 0 && b < 0) {
                assert(a * b > 0) by (nonlinear_arith)
                    requires
                        (a > 0 && b > 0) || (a < 0 && b < 0),
                ;
                i64::MAX
            } else {
                assert(a * b <= 0) by (nonlinear_arith)
                    requires
                        !((a > 0 && b > 0) || (a < 0 && b < 0)),
                ;
                i64::MIN
            }
        },
    }
}

/// Milliseconds since the start of the current game day.
pub open spec fn within_day(now_ms: i64) -> int {
    (now_ms as int) % (GAME_DAY_REAL_MS as int)
}

/// The game minute (0..1440) of the current game day.
pub open spec fn game_minute_at(now_ms: i64) -> int {
    (within_day(now_ms) * 1440) / (GAME_DAY_REAL_MS as int)
}

pub open spec fn day_part_of_minute(minute: int) -> DayPart {
    if 300 <= minute <= 659 {
        DayPart::Morning
    } else if 660 <= minute <= 1019 {
        DayPart::Day
    } else if 1020 <= minute <= 1259 {
        DayPart::Evening
    } else {
        DayPart::Night
    }
}

/// The weather slot index, reinterpreted as an unsigned 64-bit value.
pub open spec fn weather_slot(now_ms: i64) -> u64 {
    ((now_ms as int / WEATHER_SLOT_MS as int) as i64) as u64
}

pub open spec fn weather_of_slot(slot: u64) -> Weather {
    let mixed = rotate_left_17(u64_specs::wrapping_mul(slot, WEATHER_MIX)) ^ WEATHER_SALT;
    let roll = mixed % 10;
    if roll <= 1 {
        Weather::Fog
    } else if roll <= 4 {
        Weather::Rain
    } else {
        Weather::Clear
    }
}

pub open spec fn environment_spec(now_ms: i64) -> Environment {
    Environment {
        weather: weather_of_slot(weather_slot(now_ms)),
        game_minute: game_minute_at(now_ms) as u16,
        day_part: day_part_of_minute(game_minute_at(now_ms)),
    }
}

pub fn environment_at(now_ms: i64) -> (env: Environment)
    ensures
        env == environment_spec(now_ms),
        env.game_minute < 1440,
{
    let within = match now_ms.checked_rem_euclid(GAME_DAY_REAL_MS) {
        Some(v) => v,
        None => 0,
    };
    assert(0 <= within < GAME_DAY_REAL_MS);
    let minute = (within * 1440) / GAME_DAY_REAL_MS;
    assert(0 <= minute < 1440) by (nonlinear_arith)
        requires
            0 <= within < 7_200_000,
            minute == (within * 1440) / 7_200_000,
    ;
    let game_minute = minute as u16;
    let day_part = if 300 <= game_minute && game_minute <= 659 {
        DayPart::Morning
    } else if 660 <= game_minute && game_minute <= 1019 {
        DayPart::Day
    } else if 1020 <= game_minute && game_minute <= 1259 {
        DayPart::Evening
    } else {
        DayPart::Night
    };
    let slot_signed = match now_ms.checked_div_euclid(WEATHER_SLOT_MS) {
        Some(v) => v,
        None => 0,
    };
    let slot = slot_signed as u64;
    let mixed = rotate_left_17_exec(slot.wrapping_mul(WEATHER_MIX)) ^ WEATHER_SALT;
    let roll = mixed % 10;
    let weather = if roll <= 1 {
        Weather::Fog
    } else if roll <= 4 {
        Weather::Rain
    } else {
        Weather::Clear
    };
    Environment { weather, game_minute, day_part }
}

pub open spec fn game_day_spec(now_ms: i64) -> int {
    now_ms as int / GAME_DAY_REAL_MS as int
}

pub fn game_day(now_ms: i64) -> (day: i64)
    ensures
        day == game_day_spec(now_ms),
{
    match now_ms.checked_div_euclid(GAME_DAY_REAL_MS) {
        Some(v) => v,
        None => 0,
    }
}

pub open spec fn next_weather_change_spec(now_ms: i64) -> i64 {
    saturate_i64((now_ms as int / WEATHER_SLOT_MS as int + 1) * WEATHER_SLOT_MS as int)
}

/// The first instant of the next weather slot; weather stays fixed until then.
pub fn next_weather_change_ms(now_ms: i64) -> (next: i64)
    ensures
        next == next_weather_change_spec(now_ms),
        now_ms < i64::MAX ==> next > now_ms,
        forall|t: i64|
            now_ms <= t < next ==> #[trigger] weather_slot(t) == weather_slot(now_ms),
{
    let slot = match now_ms.checked_div_euclid(WEATHER_SLOT_MS) {
        Some(v) => v,
        None => 0,
    };
    let ghost w = WEATHER_SLOT_MS as int;
    let ghost s = now_ms as int / w;
    assert(s * w <= now_ms < (s + 1) * w) by {
        vstd::arithmetic::div_mod::lemma_fundamental_div_mod(now_ms as int, w);
        vstd::arithmetic::div_mod::lemma_mod_bound(now_ms as int, w);
    }
    assert(slot < i64::MAX) by (nonlinear_arith)
        requires
            slot == s,
            s * 900_000 <= now_ms,
            now_ms <= i64::MAX,
    ;
    let next = saturating_mul_i64(slot + 1, WEATHER_SLOT_MS);
    assert forall|t: i64| now_ms <= t < next implies #[trigger] weather_slot(t) == weather_slot(
        now_ms,
    ) by {
        assert(t < (s + 1) * w);
        vstd::arithmetic::div_mod::lemma_fundamental_div_mod_converse(
            t as int,
            w,
            s,
            t as int - s * w,
        );
    }
    next
}

pub open spec fn next_day_part_minute(minute: int) -> int {
    if minute <= 299 {
        300
    } else if minute <= 659 {
        660
    } else if minute <= 1019 {
        1020
    } else if minute <= 1259 {
        1260
    } else {
        1440
    }
}

pub open spec fn next_day_part_change_spec(now_ms: i64) -> i64 {
    let day_start = saturate_i64(now_ms - within_day(now_ms));
    saturate_i64(
        day_start + (next_day_part_minute(game_minute_at(now_ms)) * GAME_DAY_REAL_MS as int)
            / 1440,
    )
}

/// Every timestamp splits into whole game days plus the offset within the day.
proof fn lemma_within_day(x: i64)
    ensures
        x == game_day_spec(x) * GAME_DAY_REAL_MS + within_day(x),
        0 <= within_day(x) < GAME_DAY_REAL_MS,
{
    vstd::arithmetic::div_mod::lemma_fundamental_div_mod(x as int, GAME_DAY_REAL_MS as int);
    vstd::arithmetic::div_mod::lemma_mod_bound(x as int, GAME_DAY_REAL_MS as int);
}

/// A game minute is exactly `GAME_MINUTE_REAL_MS` real milliseconds.
proof fn lemma_minute_of_offset(w: int)
    requires
        0 <= w < GAME_DAY_REAL_MS,
    ensures
        (w * 1440) / (GAME_DAY_REAL_MS as int) == w / 5000,
        0 <= w / 5000 < 1440,
{
    assert((w * 1440) / 7_200_000 == w / 5000 && 0 <= w / 5000 < 1440) by (nonlinear_arith)
        requires
            0 <= w < 7_200_000,
    ;
}

/// Between `now_ms` and the next boundary minute of the same day, the day part does not change.
proof fn lemma_day_part_stable(now_ms: i64, t: i64)
    requires
        now_ms <= t,
        t < game_day_spec(now_ms) * GAME_DAY_REAL_MS + next_day_part_minute(
            game_minute_at(now_ms),
        ) * 5000,
    ensures
        environment_spec(t).day_part == environment_spec(now_ms).day_part,
{
    let d = GAME_DAY_REAL_MS as int;
    let day = game_day_spec(now_ms);
    let within = within_day(now_ms);
    lemma_within_day(now_ms);
    lemma_minute_of_offset(within);
    let minute = game_minute_at(now_ms);
    let boundary = next_day_part_minute(minute);
    let wt = t - day * d;
    assert(0 <= wt < d);
    vstd::arithmetic::div_mod::lemma_fundamental_div_mod_converse(t as int, d, day, wt);
    lemma_minute_of_offset(wt);
    assert(minute <= wt / 5000 < boundary) by (nonlinear_arith)
        requires
            minute == within / 5000,
            within <= wt,
            wt < boundary * 5000,
    ;
}

/// The next instant at which the day part changes; the day part stays fixed until then.
pub fn next_day_part_change_ms(now_ms: i64) -> (next: i64)
    ensures
        next == next_day_part_change_spec(now_ms),
        now_ms < i64::MAX ==> next > now_ms,
        now_ms - within_day(now_ms) >= i64::MIN ==> forall|t: i64|
            now_ms <= t < next ==> #[trigger] environment_spec(t).day_part == environment_spec(
                now_ms,
            ).day_part,
{
    let within = match now_ms.checked_rem_euclid(GAME_DAY_REAL_MS) {
        Some(v) => v,
        None => 0,
    };
    proof {
        lemma_within_day(now_ms);
        lemma_minute_of_offset(within as int);
    }
    let minute = (within * 1440) / GAME_DAY_REAL_MS;
    let next_minute: i64 = if minute <= 299 {
        300
    } else if minute <= 659 {
        660
    } else if minute <= 1019 {
        1020
    } else if minute <= 1259 {
        1260
    } else {
        1440
    };
    let day_start = saturating_sub_i64(now_ms, within);
    let offset = saturating_mul_i64(next_minute, GAME_DAY_REAL_MS) / 1440;
    assert(offset == next_minute * 5000);
    let next = saturating_add_i64(day_start, offset);
    assert(within < next_minute * 5000) by (nonlinear_arith)
        requires
            minute == within / 5000,
            0 <= within,
            minute < next_minute,
    ;
    proof {
        if now_ms - within >= i64::MIN {
            assert forall|t: i64| now_ms <= t < next implies #[trigger] environment_spec(
                t,
            ).day_part == environment_spec(now_ms).day_part by {
                lemma_day_part_stable(now_ms, t);
            }
        }
    }
    next
}

impl Weather {
    /// The persisted numeric tag of this weather.
    pub fn code(self) -> (code: u8)
        ensures
            code == self.code_spec(),
    {
        match self {
            Weather::Clear => 0,
            Weather::Rain => 1,
            Weather::Fog => 2,
        }
    }

    pub open spec fn code_spec(self) -> u8 {
        match self {
            Weather::Clear => 0,
            Weather::Rain => 1,
            Weather::Fog => 2,
        }
    }

    pub fn label(self) -> (label: &'static str)
        ensures
            label@ == match self {
                Weather::Clear => "Clear"@,
                Weather::Rain => "Rain"@,
                Weather::Fog => "Fog"@,
            },
    {
        match self {
            Weather::Clear => "Clear",
            Weather::Rain => "Rain",
            Weather::Fog => "Fog",
        }
    }
}

impl DayPart {
    /// The persisted numeric tag of this day part.
    pub fn code(self) -> (code: u8)
        ensures
            code == self.code_spec(),
    {
        match self {
            DayPart::Morning => 0,
            DayPart::Day => 1,
            DayPart::Evening => 2,
            DayPart::Night => 3,
        }
    }

    pub open spec fn code_spec(self) -> u8 {
        match self {
            DayPart::Morning => 0,
            DayPart::Day => 1,
            DayPart::Evening => 2,
            DayPart::Night => 3,
        }
    }

    pub fn label(self) -> (label: &'static str)
        ensures
            label@ == match self {
                DayPart::Morning => "Morning"@,
                DayPart::Day => "Day"@,
                DayPart::Evening => "Evening"@,
                DayPart::Night => "Night"@,
            },
    {
        match self {
            DayPart::Morning => "Morning",
            DayPart::Day => "Day",
            DayPart::Evening => "Evening",
            DayPart::Night => "Night",
        }
    }
}

} // verus!
