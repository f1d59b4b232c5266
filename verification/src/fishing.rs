//! Pure deterministic fishing mechanics; persistence and transport live elsewhere.

use vstd::prelude::*;
use crate::content::{Content, EncounterWeight, Species};
use crate::ids::{BaitId, LocationId, SpeciesId};
use crate::rng::{Rng, advance, lemma_range_sample_bounds, output, range_sample, rejection_sample};
use crate::sort::{has_key, lemma_key_unique, search_by_key, strictly_sorted_by_key};
use crate::world::Environment;

verus! {

// Independent RNG domains keep one mechanic's extra draws from perturbing the others.
pub const SPECIES_SEED: u64 = 0xA5A5_4D4D_9292_1717;

pub const BITE_SEED: u64 = 0x7D23_1A69_2C8B_4F10;

pub const SPECIMEN_SEED: u64 = 0xC6BC_2796_92B5_CC83;

#[derive(Clone, Copy, Debug, PartialEq, Eq, Structural)]
pub enum Reaction {
    Excellent,
    Good,
    Late,
    Missed,
}

#[derive(Clone, Copy, Debug, PartialEq, Eq, Structural)]
pub enum StruggleAction {
    Pull,
    GiveLine,
}

#[derive(Clone, Copy, Debug, PartialEq, Eq, Structural)]
pub struct Specimen {
    pub length_mm: u32,
    pub weight_g: u32,
}

/// Neutral bait multiplier, in basis points.
pub const NEUTRAL_MULTIPLIER_BP: u64 = 10_000;

/// The species may appear under these conditions: an empty requirement list allows all.
pub open spec fn eligible_spec(species: Species, environment: Environment) -> bool {
    &&& (species.required_weather@.len() == 0 || species.required_weather@.contains(
        environment.weather.code_spec(),
    ))
    &&& (species.required_day_parts@.len() == 0 || species.required_day_parts@.contains(
        environment.day_part.code_spec(),
    ))
}

fn contains_code(codes: &Vec<u8>, code: u8) -> (found: bool)
    ensures
        found == codes@.contains(code),
{
    let mut i: usize = 0;
    while i < codes.len()
        invariant
            i <= codes@.len(),
            forall|k: int| 0 <= k < i ==> codes@[k] != code,
        decreases codes@.len() - i,
    {
        if codes[i] == code {
            assert(codes@[i as int] == code);
            return true;
        }
        i = i + 1;
    }
    false
}

pub fn eligible(species: &Species, environment: Environment) -> (ok: bool)
    ensures
        ok == eligible_spec(*species, environment),
{
    let weather = environment.weather.code();
    let day_part = environment.day_part.code();
    (species.required_weather.len() == 0 || contains_code(&species.required_weather, weather)) && (
    species.required_day_parts.len() == 0 || contains_code(&species.required_day_parts, day_part))
}

/// The bait multiplier a species applies, in basis points.
pub open spec fn bait_multiplier_spec(species: Species, bait: BaitId) -> int {
    if has_key(species.bait_modifiers@, bait.0 as int) {
        let i = choose|i: int|
            0 <= i < species.bait_modifiers@.len() && species.bait_modifiers@[i].bait_id.0
                == bait.0;
        species.bait_modifiers@[i].multiplier_bp as int
    } else {
        NEUTRAL_MULTIPLIER_BP as int
    }
}

/// How strongly an encounter pulls on the species roll: zero when the species is out of season.
pub open spec fn encounter_weight_spec(
    content: Content,
    encounter: EncounterWeight,
    bait: BaitId,
    environment: Environment,
) -> u64 {
    let species = content.species_spec(encounter.species_id);
    if !eligible_spec(species, environment) {
        0
    } else {
        (encounter.weight as int * bait_multiplier_spec(species, bait)) as u64
    }
}

fn encounter_weight(
    content: &Content,
    encounter: EncounterWeight,
    bait: BaitId,
    environment: Environment,
) -> (weight: u64)
    requires
        content.is_valid(),
        has_key(content.species@, encounter.species_id.0 as int),
    ensures
        weight == encounter_weight_spec(*content, encounter, bait, environment),
{
    let species = content.species(encounter.species_id);
    if !eligible(species, environment) {
        return 0;
    }
    let ghost k = choose|k: int|
        0 <= k < content.species@.len() && content.species@[k].id == encounter.species_id;
    assert(content.species@[k].is_valid_in(content.baits@));
    assert(strictly_sorted_by_key(species.bait_modifiers@));
    let multiplier: u64 = match search_by_key(&species.bait_modifiers, bait.0 as i128) {
        Some(index) => {
            proof {
                let j = choose|j: int|
                    0 <= j < species.bait_modifiers@.len()
                        && species.bait_modifiers@[j].bait_id.0 == bait.0;
                lemma_key_unique(species.bait_modifiers@, index as int, j);
            }
            species.bait_modifiers[index].multiplier_bp as u64
        },
        None => NEUTRAL_MULTIPLIER_BP,
    };
    assert(encounter.weight as u64 * multiplier <= u64::MAX) by (nonlinear_arith)
        requires
            encounter.weight <= u32::MAX,
            multiplier <= u32::MAX,
    ;
    encounter.weight as u64 * multiplier
}

/// The bait weighs each species by that species' preference for it: a species in season pulls
/// with its encounter weight times the multiplier its modifier table lists for the bait, or
/// times the neutral 10_000 bp when the table does not list the bait; a species out of season
/// does not pull at all.
pub proof fn lemma_bait_preference_weights_encounter(
    content: Content,
    encounter: EncounterWeight,
    bait: BaitId,
    environment: Environment,
)
    requires
        content.is_valid(),
        has_key(content.species@, encounter.species_id.0 as int),
    ensures
        ({
            let species = content.species_spec(encounter.species_id);
            let modifiers = species.bait_modifiers@;
            let weight = encounter_weight_spec(content, encounter, bait, environment) as int;
            &&& !eligible_spec(species, environment) ==> weight == 0
            &&& forall|k: int|
                0 <= k < modifiers.len() && #[trigger] modifiers[k].bait_id == bait && eligible_spec(
                    species,
                    environment,
                ) ==> weight == encounter.weight * modifiers[k].multiplier_bp
            &&& (forall|k: int| 0 <= k < modifiers.len() ==> #[trigger] modifiers[k].bait_id != bait)
                && eligible_spec(species, environment) ==> weight == encounter.weight * 10_000
        }),
{
    let species = content.species_spec(encounter.species_id);
    content.lemma_species_spec_valid(encounter.species_id);
    let modifiers = species.bait_modifiers@;
    assert forall|k: int|
        0 <= k < modifiers.len() && #[trigger] modifiers[k].bait_id == bait && eligible_spec(
            species,
            environment,
        ) implies encounter_weight_spec(content, encounter, bait, environment) as int
        == encounter.weight * modifiers[k].multiplier_bp by {
        assert(has_key(modifiers, bait.0 as int));
        let i = choose|i: int| 0 <= i < modifiers.len() && modifiers[i].bait_id.0 == bait.0;
        lemma_key_unique(modifiers, i, k);
        let m = modifiers[k].multiplier_bp;
        assert(encounter.weight as int * m as int <= u64::MAX) by (nonlinear_arith)
            requires
                encounter.weight <= u32::MAX,
                m <= u32::MAX,
        ;
    }
    if (forall|k: int| 0 <= k < modifiers.len() ==> #[trigger] modifiers[k].bait_id != bait) {
        if has_key(modifiers, bait.0 as int) {
            let i = choose|i: int| 0 <= i < modifiers.len() && modifiers[i].bait_id.0 == bait.0;
            assert(modifiers[i].bait_id != bait);
        }
        assert(encounter.weight as int * 10_000 <= u64::MAX) by (nonlinear_arith)
            requires
                encounter.weight <= u32::MAX,
        ;
    }
}

/// The sum of the first `n` weights.
pub open spec fn prefix_sum(weights: Seq<u64>, n: int) -> int
    decreases n,
{
    if n <= 0 {
        0
    } else {
        prefix_sum(weights, n - 1) + weights[n - 1]
    }
}

/// The total of all weights, saturated at `u64::MAX` as the running sum is.
pub open spec fn saturated_total(weights: Seq<u64>) -> u64 {
    let total = prefix_sum(weights, weights.len() as int);
    if total > u64::MAX {
        u64::MAX
    } else {
        total as u64
    }
}

/// Walks the encounters from `i`, spending `roll` on each weight, and returns the species
/// whose weight the remaining roll falls into.
pub open spec fn pick_encounter(
    encounters: Seq<EncounterWeight>,
    weights: Seq<u64>,
    roll: int,
    i: int,
) -> Option<SpeciesId>
    decreases encounters.len() - i,
{
    if i < 0 || i >= encounters.len() {
        None
    } else if roll < weights[i] {
        Some(encounters[i].species_id)
    } else {
        pick_encounter(encounters, weights, roll - weights[i], i + 1)
    }
}

pub open spec fn encounter_weights(
    content: Content,
    encounters: Seq<EncounterWeight>,
    bait: BaitId,
    environment: Environment,
) -> Seq<u64> {
    encounters.map_values(|e: EncounterWeight| encounter_weight_spec(content, e, bait, environment))
}

/// The species that a cast at `location` with `bait` under `environment` hooks for `seed`.
pub open spec fn select_species_spec(
    content: Content,
    location: LocationId,
    bait: BaitId,
    environment: Environment,
    seed: u64,
) -> SpeciesId {
    let encounters = content.location_spec(location).encounters@;
    let weights = encounter_weights(content, encounters, bait, environment);
    let total = saturated_total(weights);
    let fallback = encounters[0].species_id;
    if total == 0 {
        fallback
    } else {
        match pick_encounter(encounters, weights, rejection_sample(seed ^ SPECIES_SEED, total).0 as int, 0) {
            Some(id) => id,
            None => fallback,
        }
    }
}

/// A roll below the weight still ahead of position `i` lands on an encounter of positive weight.
proof fn lemma_pick_lands(encounters: Seq<EncounterWeight>, weights: Seq<u64>, roll: int, i: int)
    requires
        encounters.len() == weights.len(),
        0 <= i <= encounters.len(),
        0 <= roll < prefix_sum(weights, weights.len() as int) - prefix_sum(weights, i),
    ensures
        exists|k: int|
            i <= k < encounters.len() && weights[k] > 0 && pick_encounter(encounters, weights, roll, i)
                == Some(#[trigger] encounters[k].species_id),
    decreases encounters.len() - i,
{
    if i == encounters.len() {
    } else if roll < weights[i] {
        assert(pick_encounter(encounters, weights, roll, i) == Some(encounters[i].species_id));
    } else {
        assert(prefix_sum(weights, i + 1) == prefix_sum(weights, i) + weights[i]);
        lemma_pick_lands(encounters, weights, roll - weights[i], i + 1);
    }
}

/// Whatever the walk returns is one of the encounters.
proof fn lemma_pick_member(encounters: Seq<EncounterWeight>, weights: Seq<u64>, roll: int, i: int)
    requires
        0 <= i,
    ensures
        pick_encounter(encounters, weights, roll, i) matches Some(id) ==> exists|k: int|
            0 <= k < encounters.len() && #[trigger] encounters[k].species_id == id,
    decreases encounters.len() - i,
{
    if i < encounters.len() && roll >= weights[i] {
        lemma_pick_member(encounters, weights, roll - weights[i], i + 1);
    }
}

/// Rolls one of the location's encounters, weighted by bait preference and current conditions.
pub fn select_species(
    content: &Content,
    location: LocationId,
    bait: BaitId,
    environment: Environment,
    seed: u64,
) -> (species: SpeciesId)
    requires
        content.is_valid(),
        has_key(content.locations@, location.0 as int),
        content.location_spec(location).fishable,
    ensures
        species == select_species_spec(*content, location, bait, environment, seed),
        exists|k: int|
            0 <= k < content.location_spec(location).encounters@.len()
                && #[trigger] content.location_spec(location).encounters@[k].species_id == species,
        ({
            let encounters = content.location_spec(location).encounters@;
            let weights = encounter_weights(*content, encounters, bait, environment);
            0 < prefix_sum(weights, weights.len() as int) <= u64::MAX ==> exists|k: int|
                0 <= k < encounters.len() && weights[k] > 0 && #[trigger] encounters[k].species_id
                    == species
        }),
{
    let place = content.location(location);
    let ghost idx = choose|i: int|
        0 <= i < content.locations@.len() && content.locations@[i].id == location;
    assert(content.locations@[idx].is_valid_in(content.species@));
    let ghost encounters = place.encounters@;
    let ghost weights = encounter_weights(*content, encounters, bait, environment);
    let n = place.encounters.len();
    let mut computed: Vec<u64> = Vec::new();
    let mut total: u64 = 0;
    let mut i: usize = 0;
    while i < n
        invariant
            n == encounters.len(),
            encounters == place.encounters@,
            place.is_valid_in(content.species@),
            content.is_valid(),
            weights == encounter_weights(*content, encounters, bait, environment),
            i <= n,
            computed@ == weights.take(i as int),
            total == (if prefix_sum(weights, i as int) > u64::MAX {
                u64::MAX as int
            } else {
                prefix_sum(weights, i as int)
            }),
        decreases n - i,
    {
        let encounter = place.encounters[i];
        assert(encounters[i as int] == encounter);
        assert(place.encounters@[i as int].weight > 0);
        let weight = encounter_weight(content, encounter, bait, environment);
        computed.push(weight);
        total = total.saturating_add(weight);
        assert(computed@ == weights.take(i + 1));
        i = i + 1;
    }
    assert(computed@ == weights);
    let fallback = place.encounters[0].species_id;
    assert(encounters[0].species_id == fallback);
    if total == 0 {
        return fallback;
    }
    let mut rng = Rng::new(seed ^ SPECIES_SEED);
    let mut roll = rng.below(total);
    let ghost first_roll = roll;
    assert(total == saturated_total(weights));
    assert(first_roll == rejection_sample(seed ^ SPECIES_SEED, total).0);
    assert(*place == content.location_spec(location));
    proof {
        lemma_pick_member(encounters, weights, roll as int, 0);
        if 0 < prefix_sum(weights, weights.len() as int) <= u64::MAX {
            lemma_pick_lands(encounters, weights, roll as int, 0);
        }
    }
    let mut i: usize = 0;
    while i < n
        invariant
            n == encounters.len(),
            encounters == place.encounters@,
            computed@ == weights,
            weights.len() == n,
            *place == content.location_spec(location),
            exists|k: int| 0 <= k < encounters.len() && #[trigger] encounters[k].species_id == fallback,
            total == saturated_total(weights),
            weights == encounter_weights(*content, encounters, bait, environment),
            total != 0,
            first_roll == rejection_sample(seed ^ SPECIES_SEED, total).0,
            pick_encounter(encounters, weights, first_roll as int, 0) matches Some(id) ==> exists|k: int|
                0 <= k < encounters.len() && #[trigger] encounters[k].species_id == id,
            0 < prefix_sum(weights, weights.len() as int) <= u64::MAX ==> exists|k: int|
                0 <= k < encounters.len() && weights[k] > 0 && pick_encounter(encounters, weights, first_roll as int, 0)
                    == Some(#[trigger] encounters[k].species_id),
            i <= n,
            pick_encounter(encounters, weights, roll as int, i as int) == pick_encounter(
                encounters,
                weights,
                first_roll as int,
                0,
            ),
        decreases n - i,
    {
        let weight = computed[i];
        if roll < weight {
            assert(pick_encounter(encounters, weights, roll as int, i as int) == Some(encounters[i as int].species_id));
            return place.encounters[i].species_id;
        }
        roll = roll - weight;
        i = i + 1;
    }
    fallback
}

/// The delay before a bite: a uniform roll in the species window, shortened by bait power.
pub open spec fn bite_delay_spec(species: Species, bait_power: u32, seed: u64) -> u64 {
    let base = range_sample(seed ^ BITE_SEED, species.bite_min_ms, species.bite_max_ms).0;
    let reduction = bite_reduction_bp(bait_power);
    let scaled = base as int * (10_000 - reduction);
    let saturated = if scaled > u64::MAX {
        u64::MAX as int
    } else {
        scaled
    };
    (saturated / 10_000) as u64
}

/// Basis points of the bite delay that bait power removes, capped at 35%.
pub open spec fn bite_reduction_bp(bait_power: u32) -> int {
    let raw = bait_power as int * 80;
    if raw > 3_500 {
        3_500
    } else {
        raw
    }
}

pub fn bite_delay_ms(species: &Species, bait_power: u32, seed: u64) -> (delay: u64)
    requires
        species.bite_min_ms <= species.bite_max_ms,
    ensures
        delay == bite_delay_spec(*species, bait_power, seed),
        delay <= species.bite_max_ms,
{
    let mut rng = Rng::new(seed ^ BITE_SEED);
    let base = rng.range_inclusive(species.bite_min_ms, species.bite_max_ms);
    let reduction_bp: u32 = match bait_power.checked_mul(80) {
        Some(raw) => if raw > 3_500 {
            3_500
        } else {
            raw
        },
        None => 3_500,
    };
    let factor = (10_000 - reduction_bp) as u64;
    let scaled = match base.checked_mul(factor) {
        Some(v) => v,
        None => u64::MAX,
    };
    let delay = scaled / 10_000;
    assert(delay <= base) by (nonlinear_arith)
        requires
            scaled <= base * factor,
            factor <= 10_000,
            delay == scaled / 10_000,
    ;
    delay
}

/// More bait power never lengthens the wait for a bite on the same seed.
pub proof fn lemma_bait_power_shortens_wait(species: Species, weak: u32, strong: u32, seed: u64)
    requires
        weak <= strong,
    ensures
        bite_delay_spec(species, strong, seed) <= bite_delay_spec(species, weak, seed),
{
    let base = range_sample(seed ^ BITE_SEED, species.bite_min_ms, species.bite_max_ms).0;
    let rw = bite_reduction_bp(weak);
    let rs = bite_reduction_bp(strong);
    assert(rs >= rw) by (nonlinear_arith)
        requires
            weak <= strong,
            rw == (if weak as int * 80 > 3_500 { 3_500 } else { weak as int * 80 }),
            rs == (if strong as int * 80 > 3_500 { 3_500 } else { strong as int * 80 }),
    ;
    let sw = base as int * (10_000 - rw);
    let ss = base as int * (10_000 - rs);
    assert(ss <= sw) by (nonlinear_arith)
        requires
            rs >= rw,
            base >= 0,
            sw == base as int * (10_000 - rw),
            ss == base as int * (10_000 - rs),
    ;
    let cw = if sw > u64::MAX { u64::MAX as int } else { sw };
    let cs = if ss > u64::MAX { u64::MAX as int } else { ss };
    assert(cs / 10_000 <= cw / 10_000) by (nonlinear_arith)
        requires
            cs <= cw,
            0 <= cs,
    ;
}

/// Bait power shortens the wait in proportion: with no power the wait is the roll itself, drawn
/// from the species' bite window; each point of power takes 0.8% off it, 35% at most, rounding
/// down, so any power at all makes a wait of a millisecond or more strictly shorter.
pub proof fn lemma_bait_power_scales_wait(species: Species, bait_power: u32, seed: u64)
    requires
        species.bite_min_ms <= species.bite_max_ms,
        species.bite_max_ms * 10_000 <= u64::MAX,
    ensures
        bite_delay_spec(species, 0, seed) == range_sample(
            seed ^ BITE_SEED,
            species.bite_min_ms,
            species.bite_max_ms,
        ).0,
        species.bite_min_ms <= bite_delay_spec(species, 0, seed) <= species.bite_max_ms,
        ({
            let plain = bite_delay_spec(species, 0, seed) as int;
            let d = bite_delay_spec(species, bait_power, seed) as int;
            let cut = if 80 * bait_power > 3_500 {
                3_500
            } else {
                80 * bait_power
            };
            &&& 10_000 * d <= plain * (10_000 - cut)
            &&& plain * (10_000 - cut) < 10_000 * (d + 1)
        }),
        bait_power >= 1 && bite_delay_spec(species, 0, seed) >= 1 ==> bite_delay_spec(
            species,
            bait_power,
            seed,
        ) < bite_delay_spec(species, 0, seed),
{
    let base = range_sample(seed ^ BITE_SEED, species.bite_min_ms, species.bite_max_ms).0;
    lemma_range_sample_bounds(seed ^ BITE_SEED, species.bite_min_ms, species.bite_max_ms);
    assert(bite_reduction_bp(0) == 0);
    let plain_scaled = base as int * 10_000;
    assert(plain_scaled <= u64::MAX) by (nonlinear_arith)
        requires
            base <= species.bite_max_ms,
            species.bite_max_ms * 10_000 <= u64::MAX,
            plain_scaled == base as int * 10_000,
    ;
    assert(plain_scaled / 10_000 == base as int) by (nonlinear_arith)
        requires
            plain_scaled == base as int * 10_000,
    ;
    assert(bite_delay_spec(species, 0, seed) == base);
    let cut = bite_reduction_bp(bait_power);
    assert(0 <= cut <= 3_500);
    let scaled = base as int * (10_000 - cut);
    assert(0 <= scaled <= u64::MAX) by (nonlinear_arith)
        requires
            base as int * 10_000 <= u64::MAX,
            0 <= cut <= 3_500,
            scaled == base as int * (10_000 - cut),
    ;
    let d = scaled / 10_000;
    assert(bite_delay_spec(species, bait_power, seed) as int == d);
    assert(10_000 * d <= scaled < 10_000 * (d + 1)) by (nonlinear_arith)
        requires
            scaled >= 0,
            d == scaled / 10_000,
    ;
    if bait_power >= 1 && base >= 1 {
        assert(cut >= 80);
        assert(scaled < base as int * 10_000) by (nonlinear_arith)
            requires
                base >= 1,
                cut >= 80,
                scaled == base as int * (10_000 - cut),
        ;
        assert(d < base as int) by (nonlinear_arith)
            requires
                10_000 * d <= scaled,
                scaled < base as int * 10_000,
        ;
    }
}

pub open spec fn effective_control_spec(base_control: u32, condition: u32) -> u32 {
    let clamped = if condition < 1 {
        1
    } else if condition > 100 {
        100
    } else {
        condition as int
    };
    let product = base_control as int * (75 + clamped / 4);
    let saturated = if product > u32::MAX {
        u32::MAX as int
    } else {
        product
    };
    (saturated / 100) as u32
}

/// Rod wear scales control between three quarters and all of the base control.
pub fn effective_control(base_control: u32, condition: u32) -> (control: u32)
    ensures
        control == effective_control_spec(base_control, condition),
        control <= base_control,
{
    let clamped = if condition < 1 {
        1
    } else if condition > 100 {
        100
    } else {
        condition
    };
    let factor = 75 + clamped / 4;
    let product = match base_control.checked_mul(factor) {
        Some(v) => v,
        None => u32::MAX,
    };
    let control = product / 100;
    assert(control <= base_control) by (nonlinear_arith)
        requires
            product <= base_control * factor,
            factor <= 100,
            control == product / 100,
    ;
    control
}

/// A rod in perfect condition keeps all of its control; a worn one keeps at least 75%.
pub proof fn lemma_worn_rods_keep_most_control(base_control: u32, condition: u32)
    requires
        base_control as int * 100 <= u32::MAX,
    ensures
        effective_control_spec(base_control, 100) == base_control,
        effective_control_spec(base_control, condition) >= base_control as int * 75 / 100,
        forall|better: u32|
            condition <= better ==> #[trigger] effective_control_spec(base_control, better)
                >= effective_control_spec(base_control, condition),
{
    assert(base_control as int * 100 / 100 == base_control);
    let c = if condition < 1 {
        1
    } else if condition > 100 {
        100
    } else {
        condition as int
    };
    assert(base_control as int * (75 + c / 4) / 100 >= base_control as int * 75 / 100) by (nonlinear_arith)
        requires
            1 <= c <= 100,
            base_control >= 0,
    ;
    assert(base_control as int * (75 + c / 4) <= u32::MAX) by (nonlinear_arith)
        requires
            1 <= c <= 100,
            base_control as int * 100 <= u32::MAX,
            base_control >= 0,
    ;
    assert forall|better: u32| condition <= better implies #[trigger] effective_control_spec(
        base_control,
        better,
    ) >= effective_control_spec(base_control, condition) by {
        let b = if better < 1 {
            1
        } else if better > 100 {
            100
        } else {
            better as int
        };
        assert(c <= b);
        assert(base_control as int * (75 + b / 4) <= u32::MAX) by (nonlinear_arith)
            requires
                1 <= b <= 100,
                base_control as int * 100 <= u32::MAX,
                base_control >= 0,
        ;
        assert(base_control as int * (75 + c / 4) / 100 <= base_control as int * (75 + b / 4) / 100)
            by (nonlinear_arith)
            requires
                1 <= c <= b <= 100,
                base_control >= 0,
        ;
    }
}

pub open spec fn reaction_spec(species: Species, elapsed_ms: u64) -> Reaction {
    if elapsed_ms <= species.reaction_ms[0] {
        Reaction::Excellent
    } else if elapsed_ms <= species.reaction_ms[1] {
        Reaction::Good
    } else if elapsed_ms <= species.reaction_ms[2] {
        Reaction::Late
    } else {
        Reaction::Missed
    }
}

/// Grades the player's reaction time against the species' three windows.
pub fn reaction(species: &Species, elapsed_ms: u64) -> (r: Reaction)
    ensures
        r == reaction_spec(*species, elapsed_ms),
{
    let excellent = species.reaction_ms[0];
    let good = species.reaction_ms[1];
    let late = species.reaction_ms[2];
    if elapsed_ms <= excellent {
        Reaction::Excellent
    } else if elapsed_ms <= good {
        Reaction::Good
    } else if elapsed_ms <= late {
        Reaction::Late
    } else {
        Reaction::Missed
    }
}

/// Saturating `u32` multiplication, as a mathematical integer.
pub open spec fn saturating_mul_u32(a: u32, b: int) -> int {
    if a as int * b > u32::MAX {
        u32::MAX as int
    } else {
        a as int * b
    }
}

fn saturating_mul_u32_exec(a: u32, b: u32) -> (r: u32)
    ensures
        r == saturating_mul_u32(a, b as int),
{
    match a.checked_mul(b) {
        Some(v) => v,
        None => u32::MAX,
    }
}

pub open spec fn landing_timing(reaction: Reaction) -> int {
    match reaction {
        Reaction::Excellent => 130,
        Reaction::Good => 110,
        Reaction::Late => 80,
        Reaction::Missed => 0,
    }
}

pub open spec fn can_land_spec(species: Species, rod_control: u32, reaction: Reaction, first_catch: bool) -> bool {
    reaction != Reaction::Missed && (first_catch || saturating_mul_u32(
        rod_control,
        landing_timing(reaction),
    ) >= saturating_mul_u32(species.difficulty, 100))
}

/// Whether the hooked fish can be landed; a missed reaction never lands, a first catch always does.
pub fn can_land(species: &Species, rod_control: u32, reaction: Reaction, first_catch: bool) -> (ok: bool)
    ensures
        ok == can_land_spec(*species, rod_control, reaction, first_catch),
{
    let timing: u32 = match reaction {
        Reaction::Excellent => 130,
        Reaction::Good => 110,
        Reaction::Late => 80,
        Reaction::Missed => return false,
    };
    first_catch || saturating_mul_u32_exec(rod_control, timing) >= saturating_mul_u32_exec(
        species.difficulty,
        100,
    )
}

/// `x.rotate_left(11)` for 64-bit values.
pub open spec fn rotate_left_11(x: u64) -> u64 {
    (x << 11u64) | (x >> 53u64)
}

pub open spec fn required_struggle_action_spec(seed: u64) -> StruggleAction {
    if rotate_left_11(seed) & 1 == 0 {
        StruggleAction::Pull
    } else {
        StruggleAction::GiveLine
    }
}

/// The move a struggling fish demands, fixed by the encounter seed.
pub fn required_struggle_action(seed: u64) -> (action: StruggleAction)
    ensures
        action == required_struggle_action_spec(seed),
{
    let rotated = (seed << 11u64) | (seed >> 53u64);
    if rotated & 1 == 0 {
        StruggleAction::Pull
    } else {
        StruggleAction::GiveLine
    }
}

pub fn struggle_observation(action: StruggleAction) -> (text: &'static str)
    ensures
        text@ == match action {
            StruggleAction::Pull => "The fish turns sharply toward jagged rocks. If it reaches them, the line will not survive."@,
            StruggleAction::GiveLine => "The fish dives straight down. The line starts to sing under the sudden load."@,
        },
{
    match action {
        StruggleAction::Pull => "The fish turns sharply toward jagged rocks. If it reaches them, the line will not survive.",
        StruggleAction::GiveLine => "The fish dives straight down. The line starts to sing under the sudden load.",
    }
}

pub open spec fn struggle_timing(reaction: Reaction) -> int {
    match reaction {
        Reaction::Excellent => 140,
        Reaction::Good => 115,
        Reaction::Late => 80,
        Reaction::Missed => 0,
    }
}

pub open spec fn struggle_succeeds_spec(
    species: Species,
    rod_control: u32,
    reaction: Reaction,
    chosen: StruggleAction,
    required: StruggleAction,
) -> bool {
    if reaction == Reaction::Missed {
        false
    } else if chosen == required {
        true
    } else {
        saturating_mul_u32(rod_control, struggle_timing(reaction)) >= saturating_mul_u32(
            species.difficulty,
            150,
        )
    }
}

/// The right move always holds the fish unless the reaction was missed; the wrong one needs
/// enough rod control to overpower it.
pub fn struggle_succeeds(
    species: &Species,
    rod_control: u32,
    reaction: Reaction,
    chosen: StruggleAction,
    required: StruggleAction,
) -> (ok: bool)
    ensures
        ok == struggle_succeeds_spec(*species, rod_control, reaction, chosen, required),
{
    if chosen == required {
        return reaction != Reaction::Missed;
    }
    let timing: u32 = match reaction {
        Reaction::Excellent => 140,
        Reaction::Good => 115,
        Reaction::Late => 80,
        Reaction::Missed => return false,
    };
    saturating_mul_u32_exec(rod_control, timing) >= saturating_mul_u32_exec(species.difficulty, 150)
}

/// Clamps a mathematical integer at `u64::MAX`, as the saturating operations do.
pub open spec fn saturate_u64(x: int) -> int {
    if x > u64::MAX {
        u64::MAX as int
    } else {
        x
    }
}

fn saturating_mul_u64(a: u64, b: u64) -> (r: u64)
    ensures
        r == saturate_u64(a as int * b as int),
{
    match a.checked_mul(b) {
        Some(v) => v,
        None => u64::MAX,
    }
}

fn saturating_cube(x: u64) -> (r: u64)
    ensures
        r == saturate_u64(x as int * x as int * x as int),
{
    let square = saturating_mul_u64(x, x);
    let cube = saturating_mul_u64(square, x);
    proof {
        if x as int * x as int > u64::MAX && x > 0 {
            assert(x as int * x as int * x as int >= x as int * x as int) by (nonlinear_arith)
                requires
                    x > 0,
            ;
            assert(u64::MAX as int * x as int >= u64::MAX) by (nonlinear_arith)
                requires
                    x > 0,
            ;
        }
    }
    cube
}

/// Length offset of a specimen: three averaged uniform draws scaled into the species' range.
pub open spec fn specimen_offset(range: u32, a: u32, b: u32, c: u32) -> int {
    let sample = (a as int + b as int + c as int) / 3;
    range as int * sample / (u32::MAX as int)
}

pub open spec fn specimen_length(species: Species, seed: u64) -> int {
    let s0 = seed ^ SPECIMEN_SEED;
    let a = output(s0) as u32;
    let b = output(advance(s0)) as u32;
    let c = output(advance(advance(s0))) as u32;
    species.min_length_mm + specimen_offset(
        (species.max_length_mm - species.min_length_mm) as u32,
        a,
        b,
        c,
    )
}

pub open spec fn specimen_weight(species: Species, length: int, condition_bp: u64) -> int {
    let typical_cube = saturate_u64(
        species.typical_length_mm as int * species.typical_length_mm as int
            * species.typical_length_mm as int,
    );
    let ratio_bp = saturate_u64(saturate_u64(length * length * length) * 10_000) / (
    if typical_cube < 1 {
        1
    } else {
        typical_cube
    });
    let raw = saturate_u64(saturate_u64(species.typical_weight_g as int * ratio_bp) * condition_bp)
        / 100_000_000;
    if raw < 1 {
        1
    } else if raw > u32::MAX {
        u32::MAX as int
    } else {
        raw
    }
}

/// A specimen's length stays inside the species' range.
proof fn lemma_specimen_length_in_range(species: Species, seed: u64)
    requires
        species.min_length_mm <= species.max_length_mm,
    ensures
        species.min_length_mm <= specimen_length(species, seed) <= species.max_length_mm,
{
    let s0 = seed ^ SPECIMEN_SEED;
    let a = output(s0) as u32;
    let b = output(advance(s0)) as u32;
    let c = output(advance(advance(s0))) as u32;
    let range = (species.max_length_mm - species.min_length_mm) as u32;
    let sample = (a as int + b as int + c as int) / 3;
    assert(0 <= sample <= u32::MAX);
    let offset = specimen_offset(range, a, b, c);
    assert(0 <= offset <= range) by (nonlinear_arith)
        requires
            0 <= sample <= u32::MAX,
            offset == range as int * sample / (u32::MAX as int),
            range >= 0,
    ;
}

/// Upper bound of the mass formula: at most the best condition (110%) of the typical weight
/// scaled by the cube of the length ratio, or the 1 g floor.
proof fn lemma_specimen_weight_at_most(species: Species, length: int, condition_bp: u64)
    requires
        0 <= length,
        condition_bp <= 11_000,
        species.typical_length_mm >= 1,
        species.typical_length_mm as int * species.typical_length_mm as int
            * species.typical_length_mm as int <= u64::MAX,
    ensures
        ({
            let t = species.typical_length_mm as int;
            let w = specimen_weight(species, length, condition_bp);
            w == 1 || 10 * w * (t * t * t) <= 11 * species.typical_weight_g * (length * length
                * length)
        }),
{
    let t = species.typical_length_mm as int;
    let t3 = t * t * t;
    let l3 = length * length * length;
    let big_w = species.typical_weight_g as int;
    let c = condition_bp as int;
    assert(t3 >= 1) by (nonlinear_arith)
        requires
            t >= 1,
            t3 == t * t * t,
    ;
    assert(l3 >= 0) by (nonlinear_arith)
        requires
            length >= 0,
            l3 == length * length * length,
    ;
    let x = saturate_u64(saturate_u64(l3) * 10_000);
    assert(0 <= x <= l3 * 10_000);
    let ratio = x / t3;
    assert(0 <= ratio && ratio * t3 <= x) by (nonlinear_arith)
        requires
            t3 >= 1,
            x >= 0,
            ratio == x / t3,
    ;
    let y = saturate_u64(big_w * ratio);
    assert(0 <= y <= big_w * ratio) by (nonlinear_arith)
        requires
            big_w >= 0,
            ratio >= 0,
            y == saturate_u64(big_w * ratio),
    ;
    let z = saturate_u64(y * c);
    assert(0 <= z <= y * c) by (nonlinear_arith)
        requires
            y >= 0,
            c >= 0,
            z == saturate_u64(y * c),
    ;
    let raw = z / 100_000_000;
    assert(raw * 100_000_000 <= z) by (nonlinear_arith)
        requires
            z >= 0,
            raw == z / 100_000_000,
    ;
    assert(raw * 100_000_000 * t3 <= big_w * 11_000 * (l3 * 10_000)) by (nonlinear_arith)
        requires
            raw * 100_000_000 <= z,
            z <= y * c,
            y <= big_w * ratio,
            0 <= y,
            0 <= c <= 11_000,
            big_w >= 0,
            0 <= ratio,
            ratio * t3 <= x,
            x <= l3 * 10_000,
            t3 >= 1,
    ;
    assert(10 * raw * t3 <= 11 * big_w * l3) by (nonlinear_arith)
        requires
            raw * 100_000_000 * t3 <= big_w * 11_000 * (l3 * 10_000),
    ;
    let w = specimen_weight(species, length, condition_bp);
    assert(w == 1 || (1 <= w <= raw));
    assert(w == 1 || 10 * w * t3 <= 10 * raw * t3) by (nonlinear_arith)
        requires
            w == 1 || (1 <= w <= raw),
            t3 >= 1,
    ;
}

/// Lower bound of the mass formula when nothing saturates: at least the worst condition (90%)
/// of the typical weight scaled by the cube of the length ratio, less the rounding.
proof fn lemma_specimen_weight_at_least(species: Species, length: int, condition_bp: u64)
    requires
        0 <= length,
        9_000 <= condition_bp <= 11_000,
        species.typical_length_mm >= 1,
        species.typical_length_mm as int * species.typical_length_mm as int
            * species.typical_length_mm as int <= u64::MAX,
        length * length * length * 10_000 <= u64::MAX,
        species.typical_weight_g * (length * length * length) * 110_000_000 <= u64::MAX * (
        species.typical_length_mm as int * species.typical_length_mm as int
            * species.typical_length_mm as int),
        11 * species.typical_weight_g * (length * length * length) <= 10 * u32::MAX * (
        species.typical_length_mm as int * species.typical_length_mm as int
            * species.typical_length_mm as int),
    ensures
        ({
            let t = species.typical_length_mm as int;
            let t3 = t * t * t;
            let w = specimen_weight(species, length, condition_bp);
            100_000 * w * t3 > 90_000 * species.typical_weight_g * (length * length * length) - 9
                * species.typical_weight_g * t3 - 100_000 * t3
        }),
{
    let t = species.typical_length_mm as int;
    let t3 = t * t * t;
    let l3 = length * length * length;
    let big_w = species.typical_weight_g as int;
    let c = condition_bp as int;
    assert(t3 >= 1) by (nonlinear_arith)
        requires
            t >= 1,
            t3 == t * t * t,
    ;
    assert(l3 >= 0) by (nonlinear_arith)
        requires
            length >= 0,
            l3 == length * length * length,
    ;
    let x = saturate_u64(saturate_u64(l3) * 10_000);
    assert(x == l3 * 10_000);
    let ratio = x / t3;
    assert(0 <= ratio && ratio * t3 <= x && x < (ratio + 1) * t3) by (nonlinear_arith)
        requires
            t3 >= 1,
            x >= 0,
            ratio == x / t3,
    ;
    assert(big_w * ratio * 11_000 <= u64::MAX) by (nonlinear_arith)
        requires
            big_w >= 0,
            ratio >= 0,
            t3 >= 1,
            ratio * t3 <= l3 * 10_000,
            big_w * l3 * 110_000_000 <= u64::MAX * t3,
    ;
    assert(big_w * ratio <= big_w * ratio * c) by (nonlinear_arith)
        requires
            big_w >= 0,
            ratio >= 0,
            c >= 1,
    ;
    assert(big_w * ratio * c <= big_w * ratio * 11_000) by (nonlinear_arith)
        requires
            big_w >= 0,
            ratio >= 0,
            c <= 11_000,
    ;
    let y = saturate_u64(big_w * ratio);
    assert(y == big_w * ratio);
    let z = saturate_u64(y * c);
    assert(z == big_w * ratio * c);
    let raw = z / 100_000_000;
    assert(raw * 100_000_000 <= z < (raw + 1) * 100_000_000) by (nonlinear_arith)
        requires
            z >= 0,
            raw == z / 100_000_000,
    ;
    assert((raw + 1) * 100_000_000 * t3 > big_w * 9_000 * (l3 * 10_000 - t3)) by (nonlinear_arith)
        requires
            z < (raw + 1) * 100_000_000,
            z == big_w * ratio * c,
            big_w >= 0,
            c >= 9_000,
            ratio >= 0,
            x < (ratio + 1) * t3,
            x == l3 * 10_000,
            t3 >= 1,
    ;
    assert(raw * 100_000_000 * t3 <= big_w * 11_000 * (l3 * 10_000)) by (nonlinear_arith)
        requires
            raw * 100_000_000 <= z,
            z == big_w * ratio * c,
            big_w >= 0,
            c <= 11_000,
            ratio >= 0,
            ratio * t3 <= x,
            x == l3 * 10_000,
            t3 >= 1,
    ;
    assert(raw <= u32::MAX) by (nonlinear_arith)
        requires
            raw * 100_000_000 * t3 <= big_w * 11_000 * (l3 * 10_000),
            11 * big_w * l3 <= 10 * u32::MAX * t3,
            t3 >= 1,
    ;
    let w = specimen_weight(species, length, condition_bp);
    assert(w >= raw);
    assert(100_000 * w * t3 > 90_000 * big_w * l3 - 9 * big_w * t3 - 100_000 * t3) by (nonlinear_arith)
        requires
            (raw + 1) * 100_000_000 * t3 > big_w * 9_000 * (l3 * 10_000 - t3),
            w >= raw,
            t3 >= 1,
    ;
}

pub open spec fn generate_specimen_spec(species: Species, seed: u64) -> Specimen {
    let s0 = seed ^ SPECIMEN_SEED;
    let length = specimen_length(species, seed);
    let condition_bp = range_sample(advance(advance(advance(s0))), 9_000, 11_000).0;
    Specimen {
        length_mm: length as u32,
        weight_g: specimen_weight(species, length, condition_bp) as u32,
    }
}

/// Generates the specimen a seed yields: lengths cluster around the middle of the species'
/// range and mass scales with the cube of length and a small per-specimen condition.
pub fn generate_specimen(species: &Species, seed: u64) -> (specimen: Specimen)
    requires
        species.min_length_mm <= species.max_length_mm,
    ensures
        specimen == generate_specimen_spec(*species, seed),
        species.min_length_mm <= specimen.length_mm <= species.max_length_mm,
        specimen.weight_g >= 1,
{
    let mut rng = Rng::new(seed ^ SPECIMEN_SEED);
    let range = species.max_length_mm - species.min_length_mm;
    let a = rng.next_u32();
    let b = rng.next_u32();
    let c = rng.next_u32();
    let sample = (a as u64 + b as u64 + c as u64) / 3;
    assert(sample <= u32::MAX);
    assert(range as u64 * sample <= u64::MAX) by (nonlinear_arith)
        requires
            range <= u32::MAX,
            sample <= u32::MAX,
    ;
    let offset_wide = range as u64 * sample / (u32::MAX as u64);
    assert(offset_wide <= range) by (nonlinear_arith)
        requires
            sample <= u32::MAX,
            offset_wide == (range as int * sample as int) / (u32::MAX as int),
            range >= 0,
    ;
    let offset = offset_wide as u32;
    let length_mm = species.min_length_mm + offset;
    let length = length_mm as u64;
    let typical = species.typical_length_mm as u64;
    let typical_cube = saturating_cube(typical);
    let divisor = if typical_cube < 1 {
        1
    } else {
        typical_cube
    };
    let cubic_ratio_bp = saturating_mul_u64(saturating_cube(length), 10_000) / divisor;
    let condition_bp = rng.range_inclusive(9_000, 11_000);
    let weight = saturating_mul_u64(
        saturating_mul_u64(species.typical_weight_g as u64, cubic_ratio_bp),
        condition_bp,
    ) / 100_000_000;
    let clamped = if weight < 1 {
        1
    } else if weight > u32::MAX as u64 {
        u32::MAX as u64
    } else {
        weight
    };
    Specimen { length_mm, weight_g: clamped as u32 }
}

pub open spec fn sale_value_spec(species: Species, specimen: Specimen) -> u64 {
    let typical = if species.typical_weight_g < 1 {
        1
    } else {
        species.typical_weight_g as int
    };
    let raw_ratio = specimen.weight_g as int * 10_000 / typical;
    let ratio = if raw_ratio < 5_000 {
        5_000
    } else if raw_ratio > 40_000 {
        40_000
    } else {
        raw_ratio
    };
    let value = species.base_value as int * (5_000 + ratio) / 15_000;
    if value < 1 {
        1
    } else {
        value as u64
    }
}

/// Fish mass scales with volume: a specimen weighs at most 110% (the best condition) of the
/// species' typical weight times the cube of its length over the typical length, or 1 g; and,
/// where the species' sizes keep the arithmetic in range, at least 90% (the worst condition) of
/// it, less rounding. A specimen half the typical length so weighs at most 1.1/8 of the
/// typical weight.
#[verifier::rlimit(40)]
pub proof fn lemma_specimen_mass_follows_volume(species: Species, seed: u64)
    requires
        species.min_length_mm <= species.max_length_mm,
        species.typical_length_mm >= 1,
        species.typical_length_mm as int * species.typical_length_mm as int
            * species.typical_length_mm as int <= u64::MAX,
    ensures
        ({
            let s = generate_specimen_spec(species, seed);
            let t = species.typical_length_mm as int;
            let t3 = t * t * t;
            let l = s.length_mm as int;
            let l3 = l * l * l;
            let m = species.max_length_mm as int;
            let m3 = m * m * m;
            let big_w = species.typical_weight_g as int;
            &&& species.min_length_mm <= s.length_mm <= species.max_length_mm
            &&& s.weight_g == 1 || 10 * s.weight_g * t3 <= 11 * big_w * l3
            &&& m3 * 10_000 <= u64::MAX && big_w * m3 * 110_000_000 <= u64::MAX * t3 && 11 * big_w
                * m3 <= 10 * u32::MAX * t3 ==> 100_000 * s.weight_g * t3 > 90_000 * big_w * l3 - 9
                * big_w * t3 - 100_000 * t3
        }),
{
    lemma_specimen_length_in_range(species, seed);
    let s0 = seed ^ SPECIMEN_SEED;
    let length = specimen_length(species, seed);
    let state = advance(advance(advance(s0)));
    lemma_range_sample_bounds(state, 9_000, 11_000);
    let c = range_sample(state, 9_000, 11_000).0;
    lemma_specimen_weight_at_most(species, length, c);
    let w = specimen_weight(species, length, c);
    assert(1 <= w <= u32::MAX);
    let t = species.typical_length_mm as int;
    let t3 = t * t * t;
    let m = species.max_length_mm as int;
    let m3 = m * m * m;
    let l3 = length * length * length;
    let big_w = species.typical_weight_g as int;
    if m3 * 10_000 <= u64::MAX && big_w * m3 * 110_000_000 <= u64::MAX * t3 && 11 * big_w * m3
        <= 10 * u32::MAX * t3 {
        assert(0 <= l3 <= m3) by (nonlinear_arith)
            requires
                0 <= length <= m,
                l3 == length * length * length,
                m3 == m * m * m,
        ;
        assert(big_w * l3 <= big_w * m3) by (nonlinear_arith)
            requires
                0 <= l3 <= m3,
                big_w >= 0,
        ;
        assert(l3 * 10_000 <= u64::MAX);
        assert(big_w * l3 * 110_000_000 <= u64::MAX * t3) by (nonlinear_arith)
            requires
                big_w * l3 <= big_w * m3,
                big_w * m3 * 110_000_000 <= u64::MAX * t3,
        ;
        assert(11 * big_w * l3 <= 10 * u32::MAX * t3) by (nonlinear_arith)
            requires
                big_w * l3 <= big_w * m3,
                11 * big_w * m3 <= 10 * u32::MAX * t3,
        ;
        lemma_specimen_weight_at_least(species, length, c);
    }
}

/// Coins a stored specimen fetches: base value scaled by weight relative to the typical weight.
pub fn sale_value(species: &Species, specimen: Specimen) -> (value: u64)
    ensures
        value == sale_value_spec(*species, specimen),
        value >= 1,
{
    let typical: u64 = if species.typical_weight_g < 1 {
        1
    } else {
        species.typical_weight_g as u64
    };
    let weight = specimen.weight_g as u64;
    let raw_ratio = weight * 10_000 / typical;
    let ratio = if raw_ratio < 5_000 {
        5_000
    } else if raw_ratio > 40_000 {
        40_000
    } else {
        raw_ratio
    };
    assert(species.base_value as u64 * (5_000 + ratio) <= u64::MAX) by (nonlinear_arith)
        requires
            species.base_value <= u32::MAX,
            ratio <= 40_000,
    ;
    let value = species.base_value as u64 * (5_000 + ratio) / 15_000;
    if value < 1 {
        1
    } else {
        value
    }
}

/// Heavier specimens of a species never sell for less.
pub proof fn lemma_heavier_sells_for_more(species: Species, lighter: Specimen, heavier: Specimen)
    requires
        lighter.weight_g <= heavier.weight_g,
    ensures
        sale_value_spec(species, lighter) <= sale_value_spec(species, heavier),
{
    let typical = if species.typical_weight_g < 1 {
        1
    } else {
        species.typical_weight_g as int
    };
    let rl = lighter.weight_g as int * 10_000 / typical;
    let rh = heavier.weight_g as int * 10_000 / typical;
    assert(rl <= rh) by (nonlinear_arith)
        requires
            lighter.weight_g <= heavier.weight_g,
            typical >= 1,
            rl == lighter.weight_g as int * 10_000 / typical,
            rh == heavier.weight_g as int * 10_000 / typical,
    ;
    let cl = if rl < 5_000 { 5_000 } else if rl > 40_000 { 40_000 } else { rl };
    let ch = if rh < 5_000 { 5_000 } else if rh > 40_000 { 40_000 } else { rh };
    let vl = species.base_value as int * (5_000 + cl) / 15_000;
    let vh = species.base_value as int * (5_000 + ch) / 15_000;
    assert(vl <= vh) by (nonlinear_arith)
        requires
            cl <= ch,
            species.base_value >= 0,
            vl == species.base_value as int * (5_000 + cl) / 15_000,
            vh == species.base_value as int * (5_000 + ch) / 15_000,
    ;
    assert(vh <= u64::MAX) by (nonlinear_arith)
        requires
            ch <= 40_000,
            species.base_value <= u32::MAX,
            species.base_value >= 0,
            vh == species.base_value as int * (5_000 + ch) / 15_000,
    ;
    assert(vl >= 0) by (nonlinear_arith)
        requires
            cl >= 0,
            species.base_value >= 0,
            vl == species.base_value as int * (5_000 + cl) / 15_000,
    ;
}

/// Weight sets the price, relative to the species' typical weight: a specimen of exactly typical
/// weight fetches the base value; half the typical weight or less fetches two thirds of it, four
/// times or more fetches three times it (rounding down, never under one coin); in between, a
/// heavier specimen whose weight ratio is higher by `d` basis points fetches at least
/// `base_value * d / 15_000` coins more, less one for rounding (for a base value of two or more).
pub proof fn lemma_weight_sets_price(species: Species, lighter: Specimen, heavier: Specimen)
    requires
        species.typical_weight_g >= 1,
    ensures
        lighter.weight_g == species.typical_weight_g && species.base_value >= 1 ==> sale_value_spec(
            species,
            lighter,
        ) == species.base_value,
        2 * lighter.weight_g <= species.typical_weight_g ==> sale_value_spec(species, lighter) == if 2
            * species.base_value / 3 < 1 {
            1
        } else {
            2 * species.base_value / 3
        },
        lighter.weight_g >= 4 * species.typical_weight_g && species.base_value >= 1
            ==> sale_value_spec(species, lighter) == 3 * species.base_value,
        ({
            let t = species.typical_weight_g as int;
            let rl = lighter.weight_g as int * 10_000 / t;
            let rh = heavier.weight_g as int * 10_000 / t;
            5_000 <= rl <= rh <= 40_000 && species.base_value >= 2 ==> 15_000 * (sale_value_spec(species, heavier)
                - sale_value_spec(species, lighter) + 1) > species.base_value * (rh - rl)
        }),
{
    let t = species.typical_weight_g as int;
    let b = species.base_value as int;
    if lighter.weight_g == species.typical_weight_g && species.base_value >= 1 {
        assert(lighter.weight_g as int * 10_000 / t == 10_000) by (nonlinear_arith)
            requires
                lighter.weight_g as int == t,
                t >= 1,
        ;
        assert(b * 15_000 / 15_000 == b) by (nonlinear_arith);
    }
    if 2 * lighter.weight_g <= species.typical_weight_g {
        assert(lighter.weight_g as int * 10_000 / t <= 5_000) by (nonlinear_arith)
            requires
                2 * lighter.weight_g <= t,
                t >= 1,
        ;
        assert(b * 10_000 / 15_000 == 2 * b / 3) by (nonlinear_arith)
            requires
                b >= 0,
        ;
    }
    if lighter.weight_g >= 4 * species.typical_weight_g && species.base_value >= 1 {
        assert(lighter.weight_g as int * 10_000 / t >= 40_000) by (nonlinear_arith)
            requires
                lighter.weight_g >= 4 * t,
                t >= 1,
        ;
        assert(b * 45_000 / 15_000 == 3 * b) by (nonlinear_arith);
        assert(3 * b <= u64::MAX);
    }
    let rl = lighter.weight_g as int * 10_000 / t;
    let rh = heavier.weight_g as int * 10_000 / t;
    if 5_000 <= rl <= rh <= 40_000 && b >= 2 {
        let vl = b * (5_000 + rl) / 15_000;
        let vh = b * (5_000 + rh) / 15_000;
        assert(1 <= vl <= vh <= u64::MAX) by (nonlinear_arith)
            requires
                5_000 <= rl <= rh <= 40_000,
                2 <= b <= u32::MAX,
                vl == b * (5_000 + rl) / 15_000,
                vh == b * (5_000 + rh) / 15_000,
        ;
        assert(15_000 * (vh - vl + 1) > b * (rh - rl)) by (nonlinear_arith)
            requires
                5_000 <= rl <= rh <= 40_000,
                0 <= b,
                vl == b * (5_000 + rl) / 15_000,
                vh == b * (5_000 + rh) / 15_000,
        ;
        let sl = sale_value_spec(species, lighter) as int;
        let sh = sale_value_spec(species, heavier) as int;
        assert(sl == if vl < 1 { 1 } else { vl });
        assert(sh == if vh < 1 { 1 } else { vh });
    }
}

pub fn observation(species: &Species) -> (text: &'static str)
    ensures
        text@ == (if species.difficulty <= 6 {
            "The float disappears beneath the surface."@
        } else if species.difficulty <= 10 {
            "The line snaps taut and starts moving sideways."@
        } else if species.difficulty <= 14 {
            "Something heavy takes the bait and pulls toward deeper water."@
        } else {
            "Your rod bends violently. Whatever took the bait is extremely powerful."@
        }),
{
    if species.difficulty <= 6 {
        "The float disappears beneath the surface."
    } else if species.difficulty <= 10 {
        "The line snaps taut and starts moving sideways."
    } else if species.difficulty <= 14 {
        "Something heavy takes the bait and pulls toward deeper water."
    } else {
        "Your rod bends violently. Whatever took the bait is extremely powerful."
    }
}

} // verus!
