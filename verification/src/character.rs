//! The character sheet and the conditions panel.

use vstd::prelude::*;
use crate::content::{Content, EncounterWeight};
use crate::economy::{quantity, quantity_spec, total_bait, total_bait_spec};
use crate::exploration::location_view_matches;
use crate::fishing::{eligible, eligible_spec};
use crate::ids::{BaitId, LocationId, RodId, SpeciesId};
use crate::progression::{non_negative, title_definition, title_text};
use crate::sort::has_key;
use crate::view::{CharacterView, ConditionsView, LocationView};
use crate::world::{
    Environment, environment_at, environment_spec, next_day_part_change_ms,
    next_day_part_change_spec, next_weather_change_ms, next_weather_change_spec, saturate_i64,
    saturating_add_i64, saturating_sub_i64,
};

verus! {

/// The stored row of a character.
#[derive(Debug)]
pub struct CharacterState {
    pub name: String,
    pub xp: i64,
    pub level: u32,
    pub coins: i64,
    pub location_id: LocationId,
    pub bait_id: BaitId,
    pub rod_id: RodId,
    pub title_id: u32,
}

/// The Old Harbor, where the warden stands.
pub const HARBOR_LOCATION: u32 = 1;

/// Title 0 means no title is shown.
pub open spec fn shown_title(title_id: u32) -> Option<Seq<char>> {
    if title_id == 0 || title_id >= 7 {
        None
    } else {
        Some(title_text(title_id as int).0)
    }
}

/// The character sheet.
pub fn character_view(
    content: &Content,
    state: CharacterState,
    stacks: &[(u32, u32)],
    rod_condition: u32,
    fishing_active: bool,
    has_rusted_key: bool,
    now_ms: i64,
) -> (view: CharacterView)
    requires
        content.is_indexed(),
        has_key(content.locations@, state.location_id.0 as int),
        has_key(content.baits@, state.bait_id.0 as int),
        has_key(content.rods@, state.rod_id.0 as int),
    ensures
        view.name == state.name,
        view.xp == non_negative(state.xp),
        view.level == state.level,
        view.coins == non_negative(state.coins),
        location_view_matches(view.location, content.location_spec(state.location_id)),
        view.bait_name@ == content.bait_spec(state.bait_id).name@,
        view.bait_left == quantity_spec(stacks@, state.bait_id.0),
        view.total_bait == if total_bait_spec(content.baits@, stacks@) > u32::MAX {
            u32::MAX as int
        } else {
            total_bait_spec(content.baits@, stacks@) as int
        },
        view.rod_name@ == content.rod_spec(state.rod_id).name@,
        view.rod_condition == rod_condition,
        view.environment == environment_spec(now_ms),
        view.fishing_active == fishing_active,
        view.has_rusted_key == has_rusted_key,
        view.has_npc == (state.location_id.0 == HARBOR_LOCATION),
        view.title_name is Some == shown_title(state.title_id) is Some,
        view.title_name matches Some(name) ==> name@ == shown_title(state.title_id)->0,
{
    let bait_left = quantity(stacks, state.bait_id.0);
    let total = total_bait(content, stacks);
    let location = content.location(state.location_id);
    let bait = content.bait(state.bait_id);
    let rod = content.rod(state.rod_id);
    let title_name = if state.title_id == 0 {
        None
    } else {
        match title_definition(state.title_id) {
            Some((name, _)) => Some(name),
            None => None,
        }
    };
    CharacterView {
        name: state.name,
        xp: non_negative_exec(state.xp),
        level: state.level,
        coins: non_negative_exec(state.coins),
        location: LocationView {
            name: location.name.clone(),
            description: location.description.clone(),
            fishable: location.fishable,
        },
        bait_name: bait.name.clone(),
        bait_left,
        total_bait: if total > 0xFFFF_FFFF {
            u32::MAX
        } else {
            total as u32
        },
        rod_name: rod.name.clone(),
        rod_condition,
        environment: environment_at(now_ms),
        fishing_active,
        has_rusted_key,
        has_npc: state.location_id.0 == HARBOR_LOCATION,
        title_name,
    }
}

fn non_negative_exec(x: i64) -> (r: u64)
    ensures
        r == non_negative(x),
{
    if x < 0 {
        0
    } else {
        x as u64
    }
}

/// Species `id` is among the discovered ones.
pub open spec fn discovered_species(discovered: Seq<SpeciesId>, id: SpeciesId) -> bool {
    exists|i: int| 0 <= i < discovered.len() && discovered[i] == id
}

fn is_discovered(discovered: &[SpeciesId], id: SpeciesId) -> (found: bool)
    ensures
        found == discovered_species(discovered@, id),
{
    let mut i: usize = 0;
    while i < discovered.len()
        invariant
            i <= discovered@.len(),
            forall|j: int| 0 <= j < i ==> discovered@[j] != id,
        decreases discovered@.len() - i,
    {
        if discovered[i] == id {
            return true;
        }
        i = i + 1;
    }
    false
}

/// Names of the discovered species of the first `n` encounters that bite now, each name once,
/// in encounter order; and how many discovered encounters do not bite now.
pub open spec fn known_activity(
    content: Content,
    encounters: Seq<EncounterWeight>,
    discovered: Seq<SpeciesId>,
    environment: Environment,
    n: int,
) -> (Seq<Seq<char>>, int)
    decreases n,
{
    if n <= 0 {
        (Seq::empty(), 0)
    } else {
        let (names, inactive) = known_activity(content, encounters, discovered, environment, n - 1);
        let id = encounters[n - 1].species_id;
        if !discovered_species(discovered, id) {
            (names, inactive)
        } else {
            let species = content.species_spec(id);
            if eligible_spec(species, environment) {
                if names.contains(species.name@) {
                    (names, inactive)
                } else {
                    (names.push(species.name@), inactive)
                }
            } else {
                (names, if inactive + 1 > u32::MAX {
                    u32::MAX as int
                } else {
                    inactive + 1
                })
            }
        }
    }
}

proof fn lemma_inactive_bounded(
    content: Content,
    encounters: Seq<EncounterWeight>,
    discovered: Seq<SpeciesId>,
    environment: Environment,
    n: int,
)
    ensures
        0 <= known_activity(content, encounters, discovered, environment, n).1 <= u32::MAX,
    decreases n,
{
    if n > 0 {
        lemma_inactive_bounded(content, encounters, discovered, environment, n - 1);
    }
}

fn contains_name(names: &Vec<String>, name: &String) -> (found: bool)
    ensures
        found == names@.map_values(|s: String| s@).contains(name@),
{
    let ghost views = names@.map_values(|s: String| s@);
    let mut i: usize = 0;
    while i < names.len()
        invariant
            i <= names@.len(),
            views == names@.map_values(|s: String| s@),
            forall|j: int| 0 <= j < i ==> views[j] != name@,
        decreases names@.len() - i,
    {
        if names[i] == *name {
            assert(views[i as int] == name@);
            return true;
        }
        i = i + 1;
    }
    proof {
        if views.contains(name@) {
            let k = choose|k: int| 0 <= k < views.len() && views[k] == name@;
            assert(views[k] != name@);
        }
    }
    false
}

/// The conditions panel at `location_id`: the environment, when weather and day part change
/// next, which discovered species bite now and how many do not.
pub fn conditions_view(content: &Content, location_id: LocationId, discovered: &[SpeciesId], now_ms: i64) -> (view:
    ConditionsView)
    requires
        content.is_valid(),
        has_key(content.locations@, location_id.0 as int),
    ensures
        ({
            let location = content.location_spec(location_id);
            let encounters = location.encounters@;
            let activity = known_activity(
                *content,
                encounters,
                discovered@,
                environment_spec(now_ms),
                encounters.len() as int,
            );
            let weather_change = next_weather_change_spec(now_ms);
            &&& view.location_name@ == location.name@
            &&& view.fishable == location.fishable
            &&& view.environment == environment_spec(now_ms)
            &&& view.next_weather@ == match environment_spec(
                saturate_i64(weather_change + 1),
            ).weather {
                crate::world::Weather::Clear => "Clear"@,
                crate::world::Weather::Rain => "Rain"@,
                crate::world::Weather::Fog => "Fog"@,
            }
            &&& view.weather_changes_in_ms == saturate_i64(weather_change - now_ms)
            &&& view.day_part_changes_in_ms == saturate_i64(
                next_day_part_change_spec(now_ms) - now_ms,
            )
            &&& view.active_known_species@.map_values(|s: String| s@) == activity.0
            &&& view.known_but_inactive == activity.1
        }),
{
    let environment = environment_at(now_ms);
    let location = content.location(location_id);
    let ghost encounters = location.encounters@;
    proof {
        let i = choose|i: int|
            0 <= i < content.locations@.len() && content.locations@[i].id == location_id;
        assert(content.locations@[i].is_valid_in(content.species@));
    }
    let mut active: Vec<String> = Vec::new();
    let mut inactive: u32 = 0;
    let mut k: usize = 0;
    while k < location.encounters.len()
        invariant
            k <= encounters.len(),
            encounters == location.encounters@,
            location.is_valid_in(content.species@),
            content.is_valid(),
            active@.map_values(|s: String| s@) == known_activity(
                *content,
                encounters,
                discovered@,
                environment,
                k as int,
            ).0,
            inactive == known_activity(*content, encounters, discovered@, environment, k as int).1,
        decreases encounters.len() - k,
    {
        proof {
            lemma_inactive_bounded(*content, encounters, discovered@, environment, k as int);
        }
        let species_id = location.encounters[k].species_id;
        assert(location.encounters@[k as int].weight > 0);
        if is_discovered(discovered, species_id) {
            let species = content.species(species_id);
            if eligible(species, environment) {
                if !contains_name(&active, &species.name) {
                    let ghost before = active@;
                    active.push(species.name.clone());
                    assert(active@.map_values(|s: String| s@) =~= before.map_values(|s: String| s@).push(
                        species.name@,
                    ));
                }
            } else {
                inactive = if inactive == u32::MAX {
                    u32::MAX
                } else {
                    inactive + 1
                };
            }
        }
        k = k + 1;
    }
    let weather_change = next_weather_change_ms(now_ms);
    ConditionsView {
        location_name: location.name.clone(),
        fishable: location.fishable,
        environment,
        next_weather: environment_at(saturating_add_i64(weather_change, 1)).weather.label(),
        weather_changes_in_ms: saturating_sub_i64(weather_change, now_ms),
        day_part_changes_in_ms: saturating_sub_i64(next_day_part_change_ms(now_ms), now_ms),
        active_known_species: active,
        known_but_inactive: inactive,
    }
}

} // verus!
