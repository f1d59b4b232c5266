//! Exploration progression, travel and the places a character knows.

use vstd::prelude::*;
use crate::content::{Content, Location};
use crate::error::GameError;
use crate::ids::LocationId;
use crate::sort::{has_key, search_by_key, strictly_sorted_by_key};
use crate::view::{ExploreView, LocationOptionView, LocationView, LocationsView};

verus! {

/// What exploring reveals: a title, a text and possibly a newly found location.
#[derive(Clone, Copy, Debug)]
pub struct Finding {
    pub title: &'static str,
    pub text: &'static str,
    pub location: Option<LocationId>,
}

/// Location `id` is among the unlocked ones.
pub open spec fn known(unlocked: Seq<LocationId>, id: u32) -> bool {
    exists|i: int| 0 <= i < unlocked.len() && unlocked[i] == LocationId(id)
}

fn is_known(unlocked: &[LocationId], id: u32) -> (found: bool)
    ensures
        found == known(unlocked@, id),
{
    let mut i: usize = 0;
    while i < unlocked.len()
        invariant
            i <= unlocked@.len(),
            forall|j: int| 0 <= j < i ==> unlocked@[j] != LocationId(id),
        decreases unlocked@.len() - i,
    {
        if unlocked[i].0 == id {
            return true;
        }
        i = i + 1;
    }
    false
}

/// The exploration progression: at each place the first unmet discovery wins.
pub open spec fn finding_spec(location: LocationId, has_key: bool, unlocked: Seq<LocationId>) -> (
    Seq<char>,
    Seq<char>,
    Option<LocationId>,
) {
    let id = location.0;
    if id == 1 && !known(unlocked, 2) {
        (
            "A path along the seawall"@,
            "Beyond the last warehouse, a narrow service path follows the harbor wall. It ends where old storm damage broke the stones open to much deeper water."@,
            Some(LocationId(2)),
        )
    } else if id == 1 && !known(unlocked, 3) {
        (
            "Tracks through the reeds"@,
            "Fresh footprints leave the harbor road and disappear through shoulder-high reeds. Following them reveals a quiet freshwater pond hidden behind the warehouses."@,
            Some(LocationId(3)),
        )
    } else if id == 1 {
        (
            "Old Harbor"@,
            "You know the nearby alleys, piers, and seawall well enough now. Nothing else obvious reveals itself today."@,
            None,
        )
    } else if id == 2 && has_key && !known(unlocked, 4) {
        (
            "The lighthouse emblem"@,
            "The emblem on your rusted key matches an iron marker half-buried among the collapsed stones. A maintenance path climbs from here toward the abandoned lighthouse."@,
            Some(LocationId(4)),
        )
    } else if id == 2 && has_key {
        (
            "Broken Breakwater"@,
            "The rusted key and the old maintenance marker clearly belong to the lighthouse above. The path is already known to you."@,
            None,
        )
    } else if id == 2 {
        (
            "A familiar crest"@,
            "Between two collapsed blocks you find an iron plate stamped with a lighthouse crest. Something used to connect this place to the cliffs above."@,
            None,
        )
    } else if id == 3 {
        (
            "Reed Pond"@,
            "You find old bait tins, tiny scales on the reeds, and several places where larger animals pushed through the grass. The pond is more active than it first appears."@,
            None,
        )
    } else if id == 4 && has_key && !known(unlocked, 5) {
        (
            "The key turns"@,
            "The rusted key resists, then turns with a metallic crack. Inside the lighthouse, a service stair descends through the cliff to a sealed sea door. Beyond it lies a pale hidden cove."@,
            Some(LocationId(5)),
        )
    } else if id == 4 && has_key {
        (
            "Old Lighthouse"@,
            "The unlocked service stair still leads down toward the hidden cove beneath the cliffs."@,
            None,
        )
    } else if id == 4 {
        (
            "Old Lighthouse"@,
            "The iron door is locked. Its corroded keyhole is surrounded by the same lighthouse crest seen around the old harbor works."@,
            None,
        )
    } else if id == 5 {
        (
            "Lighthouse Cove"@,
            "There are old anchor points cut into the rock and faint marks beneath the waterline. Someone used this cove long before the lighthouse went dark."@,
            None,
        )
    } else {
        (
            "Exploration"@,
            "You search the area but find nothing that changes what you know about it."@,
            None,
        )
    }
}

/// What exploring `location` reveals to a character holding the Rusted Key or not, knowing the
/// `unlocked` locations.
pub fn exploration_finding(location: LocationId, has_key: bool, unlocked: &[LocationId]) -> (finding:
    Finding)
    ensures
        finding.title@ == finding_spec(location, has_key, unlocked@).0,
        finding.text@ == finding_spec(location, has_key, unlocked@).1,
        finding.location == finding_spec(location, has_key, unlocked@).2,
{
    let id = location.0;
    if id == 1 && !is_known(unlocked, 2) {
        Finding {
            title: "A path along the seawall",
            text: "Beyond the last warehouse, a narrow service path follows the harbor wall. It ends where old storm damage broke the stones open to much deeper water.",
            location: Some(LocationId(2)),
        }
    } else if id == 1 && !is_known(unlocked, 3) {
        Finding {
            title: "Tracks through the reeds",
            text: "Fresh footprints leave the harbor road and disappear through shoulder-high reeds. Following them reveals a quiet freshwater pond hidden behind the warehouses.",
            location: Some(LocationId(3)),
        }
    } else if id == 1 {
        Finding {
            title: "Old Harbor",
            text: "You know the nearby alleys, piers, and seawall well enough now. Nothing else obvious reveals itself today.",
            location: None,
        }
    } else if id == 2 && has_key && !is_known(unlocked, 4) {
        Finding {
            title: "The lighthouse emblem",
            text: "The emblem on your rusted key matches an iron marker half-buried among the collapsed stones. A maintenance path climbs from here toward the abandoned lighthouse.",
            location: Some(LocationId(4)),
        }
    } else if id == 2 && has_key {
        Finding {
            title: "Broken Breakwater",
            text: "The rusted key and the old maintenance marker clearly belong to the lighthouse above. The path is already known to you.",
            location: None,
        }
    } else if id == 2 {
        Finding {
            title: "A familiar crest",
            text: "Between two collapsed blocks you find an iron plate stamped with a lighthouse crest. Something used to connect this place to the cliffs above.",
            location: None,
        }
    } else if id == 3 {
        Finding {
            title: "Reed Pond",
            text: "You find old bait tins, tiny scales on the reeds, and several places where larger animals pushed through the grass. The pond is more active than it first appears.",
            location: None,
        }
    } else if id == 4 && has_key && !is_known(unlocked, 5) {
        Finding {
            title: "The key turns",
            text: "The rusted key resists, then turns with a metallic crack. Inside the lighthouse, a service stair descends through the cliff to a sealed sea door. Beyond it lies a pale hidden cove.",
            location: Some(LocationId(5)),
        }
    } else if id == 4 && has_key {
        Finding {
            title: "Old Lighthouse",
            text: "The unlocked service stair still leads down toward the hidden cove beneath the cliffs.",
            location: None,
        }
    } else if id == 4 {
        Finding {
            title: "Old Lighthouse",
            text: "The iron door is locked. Its corroded keyhole is surrounded by the same lighthouse crest seen around the old harbor works.",
            location: None,
        }
    } else if id == 5 {
        Finding {
            title: "Lighthouse Cove",
            text: "There are old anchor points cut into the rock and faint marks beneath the waterline. Someone used this cove long before the lighthouse went dark.",
            location: None,
        }
    } else {
        Finding {
            title: "Exploration",
            text: "You search the area but find nothing that changes what you know about it.",
            location: None,
        }
    }
}

/// Exploring cannot reveal the same place twice: once a revealed location is unlocked,
/// exploring the same place again reveals something else or nothing.
pub proof fn lemma_exploration_reveals_once(location: LocationId, has_key: bool, unlocked: Seq<LocationId>)
    requires
        finding_spec(location, has_key, unlocked).2 is Some,
    ensures
        ({
            let found = finding_spec(location, has_key, unlocked).2->0;
            &&& !known(unlocked, found.0)
            &&& finding_spec(location, has_key, unlocked.push(found)).2 != Some(found)
        }),
{
    let found = finding_spec(location, has_key, unlocked).2->0;
    let after = unlocked.push(found);
    assert(after[unlocked.len() as int] == found);
    assert(known(after, found.0));
    assert forall|id: u32| known(unlocked, id) implies known(after, id) by {
        let i = choose|i: int| 0 <= i < unlocked.len() && unlocked[i] == LocationId(id);
        assert(after[i] == LocationId(id));
    }
}

/// Experience for unlocking a location by exploring.
pub const EXPLORE_XP: u32 = 12;

/// Exploring. Refusals: missing character, then an encounter running.
pub fn explore_check(character: Option<bool>) -> (outcome: Result<(), GameError>)
    ensures
        outcome == match character {
            None => Err(GameError::CharacterMissing),
            Some(active) => if active {
                Err(GameError::EncounterActive)
            } else {
                Ok(())
            },
        },
{
    match character {
        None => Err(GameError::CharacterMissing),
        Some(active) => if active {
            Err(GameError::EncounterActive)
        } else {
            Ok(())
        },
    }
}

/// The card of a location as it is shown.
pub open spec fn location_view_matches(view: LocationView, location: Location) -> bool {
    &&& view.name@ == location.name@
    &&& view.description@ == location.description@
    &&& view.fishable == location.fishable
}

/// The exploration card for `finding`; experience is granted only when its location was newly
/// unlocked.
pub fn explore_view(content: &Content, finding: Finding, newly_unlocked: bool) -> (view: ExploreView)
    requires
        strictly_sorted_by_key(content.locations@),
        finding.location matches Some(target) ==> has_key(content.locations@, target.0 as int),
    ensures
        view.title == finding.title,
        view.text@ == finding.text@,
        view.discovered_location is Some == finding.location is Some,
        finding.location matches Some(target) ==> location_view_matches(
            view.discovered_location->0,
            content.location_spec(target),
        ),
        view.xp_gained == if finding.location is Some && newly_unlocked {
            EXPLORE_XP
        } else {
            0
        },
{
    match finding.location {
        Some(target) => {
            let location = content.location(target);
            ExploreView {
                title: finding.title,
                text: String::from_str(finding.text),
                discovered_location: Some(
                    LocationView {
                        name: location.name.clone(),
                        description: location.description.clone(),
                        fishable: location.fishable,
                    },
                ),
                xp_gained: if newly_unlocked {
                    EXPLORE_XP
                } else {
                    0
                },
            }
        },
        None => ExploreView {
            title: finding.title,
            text: String::from_str(finding.text),
            discovered_location: None,
            xp_gained: 0,
        },
    }
}

/// Travelling to `location_id`, given whether the character knows it and is mid-encounter.
/// Refusals come in this order: unknown location, missing character, location not discovered,
/// encounter running.
pub fn travel_check(content: &Content, location_id: LocationId, character: Option<(bool, bool)>) -> (outcome:
    Result<(), GameError>)
    requires
        strictly_sorted_by_key(content.locations@),
    ensures
        outcome == if !has_key(content.locations@, location_id.0 as int) {
            Err(GameError::UnknownLocation)
        } else {
            match character {
                None => Err(GameError::CharacterMissing),
                Some((knows, active)) => if !knows {
                    Err(GameError::LocationLocked)
                } else if active {
                    Err(GameError::EncounterActive)
                } else {
                    Ok(())
                },
            }
        },
{
    if search_by_key(&content.locations, location_id.0 as i128).is_none() {
        return Err(GameError::UnknownLocation);
    }
    match character {
        None => Err(GameError::CharacterMissing),
        Some((knows, active)) => if !knows {
            Err(GameError::LocationLocked)
        } else if active {
            Err(GameError::EncounterActive)
        } else {
            Ok(())
        },
    }
}

/// The unlocked content locations, in content order.
pub open spec fn unlocked_locations(locations: Seq<Location>, unlocked: Seq<LocationId>) -> Seq<Location>
    decreases locations.len(),
{
    if locations.len() == 0 {
        Seq::empty()
    } else {
        let rest = unlocked_locations(locations.drop_last(), unlocked);
        if known(unlocked, locations.last().id.0) {
            rest.push(locations.last())
        } else {
            rest
        }
    }
}

pub open spec fn location_option_matches(view: LocationOptionView, location: Location, current: LocationId) -> bool {
    &&& view.id == location.id
    &&& view.name@ == location.name@
    &&& view.description@ == location.description@
    &&& view.fishable == location.fishable
    &&& view.current == (location.id == current)
}

/// The travel screen: every unlocked location in content order, the current one marked, and how
/// many are still undiscovered.
pub fn locations_view(content: &Content, unlocked: &[LocationId], current: LocationId) -> (view: LocationsView)
    ensures
        view.locations@.len() == unlocked_locations(content.locations@, unlocked@).len(),
        forall|i: int|
            0 <= i < view.locations@.len() ==> location_option_matches(
                #[trigger] view.locations@[i],
                unlocked_locations(content.locations@, unlocked@)[i],
                current,
            ),
        view.undiscovered == if (content.locations@.len() as u32) < (unlocked@.len() as u32) {
            0
        } else {
            (content.locations@.len() as u32) - (unlocked@.len() as u32)
        },
{
    let mut locations: Vec<LocationOptionView> = Vec::new();
    let mut i: usize = 0;
    while i < content.locations.len()
        invariant
            i <= content.locations@.len(),
            locations@.len() == unlocked_locations(content.locations@.take(i as int), unlocked@).len(),
            forall|j: int|
                0 <= j < locations@.len() ==> location_option_matches(
                    #[trigger] locations@[j],
                    unlocked_locations(content.locations@.take(i as int), unlocked@)[j],
                    current,
                ),
        decreases content.locations@.len() - i,
    {
        let location = &content.locations[i];
        proof {
            assert(content.locations@.take(i as int + 1).drop_last() =~= content.locations@.take(i as int));
        }
        if is_known(unlocked, location.id.0) {
            locations.push(
                LocationOptionView {
                    id: location.id,
                    name: location.name.clone(),
                    description: location.description.clone(),
                    fishable: location.fishable,
                    current: location.id == current,
                },
            );
        }
        i = i + 1;
    }
    proof {
        assert(content.locations@.take(content.locations@.len() as int) =~= content.locations@);
    }
    let total = content.locations.len() as u32;
    let known_count = unlocked.len() as u32;
    let undiscovered = if total < known_count {
        0
    } else {
        total - known_count
    };
    LocationsView { locations, undiscovered }
}

} // verus!
