//! Validates and indexes immutable gameplay content.
//!
//! Runtime lookups use binary search, so every keyed collection is normalized once at load time:
//! `prepare` sorts the collections by id and then checks every content invariant.

use vstd::prelude::*;
use crate::ids::{BaitId, LocationId, RodId, SpeciesId};
use crate::sort::{Keyed, has_key, search_by_key, sort_by_key, sorted_by_key, strictly_sorted_by_key};

verus! {

broadcast use vstd::seq_lib::group_seq_properties, vstd::multiset::group_multiset_axioms;

#[derive(Clone, Debug)]
pub struct Content {
    pub baits: Vec<Bait>,
    pub rods: Vec<Rod>,
    pub locations: Vec<Location>,
    pub species: Vec<Species>,
}

#[derive(Clone, Debug)]
pub struct Bait {
    pub id: BaitId,
    pub name: String,
    pub fishing_power: u32,
    pub buy_price: u32,
    pub pack_size: u32,
    pub buyable: bool,
}

#[derive(Clone, Debug)]
pub struct Rod {
    pub id: RodId,
    pub name: String,
    pub control: u32,
    pub buy_price: u32,
}

#[derive(Clone, Debug)]
pub struct Location {
    pub id: LocationId,
    pub name: String,
    pub description: String,
    pub fishable: bool,
    pub encounters: Vec<EncounterWeight>,
}

#[derive(Clone, Copy, Debug)]
pub struct EncounterWeight {
    pub species_id: SpeciesId,
    pub weight: u32,
}

#[derive(Clone, Debug)]
pub struct Species {
    pub id: SpeciesId,
    pub name: String,
    pub min_length_mm: u32,
    pub typical_length_mm: u32,
    pub max_length_mm: u32,
    pub typical_weight_g: u32,
    pub difficulty: u32,
    pub xp: u32,
    pub base_value: u32,
    pub clue: String,
    pub bite_min_ms: u64,
    pub bite_max_ms: u64,
    pub reaction_ms: [u64; 3],
    pub required_weather: Vec<u8>,
    pub required_day_parts: Vec<u8>,
    pub bait_modifiers: Vec<BaitModifier>,
}

#[derive(Clone, Copy, Debug)]
pub struct BaitModifier {
    pub bait_id: BaitId,
    pub multiplier_bp: u32,
}

/// The keyed collection in which a duplicate id was found.
#[derive(Clone, Copy, Debug, PartialEq, Eq, Structural)]
pub enum IdKind {
    Location,
    Species,
    Bait,
    Rod,
    BaitModifier,
}

/// Why a content set was rejected.
#[derive(Clone, Copy, Debug, PartialEq, Eq, Structural)]
pub enum InvalidContent {
    DuplicateId { kind: IdKind, id: u32 },
    MissingLocation { location: u32 },
    FishableWithoutEncounters { location: u32 },
    EncountersAtUnfishable { location: u32 },
    ZeroEncounterWeight { location: u32 },
    UnknownEncounterSpecies { location: u32, species: u32 },
    MissingStarterBait,
    MissingStarterRod,
    FreeRod { rod: u32 },
    FreeBuyableBait { bait: u32 },
    EmptyBaitPack { bait: u32 },
    InvalidLengthBounds { species: u32 },
    InvalidReactionWindows { species: u32 },
    InvalidBiteDelay { species: u32 },
    UnknownModifierBait { species: u32, bait: u32 },
}

impl Keyed for Location {
    open spec fn key_spec(&self) -> int {
        self.id.0 as int
    }

    fn key(&self) -> (k: i128) {
        self.id.0 as i128
    }
}

impl Keyed for Species {
    open spec fn key_spec(&self) -> int {
        self.id.0 as int
    }

    fn key(&self) -> (k: i128) {
        self.id.0 as i128
    }
}

impl Keyed for Bait {
    open spec fn key_spec(&self) -> int {
        self.id.0 as int
    }

    fn key(&self) -> (k: i128) {
        self.id.0 as i128
    }
}

impl Keyed for Rod {
    open spec fn key_spec(&self) -> int {
        self.id.0 as int
    }

    fn key(&self) -> (k: i128) {
        self.id.0 as i128
    }
}

impl Keyed for BaitModifier {
    open spec fn key_spec(&self) -> int {
        self.bait_id.0 as int
    }

    fn key(&self) -> (k: i128) {
        self.bait_id.0 as i128
    }
}

/// Two adjacent records share an id.
pub open spec fn adjacent_duplicate<T: Keyed>(s: Seq<T>, id: int) -> bool {
    exists|i: int| 0 <= i && i + 1 < s.len() && #[trigger] s[i].key_spec() == id && s[i + 1].key_spec() == id
}

/// The id of the first pair of adjacent records, from index `i` on, that share an id.
pub open spec fn first_duplicate<T: Keyed>(s: Seq<T>, i: int) -> Option<int>
    decreases s.len() - i,
{
    if 0 <= i && i + 1 < s.len() {
        if s[i].key_spec() == s[i + 1].key_spec() {
            Some(s[i].key_spec())
        } else {
            first_duplicate(s, i + 1)
        }
    } else {
        None
    }
}

/// `new` is `old` with its bait modifiers put in bait order.
pub open spec fn modifiers_normalized(old: Species, new: Species) -> bool {
    &&& new.id == old.id
    &&& new.name == old.name
    &&& new.min_length_mm == old.min_length_mm
    &&& new.typical_length_mm == old.typical_length_mm
    &&& new.max_length_mm == old.max_length_mm
    &&& new.typical_weight_g == old.typical_weight_g
    &&& new.difficulty == old.difficulty
    &&& new.xp == old.xp
    &&& new.base_value == old.base_value
    &&& new.clue == old.clue
    &&& new.bite_min_ms == old.bite_min_ms
    &&& new.bite_max_ms == old.bite_max_ms
    &&& new.reaction_ms == old.reaction_ms
    &&& new.required_weather == old.required_weather
    &&& new.required_day_parts == old.required_day_parts
    &&& sorted_by_key(new.bait_modifiers@)
    &&& new.bait_modifiers@.to_multiset() == old.bait_modifiers@.to_multiset()
}

/// Some species of `old` normalizes to `s`.
pub open spec fn normalized_from(old: Seq<Species>, s: Species) -> bool {
    exists|j: int| 0 <= j < old.len() && modifiers_normalized(old[j], s)
}

/// Some species of `new` is `s` normalized.
pub open spec fn normalized_into(s: Species, new: Seq<Species>) -> bool {
    exists|i: int| 0 <= i < new.len() && modifiers_normalized(s, new[i])
}

/// `new` holds the species of `old`, each with its bait modifiers put in bait order.
pub open spec fn species_normalized(old: Seq<Species>, new: Seq<Species>) -> bool {
    &&& forall|i: int| 0 <= i < new.len() ==> normalized_from(old, #[trigger] new[i])
    &&& forall|j: int| 0 <= j < old.len() ==> normalized_into(#[trigger] old[j], new)
}

/// The first required location id, from `id` up to 5, that the content lacks.
pub open spec fn first_missing_location(locations: Seq<Location>, id: int) -> Option<u32>
    decreases 6 - id,
{
    if 1 <= id <= 5 {
        if !has_key(locations, id) {
            Some(id as u32)
        } else {
            first_missing_location(locations, id + 1)
        }
    } else {
        None
    }
}

/// The first problem among a location's encounters, from index `j` on: a zero weight, then an
/// unknown species, checked encounter by encounter.
pub open spec fn first_encounter_problem(species: Seq<Species>, location: Location, j: int) -> Option<
    InvalidContent,
>
    decreases location.encounters@.len() - j,
{
    if 0 <= j < location.encounters@.len() {
        let encounter = location.encounters@[j];
        if encounter.weight == 0 {
            Some(InvalidContent::ZeroEncounterWeight { location: location.id.0 })
        } else if !has_key(species, encounter.species_id.0 as int) {
            Some(
                InvalidContent::UnknownEncounterSpecies {
                    location: location.id.0,
                    species: encounter.species_id.0,
                },
            )
        } else {
            first_encounter_problem(species, location, j + 1)
        }
    } else {
        None
    }
}

/// What is wrong with one location: fishing without encounters (or encounters without fishing),
/// then its first encounter problem.
pub open spec fn location_problem(species: Seq<Species>, location: Location) -> Option<InvalidContent> {
    if location.fishable && location.encounters@.len() == 0 {
        Some(InvalidContent::FishableWithoutEncounters { location: location.id.0 })
    } else if !location.fishable && location.encounters@.len() > 0 {
        Some(InvalidContent::EncountersAtUnfishable { location: location.id.0 })
    } else {
        first_encounter_problem(species, location, 0)
    }
}

/// The first location problem, from index `i` on.
pub open spec fn first_location_problem(species: Seq<Species>, locations: Seq<Location>, i: int) -> Option<
    InvalidContent,
>
    decreases locations.len() - i,
{
    if 0 <= i < locations.len() {
        if location_problem(species, locations[i]) is Some {
            location_problem(species, locations[i])
        } else {
            first_location_problem(species, locations, i + 1)
        }
    } else {
        None
    }
}

/// The first rod other than the starter that costs nothing, from index `i` on.
pub open spec fn first_rod_problem(rods: Seq<Rod>, i: int) -> Option<InvalidContent>
    decreases rods.len() - i,
{
    if 0 <= i < rods.len() {
        if rods[i].id.0 != 1 && rods[i].buy_price == 0 {
            Some(InvalidContent::FreeRod { rod: rods[i].id.0 })
        } else {
            first_rod_problem(rods, i + 1)
        }
    } else {
        None
    }
}

/// The first bait problem from index `i` on: bait by bait, a free buyable pack, then an empty one.
pub open spec fn first_bait_problem(baits: Seq<Bait>, i: int) -> Option<InvalidContent>
    decreases baits.len() - i,
{
    if 0 <= i < baits.len() {
        if baits[i].buyable && baits[i].buy_price == 0 {
            Some(InvalidContent::FreeBuyableBait { bait: baits[i].id.0 })
        } else if baits[i].pack_size == 0 {
            Some(InvalidContent::EmptyBaitPack { bait: baits[i].id.0 })
        } else {
            first_bait_problem(baits, i + 1)
        }
    } else {
        None
    }
}

/// The first bait modifier of species `species_id`, from index `j` on, naming an unknown bait.
pub open spec fn first_modifier_problem(baits: Seq<Bait>, species_id: u32, modifiers: Seq<BaitModifier>, j: int) -> Option<
    InvalidContent,
>
    decreases modifiers.len() - j,
{
    if 0 <= j < modifiers.len() {
        if !has_key(baits, modifiers[j].bait_id.0 as int) {
            Some(InvalidContent::UnknownModifierBait { species: species_id, bait: modifiers[j].bait_id.0 })
        } else {
            first_modifier_problem(baits, species_id, modifiers, j + 1)
        }
    } else {
        None
    }
}

/// What is wrong with one species: its length bounds, then its reaction windows, then its bite
/// delay, then its first repeated modifier bait, then its first modifier naming an unknown bait.
pub open spec fn species_problem(baits: Seq<Bait>, species: Species) -> Option<InvalidContent> {
    if !(species.min_length_mm <= species.typical_length_mm <= species.max_length_mm) {
        Some(InvalidContent::InvalidLengthBounds { species: species.id.0 })
    } else if !(species.reaction_ms[0] < species.reaction_ms[1] < species.reaction_ms[2]) {
        Some(InvalidContent::InvalidReactionWindows { species: species.id.0 })
    } else if species.bite_min_ms > species.bite_max_ms {
        Some(InvalidContent::InvalidBiteDelay { species: species.id.0 })
    } else if let Some(id) = first_duplicate(species.bait_modifiers@, 0) {
        Some(InvalidContent::DuplicateId { kind: IdKind::BaitModifier, id: id as u32 })
    } else {
        first_modifier_problem(baits, species.id.0, species.bait_modifiers@, 0)
    }
}

/// The first species problem, from index `i` on.
pub open spec fn first_species_problem(baits: Seq<Bait>, species: Seq<Species>, i: int) -> Option<
    InvalidContent,
>
    decreases species.len() - i,
{
    if 0 <= i < species.len() {
        if species_problem(baits, species[i]) is Some {
            species_problem(baits, species[i])
        } else {
            first_species_problem(baits, species, i + 1)
        }
    } else {
        None
    }
}

impl Species {
    /// The per-species content invariants.
    pub open spec fn is_valid_in(self, baits: Seq<Bait>) -> bool {
        &&& self.min_length_mm <= self.typical_length_mm <= self.max_length_mm
        &&& self.reaction_ms[0] < self.reaction_ms[1] < self.reaction_ms[2]
        &&& self.bite_min_ms <= self.bite_max_ms
        &&& strictly_sorted_by_key(self.bait_modifiers@)
        &&& forall|i: int|
            0 <= i < self.bait_modifiers@.len() ==> has_key(
                baits,
                #[trigger] self.bait_modifiers@[i].bait_id.0 as int,
            )
    }
}

impl Location {
    /// The per-location content invariants.
    pub open spec fn is_valid_in(self, species: Seq<Species>) -> bool {
        &&& self.fishable == (self.encounters@.len() > 0)
        &&& forall|i: int|
            0 <= i < self.encounters@.len() ==> #[trigger] self.encounters@[i].weight > 0
                && has_key(species, self.encounters@[i].species_id.0 as int)
    }
}

impl Content {
    /// Every collection is strictly ordered by id, so lookups are unambiguous.
    pub open spec fn is_indexed(self) -> bool {
        &&& strictly_sorted_by_key(self.locations@)
        &&& strictly_sorted_by_key(self.species@)
        &&& strictly_sorted_by_key(self.baits@)
        &&& strictly_sorted_by_key(self.rods@)
    }

    pub open spec fn locations_valid(self) -> bool {
        &&& forall|id: int| 1 <= id <= 5 ==> has_key(self.locations@, id)
        &&& forall|i: int|
            0 <= i < self.locations@.len() ==> #[trigger] self.locations@[i].is_valid_in(
                self.species@,
            )
    }

    pub open spec fn equipment_valid(self) -> bool {
        &&& has_key(self.baits@, 1)
        &&& has_key(self.rods@, 1)
        &&& forall|i: int|
            0 <= i < self.rods@.len() && #[trigger] self.rods@[i].id.0 != 1 ==> self.rods@[i].buy_price
                > 0
        &&& forall|i: int|
            0 <= i < self.baits@.len() ==> ((#[trigger] self.baits@[i]).buyable
                ==> self.baits@[i].buy_price > 0) && self.baits@[i].pack_size > 0
    }

    pub open spec fn species_valid(self) -> bool {
        forall|i: int|
            0 <= i < self.species@.len() ==> #[trigger] self.species@[i].is_valid_in(self.baits@)
    }

    /// All content invariants that gameplay relies on.
    pub open spec fn is_valid(self) -> bool {
        &&& self.is_indexed()
        &&& self.locations_valid()
        &&& self.equipment_valid()
        &&& self.species_valid()
    }

    /// The duplicate id that is reported before any other problem: the first repeated location
    /// id, else the first repeated species id, else bait, else rod (collections in key order).
    pub open spec fn duplicate_problem(self) -> Option<InvalidContent> {
        if let Some(id) = first_duplicate(self.locations@, 0) {
            Some(InvalidContent::DuplicateId { kind: IdKind::Location, id: id as u32 })
        } else if let Some(id) = first_duplicate(self.species@, 0) {
            Some(InvalidContent::DuplicateId { kind: IdKind::Species, id: id as u32 })
        } else if let Some(id) = first_duplicate(self.baits@, 0) {
            Some(InvalidContent::DuplicateId { kind: IdKind::Bait, id: id as u32 })
        } else if let Some(id) = first_duplicate(self.rods@, 0) {
            Some(InvalidContent::DuplicateId { kind: IdKind::Rod, id: id as u32 })
        } else {
            None
        }
    }

    /// The problem reported for this content, checks taken in order: repeated ids; missing
    /// required locations; locations in id order; the starter bait and rod; rods, then baits, in
    /// id order; species in id order. `None` when the content is valid.
    pub open spec fn validation_problem(self) -> Option<InvalidContent> {
        if self.duplicate_problem() is Some {
            self.duplicate_problem()
        } else if let Some(location) = first_missing_location(self.locations@, 1) {
            Some(InvalidContent::MissingLocation { location })
        } else if first_location_problem(self.species@, self.locations@, 0) is Some {
            first_location_problem(self.species@, self.locations@, 0)
        } else if !has_key(self.baits@, 1) {
            Some(InvalidContent::MissingStarterBait)
        } else if !has_key(self.rods@, 1) {
            Some(InvalidContent::MissingStarterRod)
        } else if first_rod_problem(self.rods@, 0) is Some {
            first_rod_problem(self.rods@, 0)
        } else if first_bait_problem(self.baits@, 0) is Some {
            first_bait_problem(self.baits@, 0)
        } else {
            first_species_problem(self.baits@, self.species@, 0)
        }
    }

    /// The reported problem is really present in this content.
    pub open spec fn exhibits(self, problem: InvalidContent) -> bool {
        match problem {
            InvalidContent::DuplicateId { kind, id } => match kind {
                IdKind::Location => adjacent_duplicate(self.locations@, id as int),
                IdKind::Species => adjacent_duplicate(self.species@, id as int),
                IdKind::Bait => adjacent_duplicate(self.baits@, id as int),
                IdKind::Rod => adjacent_duplicate(self.rods@, id as int),
                IdKind::BaitModifier => exists|i: int|
                    0 <= i < self.species@.len() && adjacent_duplicate(
                        #[trigger] self.species@[i].bait_modifiers@,
                        id as int,
                    ),
            },
            InvalidContent::MissingLocation { location } => 1 <= location <= 5 && !has_key(
                self.locations@,
                location as int,
            ),
            InvalidContent::FishableWithoutEncounters { location } => exists|i: int|
                0 <= i < self.locations@.len() && #[trigger] self.locations@[i].id.0 == location
                    && self.locations@[i].fishable && self.locations@[i].encounters@.len() == 0,
            InvalidContent::EncountersAtUnfishable { location } => exists|i: int|
                0 <= i < self.locations@.len() && #[trigger] self.locations@[i].id.0 == location
                    && !self.locations@[i].fishable && self.locations@[i].encounters@.len() > 0,
            InvalidContent::ZeroEncounterWeight { location } => exists|i: int, j: int|
                0 <= i < self.locations@.len() && #[trigger] self.locations@[i].id.0 == location
                    && 0 <= j < self.locations@[i].encounters@.len()
                    && #[trigger] self.locations@[i].encounters@[j].weight == 0,
            InvalidContent::UnknownEncounterSpecies { location, species } => exists|i: int, j: int|
                0 <= i < self.locations@.len() && #[trigger] self.locations@[i].id.0 == location
                    && 0 <= j < self.locations@[i].encounters@.len()
                    && #[trigger] self.locations@[i].encounters@[j].species_id.0 == species
                    && !has_key(self.species@, species as int),
            InvalidContent::MissingStarterBait => !has_key(self.baits@, 1),
            InvalidContent::MissingStarterRod => !has_key(self.rods@, 1),
            InvalidContent::FreeRod { rod } => exists|i: int|
                0 <= i < self.rods@.len() && #[trigger] self.rods@[i].id.0 == rod && rod != 1
                    && self.rods@[i].buy_price == 0,
            InvalidContent::FreeBuyableBait { bait } => exists|i: int|
                0 <= i < self.baits@.len() && #[trigger] self.baits@[i].id.0 == bait
                    && self.baits@[i].buyable && self.baits@[i].buy_price == 0,
            InvalidContent::EmptyBaitPack { bait } => exists|i: int|
                0 <= i < self.baits@.len() && #[trigger] self.baits@[i].id.0 == bait
                    && self.baits@[i].pack_size == 0,
            InvalidContent::InvalidLengthBounds { species } => exists|i: int|
                0 <= i < self.species@.len() && #[trigger] self.species@[i].id.0 == species && !(
                self.species@[i].min_length_mm <= self.species@[i].typical_length_mm
                    <= self.species@[i].max_length_mm),
            InvalidContent::InvalidReactionWindows { species } => exists|i: int|
                0 <= i < self.species@.len() && #[trigger] self.species@[i].id.0 == species && !(
                self.species@[i].reaction_ms[0] < self.species@[i].reaction_ms[1]
                    < self.species@[i].reaction_ms[2]),
            InvalidContent::InvalidBiteDelay { species } => exists|i: int|
                0 <= i < self.species@.len() && #[trigger] self.species@[i].id.0 == species
                    && self.species@[i].bite_min_ms > self.species@[i].bite_max_ms,
            InvalidContent::UnknownModifierBait { species, bait } => exists|i: int, j: int|
                0 <= i < self.species@.len() && #[trigger] self.species@[i].id.0 == species
                    && 0 <= j < self.species@[i].bait_modifiers@.len()
                    && #[trigger] self.species@[i].bait_modifiers@[j].bait_id.0 == bait
                    && !has_key(self.baits@, bait as int),
        }
    }

    /// The location with the given id.
    pub open spec fn location_spec(self, id: LocationId) -> Location {
        let i = choose|i: int| 0 <= i < self.locations@.len() && self.locations@[i].id == id;
        self.locations@[i]
    }

    pub open spec fn species_spec(self, id: SpeciesId) -> Species {
        let i = choose|i: int| 0 <= i < self.species@.len() && self.species@[i].id == id;
        self.species@[i]
    }

    pub open spec fn bait_spec(self, id: BaitId) -> Bait {
        let i = choose|i: int| 0 <= i < self.baits@.len() && self.baits@[i].id == id;
        self.baits@[i]
    }

    pub open spec fn rod_spec(self, id: RodId) -> Rod {
        let i = choose|i: int| 0 <= i < self.rods@.len() && self.rods@[i].id == id;
        self.rods@[i]
    }

    /// A species looked up in valid content meets the per-species invariants.
    pub proof fn lemma_species_spec_valid(self, id: SpeciesId)
        requires
            self.is_valid(),
            has_key(self.species@, id.0 as int),
        ensures
            self.species_spec(id).is_valid_in(self.baits@),
            self.species_spec(id).id == id,
    {
        let i = choose|i: int| 0 <= i < self.species@.len() && self.species@[i].id == id;
        assert(self.species@[i].is_valid_in(self.baits@));
    }

    pub fn location(&self, id: LocationId) -> (location: &Location)
        requires
            strictly_sorted_by_key(self.locations@),
            has_key(self.locations@, id.0 as int),
        ensures
            *location == self.location_spec(id),
            location.id == id,
    {
        match search_by_key(&self.locations, id.0 as i128) {
            Some(i) => {
                let location = &self.locations[i];
                proof {
                    let j = choose|j: int|
                        0 <= j < self.locations@.len() && self.locations@[j].id == id;
                    assert(self.locations@[i as int].id == id);
                    if j < i {
                        assert(self.locations@[j].key_spec() < self.locations@[i as int].key_spec());
                    } else if j > i {
                        assert(self.locations@[i as int].key_spec() < self.locations@[j].key_spec());
                    }
                }
                location
            },
            None => {
                proof {
                    assert(has_key(self.locations@, id.0 as int));
                }
                &self.locations[0]
            },
        }
    }

    pub fn species(&self, id: SpeciesId) -> (species: &Species)
        requires
            strictly_sorted_by_key(self.species@),
            has_key(self.species@, id.0 as int),
        ensures
            *species == self.species_spec(id),
            species.id == id,
    {
        match search_by_key(&self.species, id.0 as i128) {
            Some(i) => {
                let species = &self.species[i];
                proof {
                    let j = choose|j: int| 0 <= j < self.species@.len() && self.species@[j].id == id;
                    assert(self.species@[i as int].id == id);
                    if j < i {
                        assert(self.species@[j].key_spec() < self.species@[i as int].key_spec());
                    } else if j > i {
                        assert(self.species@[i as int].key_spec() < self.species@[j].key_spec());
                    }
                }
                species
            },
            None => &self.species[0],
        }
    }

    pub fn bait(&self, id: BaitId) -> (bait: &Bait)
        requires
            strictly_sorted_by_key(self.baits@),
            has_key(self.baits@, id.0 as int),
        ensures
            *bait == self.bait_spec(id),
            bait.id == id,
    {
        match search_by_key(&self.baits, id.0 as i128) {
            Some(i) => {
                let bait = &self.baits[i];
                proof {
                    let j = choose|j: int| 0 <= j < self.baits@.len() && self.baits@[j].id == id;
                    assert(self.baits@[i as int].id == id);
                    if j < i {
                        assert(self.baits@[j].key_spec() < self.baits@[i as int].key_spec());
                    } else if j > i {
                        assert(self.baits@[i as int].key_spec() < self.baits@[j].key_spec());
                    }
                }
                bait
            },
            None => &self.baits[0],
        }
    }

    pub fn rod(&self, id: RodId) -> (rod: &Rod)
        requires
            strictly_sorted_by_key(self.rods@),
            has_key(self.rods@, id.0 as int),
        ensures
            *rod == self.rod_spec(id),
            rod.id == id,
    {
        match search_by_key(&self.rods, id.0 as i128) {
            Some(i) => {
                let rod = &self.rods[i];
                proof {
                    let j = choose|j: int| 0 <= j < self.rods@.len() && self.rods@[j].id == id;
                    assert(self.rods@[i as int].id == id);
                    if j < i {
                        assert(self.rods@[j].key_spec() < self.rods@[i as int].key_spec());
                    } else if j > i {
                        assert(self.rods@[i as int].key_spec() < self.rods@[j].key_spec());
                    }
                }
                rod
            },
            None => &self.rods[0],
        }
    }
}

/// Finds two adjacent records with the same key in a key-ordered vector.
fn adjacent_duplicate_index<T: Keyed>(v: &Vec<T>) -> (dup: Option<usize>)
    requires
        sorted_by_key(v@),
    ensures
        match dup {
            None => strictly_sorted_by_key(v@),
            Some(i) => i + 1 < v@.len() && v@[i as int].key_spec() == v@[i + 1].key_spec(),
        },
        match dup {
            None => first_duplicate(v@, 0) is None,
            Some(i) => first_duplicate(v@, 0) == Some(v@[i as int].key_spec()),
        },
{
    let mut i: usize = 1;
    while i < v.len()
        invariant
            1 <= i,
            sorted_by_key(v@),
            forall|a: int, b: int| 0 <= a < b < i && b < v@.len() ==> v@[a].key_spec() < v@[b].key_spec(),
            first_duplicate(v@, i - 1) == first_duplicate(v@, 0),
        decreases v@.len() - i,
    {
        if v[i - 1].key() == v[i].key() {
            return Some(i - 1);
        }
        proof {
            assert forall|a: int, b: int| 0 <= a < b < i + 1 && b < v@.len() implies v@[a].key_spec()
                < v@[b].key_spec() by {
                if b == i && a < i - 1 {
                    assert(v@[a].key_spec() < v@[i - 1].key_spec());
                }
            }
        }
        i = i + 1;
    }
    None
}

impl Content {
    /// The outcome of the location checks.
    pub open spec fn locations_result(self) -> Result<(), InvalidContent> {
        if let Some(location) = first_missing_location(self.locations@, 1) {
            Err(InvalidContent::MissingLocation { location })
        } else if let Some(problem) = first_location_problem(self.species@, self.locations@, 0) {
            Err(problem)
        } else {
            Ok(())
        }
    }

    fn validate_locations(&self) -> (result: Result<(), InvalidContent>)
        requires
            self.is_indexed(),
        ensures
            result is Ok <==> self.locations_valid(),
            result matches Err(problem) ==> self.exhibits(problem),
            result == self.locations_result(),
    {
        let mut id: u32 = 1;
        while id <= 5
            invariant
                1 <= id <= 6,
                self.is_indexed(),
                forall|k: int| 1 <= k < id ==> has_key(self.locations@, k),
                first_missing_location(self.locations@, id as int) == first_missing_location(
                    self.locations@,
                    1,
                ),
            decreases 6 - id,
        {
            if search_by_key(&self.locations, id as i128).is_none() {
                return Err(InvalidContent::MissingLocation { location: id });
            }
            id = id + 1;
        }
        assert(first_missing_location(self.locations@, 1) is None);
        let mut i: usize = 0;
        while i < self.locations.len()
            invariant
                i <= self.locations@.len(),
                self.is_indexed(),
                forall|k: int| 1 <= k <= 5 ==> has_key(self.locations@, k),
                forall|k: int| 0 <= k < i ==> #[trigger] self.locations@[k].is_valid_in(self.species@),
                first_missing_location(self.locations@, 1) is None,
                first_location_problem(self.species@, self.locations@, i as int)
                    == first_location_problem(self.species@, self.locations@, 0),
            decreases self.locations@.len() - i,
        {
            let location = &self.locations[i];
            if location.fishable == (location.encounters.len() == 0) {
                if location.fishable {
                    assert(!self.locations@[i as int].is_valid_in(self.species@));
                    return Err(InvalidContent::FishableWithoutEncounters { location: location.id.0 });
                } else {
                    assert(!self.locations@[i as int].is_valid_in(self.species@));
                    return Err(InvalidContent::EncountersAtUnfishable { location: location.id.0 });
                }
            }
            assert(location_problem(self.species@, *location) == first_encounter_problem(
                self.species@,
                *location,
                0,
            ));
            let mut j: usize = 0;
            while j < location.encounters.len()
                invariant
                    j <= location.encounters@.len(),
                    i < self.locations@.len(),
                    location == self.locations@[i as int],
                    self.is_indexed(),
                    forall|k: int| 1 <= k <= 5 ==> has_key(self.locations@, k),
                    forall|k: int| 0 <= k < i ==> #[trigger] self.locations@[k].is_valid_in(self.species@),
                    location.fishable == (location.encounters@.len() > 0),
                    forall|k: int| 0 <= k < j ==> #[trigger] location.encounters@[k].weight > 0
                        && has_key(self.species@, location.encounters@[k].species_id.0 as int),
                    first_missing_location(self.locations@, 1) is None,
                    first_location_problem(self.species@, self.locations@, i as int)
                        == first_location_problem(self.species@, self.locations@, 0),
                    location_problem(self.species@, *location) == first_encounter_problem(
                        self.species@,
                        *location,
                        0,
                    ),
                    first_encounter_problem(self.species@, *location, j as int)
                        == first_encounter_problem(self.species@, *location, 0),
                decreases location.encounters@.len() - j,
            {
                let encounter = location.encounters[j];
                if encounter.weight == 0 {
                    assert(location.encounters@[j as int].weight == 0);
                    assert(!self.locations@[i as int].is_valid_in(self.species@));
                    return Err(InvalidContent::ZeroEncounterWeight { location: location.id.0 });
                }
                let found = search_by_key(&self.species, encounter.species_id.0 as i128);
                if found.is_none() {
                    assert(location.encounters@[j as int].species_id == encounter.species_id);
                    assert(!self.locations@[i as int].is_valid_in(self.species@));
                    return Err(
                        InvalidContent::UnknownEncounterSpecies {
                            location: location.id.0,
                            species: encounter.species_id.0,
                        },
                    );
                }
                proof {
                    let idx = found->0 as int;
                    assert(self.species@[idx].key_spec() == encounter.species_id.0 as int);
                    assert(location.encounters@[j as int] == encounter);
                    assert(has_key(self.species@, location.encounters@[j as int].species_id.0 as int));
                    assert forall|k: int| 0 <= k < j + 1 implies #[trigger] location.encounters@[k].weight > 0
                        && has_key(self.species@, location.encounters@[k].species_id.0 as int) by {
                        if k == j {
                            assert(location.encounters@[k] == encounter);
                        }
                    }
                }
                j = j + 1;
            }
            i = i + 1;
        }
        Ok(())
    }

    /// The outcome of the equipment checks.
    pub open spec fn equipment_result(self) -> Result<(), InvalidContent> {
        if !has_key(self.baits@, 1) {
            Err(InvalidContent::MissingStarterBait)
        } else if !has_key(self.rods@, 1) {
            Err(InvalidContent::MissingStarterRod)
        } else if let Some(problem) = first_rod_problem(self.rods@, 0) {
            Err(problem)
        } else if let Some(problem) = first_bait_problem(self.baits@, 0) {
            Err(problem)
        } else {
            Ok(())
        }
    }

    fn validate_equipment(&self) -> (result: Result<(), InvalidContent>)
        requires
            self.is_indexed(),
        ensures
            result is Ok <==> self.equipment_valid(),
            result matches Err(problem) ==> self.exhibits(problem),
            result == self.equipment_result(),
    {
        if search_by_key(&self.baits, 1).is_none() {
            return Err(InvalidContent::MissingStarterBait);
        }
        if search_by_key(&self.rods, 1).is_none() {
            return Err(InvalidContent::MissingStarterRod);
        }
        let mut i: usize = 0;
        while i < self.rods.len()
            invariant
                i <= self.rods@.len(),
                forall|k: int|
                    0 <= k < i && #[trigger] self.rods@[k].id.0 != 1 ==> self.rods@[k].buy_price > 0,
                first_rod_problem(self.rods@, i as int) == first_rod_problem(self.rods@, 0),
                has_key(self.baits@, 1),
                has_key(self.rods@, 1),
            decreases self.rods@.len() - i,
        {
            let rod = &self.rods[i];
            if rod.id.0 != 1 && rod.buy_price == 0 {
                assert(self.rods@[i as int].id.0 != 1);
                return Err(InvalidContent::FreeRod { rod: rod.id.0 });
            }
            i = i + 1;
        }
        let mut i: usize = 0;
        while i < self.baits.len()
            invariant
                i <= self.baits@.len(),
                forall|k: int|
                    0 <= k < i ==> (#[trigger] self.baits@[k]).buyable ==> self.baits@[k].buy_price > 0,
                forall|k: int| 0 <= k < i ==> (#[trigger] self.baits@[k]).pack_size > 0,
                first_rod_problem(self.rods@, 0) is None,
                first_bait_problem(self.baits@, i as int) == first_bait_problem(self.baits@, 0),
                has_key(self.baits@, 1),
                has_key(self.rods@, 1),
            decreases self.baits@.len() - i,
        {
            let bait = &self.baits[i];
            if bait.buyable && bait.buy_price == 0 {
                assert(self.baits@[i as int].buyable);
                return Err(InvalidContent::FreeBuyableBait { bait: bait.id.0 });
            }
            if bait.pack_size == 0 {
                assert(self.baits@[i as int].pack_size == 0);
                return Err(InvalidContent::EmptyBaitPack { bait: bait.id.0 });
            }
            i = i + 1;
        }
        Ok(())
    }

    /// The outcome of the species checks.
    pub open spec fn species_result(self) -> Result<(), InvalidContent> {
        if let Some(problem) = first_species_problem(self.baits@, self.species@, 0) {
            Err(problem)
        } else {
            Ok(())
        }
    }

    fn validate_species(&self) -> (result: Result<(), InvalidContent>)
        requires
            self.is_indexed(),
            forall|i: int| 0 <= i < self.species@.len() ==> sorted_by_key(#[trigger] self.species@[i].bait_modifiers@),
        ensures
            result is Ok <==> self.species_valid(),
            result matches Err(problem) ==> self.exhibits(problem),
            result == self.species_result(),
    {
        let mut i: usize = 0;
        while i < self.species.len()
            invariant
                i <= self.species@.len(),
                self.is_indexed(),
                forall|k: int| 0 <= k < self.species@.len() ==> sorted_by_key(#[trigger] self.species@[k].bait_modifiers@),
                forall|k: int| 0 <= k < i ==> #[trigger] self.species@[k].is_valid_in(self.baits@),
                first_species_problem(self.baits@, self.species@, i as int) == first_species_problem(
                    self.baits@,
                    self.species@,
                    0,
                ),
            decreases self.species@.len() - i,
        {
            let species = &self.species[i];
            if !(species.min_length_mm <= species.typical_length_mm
                && species.typical_length_mm <= species.max_length_mm) {
                assert(!self.species@[i as int].is_valid_in(self.baits@));
                assert(self.species@[i as int].id.0 == species.id.0);
                return Err(InvalidContent::InvalidLengthBounds { species: species.id.0 });
            }
            let excellent = species.reaction_ms[0];
            let good = species.reaction_ms[1];
            let late = species.reaction_ms[2];
            if !(excellent < good && good < late) {
                assert(!self.species@[i as int].is_valid_in(self.baits@));
                assert(self.species@[i as int].id.0 == species.id.0);
                return Err(InvalidContent::InvalidReactionWindows { species: species.id.0 });
            }
            if species.bite_min_ms > species.bite_max_ms {
                assert(!self.species@[i as int].is_valid_in(self.baits@));
                assert(self.species@[i as int].id.0 == species.id.0);
                return Err(InvalidContent::InvalidBiteDelay { species: species.id.0 });
            }
            assert(sorted_by_key(species.bait_modifiers@));
            match adjacent_duplicate_index(&species.bait_modifiers) {
                Some(d) => {
                    let id = species.bait_modifiers[d].bait_id.0;
                    assert(adjacent_duplicate(self.species@[i as int].bait_modifiers@, id as int));
                    assert(!self.species@[i as int].is_valid_in(self.baits@));
                    return Err(InvalidContent::DuplicateId { kind: IdKind::BaitModifier, id });
                },
                None => {},
            }
            assert(species_problem(self.baits@, *species) == first_modifier_problem(
                self.baits@,
                species.id.0,
                species.bait_modifiers@,
                0,
            ));
            let mut j: usize = 0;
            while j < species.bait_modifiers.len()
                invariant
                    j <= species.bait_modifiers@.len(),
                    i < self.species@.len(),
                    species == self.species@[i as int],
                    self.is_indexed(),
                    forall|k: int| 0 <= k < self.species@.len() ==> sorted_by_key(#[trigger] self.species@[k].bait_modifiers@),
                    forall|k: int| 0 <= k < i ==> #[trigger] self.species@[k].is_valid_in(self.baits@),
                    species.min_length_mm <= species.typical_length_mm <= species.max_length_mm,
                    species.reaction_ms[0] < species.reaction_ms[1] < species.reaction_ms[2],
                    species.bite_min_ms <= species.bite_max_ms,
                    strictly_sorted_by_key(species.bait_modifiers@),
                    forall|k: int| 0 <= k < j ==> has_key(self.baits@, #[trigger] species.bait_modifiers@[k].bait_id.0 as int),
                    first_species_problem(self.baits@, self.species@, i as int)
                        == first_species_problem(self.baits@, self.species@, 0),
                    species_problem(self.baits@, *species) == first_modifier_problem(
                        self.baits@,
                        species.id.0,
                        species.bait_modifiers@,
                        0,
                    ),
                    first_modifier_problem(self.baits@, species.id.0, species.bait_modifiers@, j as int)
                        == first_modifier_problem(self.baits@, species.id.0, species.bait_modifiers@, 0),
                decreases species.bait_modifiers@.len() - j,
            {
                let bait_id = species.bait_modifiers[j].bait_id;
                if search_by_key(&self.baits, bait_id.0 as i128).is_none() {
                    assert(species.bait_modifiers@[j as int].bait_id == bait_id);
                    assert(self.species@[i as int].id.0 == species.id.0);
                    assert(!self.species@[i as int].is_valid_in(self.baits@));
                    return Err(InvalidContent::UnknownModifierBait { species: species.id.0, bait: bait_id.0 });
                }
                j = j + 1;
            }
            i = i + 1;
        }
        Ok(())
    }

    fn validate(&self) -> (result: Result<(), InvalidContent>)
        requires
            sorted_by_key(self.locations@),
            sorted_by_key(self.species@),
            sorted_by_key(self.baits@),
            sorted_by_key(self.rods@),
            forall|i: int| 0 <= i < self.species@.len() ==> sorted_by_key(#[trigger] self.species@[i].bait_modifiers@),
        ensures
            result is Ok <==> self.is_valid(),
            result matches Err(problem) ==> self.exhibits(problem),
            self.duplicate_problem() matches Some(problem) ==> result == Err::<(), InvalidContent>(
                problem,
            ),
            result == match self.validation_problem() {
                Some(problem) => Err(problem),
                None => Ok(()),
            },
    {
        if let Some(d) = adjacent_duplicate_index(&self.locations) {
            return Err(InvalidContent::DuplicateId { kind: IdKind::Location, id: self.locations[d].id.0 });
        }
        if let Some(d) = adjacent_duplicate_index(&self.species) {
            return Err(InvalidContent::DuplicateId { kind: IdKind::Species, id: self.species[d].id.0 });
        }
        if let Some(d) = adjacent_duplicate_index(&self.baits) {
            return Err(InvalidContent::DuplicateId { kind: IdKind::Bait, id: self.baits[d].id.0 });
        }
        if let Some(d) = adjacent_duplicate_index(&self.rods) {
            return Err(InvalidContent::DuplicateId { kind: IdKind::Rod, id: self.rods[d].id.0 });
        }
        match self.validate_locations() {
            Ok(()) => {},
            Err(problem) => return Err(problem),
        }
        match self.validate_equipment() {
            Ok(()) => {},
            Err(problem) => return Err(problem),
        }
        self.validate_species()
    }
}


impl Content {
    /// Sorts every keyed collection by id (and each species' bait modifiers by bait id),
    /// then checks every content invariant.
    pub fn prepare(&mut self) -> (result: Result<(), InvalidContent>)
        ensures
            sorted_by_key(final(self).locations@),
            final(self).locations@.to_multiset() == old(self).locations@.to_multiset(),
            sorted_by_key(final(self).baits@),
            final(self).baits@.to_multiset() == old(self).baits@.to_multiset(),
            sorted_by_key(final(self).rods@),
            final(self).rods@.to_multiset() == old(self).rods@.to_multiset(),
            sorted_by_key(final(self).species@),
            final(self).species@.len() == old(self).species@.len(),
            species_normalized(old(self).species@, final(self).species@),
            result is Ok <==> final(self).is_valid(),
            result matches Err(problem) ==> final(self).exhibits(problem),
            final(self).duplicate_problem() matches Some(problem) ==> result == Err::<
                (),
                InvalidContent,
            >(problem),
            result == match final(self).validation_problem() {
                Some(problem) => Err(problem),
                None => Ok(()),
            },
    {
        let mut locations: Vec<Location> = Vec::new();
        std::mem::swap(&mut locations, &mut self.locations);
        self.locations = sort_by_key(locations);
        let mut baits: Vec<Bait> = Vec::new();
        std::mem::swap(&mut baits, &mut self.baits);
        self.baits = sort_by_key(baits);
        let mut rods: Vec<Rod> = Vec::new();
        std::mem::swap(&mut rods, &mut self.rods);
        self.rods = sort_by_key(rods);

        let mut pending: Vec<Species> = Vec::new();
        std::mem::swap(&mut pending, &mut self.species);
        let ghost original = pending@;
        let mut normalized: Vec<Species> = Vec::new();
        while pending.len() > 0
            invariant
                pending@.len() + normalized@.len() == original.len(),
                pending@ == original.take(pending@.len() as int),
                forall|k: int|
                    0 <= k < normalized@.len() ==> modifiers_normalized(
                        original[original.len() - 1 - k],
                        #[trigger] normalized@[k],
                    ),
            decreases pending@.len(),
        {
            let ghost before = pending@;
            let mut species = pending.pop().unwrap();
            proof {
                assert(pending@ == original.take(pending@.len() as int));
                assert(species == original[pending@.len() as int]);
            }
            let mut modifiers: Vec<BaitModifier> = Vec::new();
            std::mem::swap(&mut modifiers, &mut species.bait_modifiers);
            let ghost original_modifiers = modifiers@;
            species.bait_modifiers = sort_by_key(modifiers);
            let ghost k = normalized@.len() as int;
            normalized.push(species);
            proof {
                assert(original.len() - 1 - k == pending@.len());
                assert(modifiers_normalized(original[original.len() - 1 - k], normalized@[k]));
            }
        }
        assert(normalized@.len() == original.len());
        assert(original == old(self).species@);
        let sorted_species = sort_by_key(normalized);
        self.species = sorted_species;
        let ghost fin = self.species@;
        proof {
            let start = original;
            assert(fin.to_multiset() == normalized@.to_multiset());
            fin.to_multiset_ensures();
            normalized@.to_multiset_ensures();
            assert forall|i: int| 0 <= i < fin.len() implies normalized_from(start, #[trigger] fin[i]) by {
                assert(fin.contains(fin[i]));
                assert(fin.to_multiset().count(fin[i]) > 0);
                assert(normalized@.to_multiset().count(fin[i]) > 0);
                assert(normalized@.contains(fin[i]));
                let k = choose|k: int| 0 <= k < normalized@.len() && normalized@[k] == fin[i];
                assert(modifiers_normalized(start[start.len() - 1 - k], normalized@[k]));
            }
            assert forall|j: int| 0 <= j < start.len() implies normalized_into(#[trigger] start[j], fin) by {
                let k = start.len() - 1 - j;
                let x = normalized@[k];
                assert(modifiers_normalized(start[j], x));
                assert(normalized@.contains(x));
                assert(normalized@.to_multiset().count(x) > 0);
                assert(fin.to_multiset().count(x) > 0);
                assert(fin.contains(x));
                let i = choose|i: int| 0 <= i < fin.len() && fin[i] == x;
                assert(modifiers_normalized(start[j], fin[i]));
            }
            assert(species_normalized(start, fin));
            assert forall|i: int| 0 <= i < fin.len() implies sorted_by_key(
                #[trigger] fin[i].bait_modifiers@,
            ) by {
                assert(normalized_from(start, fin[i]));
                let j = choose|j: int| 0 <= j < start.len() && modifiers_normalized(start[j], fin[i]);
            }
        }
        let result = self.validate();
        assert(self.species@ == fin);
        result
    }
}

/// Baits are buyable unless the content says otherwise.
pub fn default_true() -> (value: bool)
    ensures
        value,
{
    true
}

/// Price of a bait pack when the content does not name one.
pub fn default_bait_buy_price() -> (price: u32)
    ensures
        price == 5,
{
    5
}

/// Size of a bait pack when the content does not name one.
pub fn default_bait_pack_size() -> (size: u32)
    ensures
        size == 5,
{
    5
}


/// The character of a decimal digit.
pub open spec fn digit_char(d: nat) -> char {
    if d == 0 {
        '0'
    } else if d == 1 {
        '1'
    } else if d == 2 {
        '2'
    } else if d == 3 {
        '3'
    } else if d == 4 {
        '4'
    } else if d == 5 {
        '5'
    } else if d == 6 {
        '6'
    } else if d == 7 {
        '7'
    } else if d == 8 {
        '8'
    } else {
        '9'
    }
}

/// `n` written in decimal, without leading zeros.
pub open spec fn decimal(n: nat) -> Seq<char>
    decreases n,
{
    if n < 10 {
        seq![digit_char(n)]
    } else {
        decimal(n / 10) + seq![digit_char(n % 10)]
    }
}

fn digit_text(d: u32) -> (text: &'static str)
    requires
        d < 10,
    ensures
        text@ == seq![digit_char(d as nat)],
{
    proof {
        reveal_strlit("0");
        reveal_strlit("1");
        reveal_strlit("2");
        reveal_strlit("3");
        reveal_strlit("4");
        reveal_strlit("5");
        reveal_strlit("6");
        reveal_strlit("7");
        reveal_strlit("8");
        reveal_strlit("9");
    }
    let text = if d == 0 {
        "0"
    } else if d == 1 {
        "1"
    } else if d == 2 {
        "2"
    } else if d == 3 {
        "3"
    } else if d == 4 {
        "4"
    } else if d == 5 {
        "5"
    } else if d == 6 {
        "6"
    } else if d == 7 {
        "7"
    } else if d == 8 {
        "8"
    } else {
        "9"
    };
    assert(text@ =~= seq![digit_char(d as nat)]);
    text
}

/// Appends `n` in decimal.
fn append_decimal(out: &mut String, n: u32)
    ensures
        final(out)@ == old(out)@ + decimal(n as nat),
    decreases n,
{
    if n >= 10 {
        append_decimal(out, n / 10);
    }
    out.append(digit_text(n % 10));
    assert(out@ =~= old(out)@ + decimal(n as nat));
}

/// How the collection of a repeated id is named in messages.
pub open spec fn id_kind_name(kind: IdKind) -> Seq<char> {
    match kind {
        IdKind::Location => "location"@,
        IdKind::Species => "species"@,
        IdKind::Bait => "bait"@,
        IdKind::Rod => "rod"@,
        IdKind::BaitModifier => "bait modifier"@,
    }
}

fn id_kind_text(kind: IdKind) -> (text: &'static str)
    ensures
        text@ == id_kind_name(kind),
{
    match kind {
        IdKind::Location => "location",
        IdKind::Species => "species",
        IdKind::Bait => "bait",
        IdKind::Rod => "rod",
        IdKind::BaitModifier => "bait modifier",
    }
}

impl InvalidContent {
    /// The operator-facing message for the problem.
    pub open spec fn message_spec(self) -> Seq<char> {
        match self {
            InvalidContent::DuplicateId { kind, id } => "duplicate "@ + id_kind_name(kind) + " id "@
                + decimal(id as nat),
            InvalidContent::MissingLocation { location } => "required MVP location "@ + decimal(
                location as nat,
            ) + " is missing"@,
            InvalidContent::FishableWithoutEncounters { location } => "location "@ + decimal(
                location as nat,
            ) + ": fishable location has no encounters"@,
            InvalidContent::EncountersAtUnfishable { location } => "location "@ + decimal(
                location as nat,
            ) + ": non-fishable location has encounters"@,
            InvalidContent::ZeroEncounterWeight { location } => "location "@ + decimal(
                location as nat,
            ) + " has zero encounter weight"@,
            InvalidContent::UnknownEncounterSpecies { location, species } => "location "@ + decimal(
                location as nat,
            ) + " references unknown species "@ + decimal(species as nat),
            InvalidContent::MissingStarterBait => "starter bait 1 is missing"@,
            InvalidContent::MissingStarterRod => "starter rod 1 is missing"@,
            InvalidContent::FreeRod { rod } => "rod "@ + decimal(rod as nat) + " has zero buy price"@,
            InvalidContent::FreeBuyableBait { bait } => "buyable bait "@ + decimal(bait as nat)
                + " has zero buy price"@,
            InvalidContent::EmptyBaitPack { bait } => "bait "@ + decimal(bait as nat)
                + " has zero pack size"@,
            InvalidContent::InvalidLengthBounds { species } => "species "@ + decimal(species as nat)
                + " has invalid length bounds"@,
            InvalidContent::InvalidReactionWindows { species } => "species "@ + decimal(
                species as nat,
            ) + " has invalid reaction windows"@,
            InvalidContent::InvalidBiteDelay { species } => "species "@ + decimal(species as nat)
                + " has invalid bite delay"@,
            InvalidContent::UnknownModifierBait { species, bait } => "species "@ + decimal(
                species as nat,
            ) + " references unknown bait "@ + decimal(bait as nat),
        }
    }

    /// The operator-facing message for the problem, such as `duplicate rod id 2`.
    pub fn message(&self) -> (text: String)
        ensures
            text@ == self.message_spec(),
    {
        match *self {
            InvalidContent::DuplicateId { kind, id } => {
                let mut text = String::from_str("duplicate ");
                text.append(id_kind_text(kind));
                text.append(" id ");
                append_decimal(&mut text, id);
                text
            },
            InvalidContent::MissingLocation { location } => {
                let mut text = String::from_str("required MVP location ");
                append_decimal(&mut text, location);
                text.append(" is missing");
                text
            },
            InvalidContent::FishableWithoutEncounters { location } => {
                let mut text = String::from_str("location ");
                append_decimal(&mut text, location);
                text.append(": fishable location has no encounters");
                text
            },
            InvalidContent::EncountersAtUnfishable { location } => {
                let mut text = String::from_str("location ");
                append_decimal(&mut text, location);
                text.append(": non-fishable location has encounters");
                text
            },
            InvalidContent::ZeroEncounterWeight { location } => {
                let mut text = String::from_str("location ");
                append_decimal(&mut text, location);
                text.append(" has zero encounter weight");
                text
            },
            InvalidContent::UnknownEncounterSpecies { location, species } => {
                let mut text = String::from_str("location ");
                append_decimal(&mut text, location);
                text.append(" references unknown species ");
                append_decimal(&mut text, species);
                text
            },
            InvalidContent::MissingStarterBait => String::from_str("starter bait 1 is missing"),
            InvalidContent::MissingStarterRod => String::from_str("starter rod 1 is missing"),
            InvalidContent::FreeRod { rod } => {
                let mut text = String::from_str("rod ");
                append_decimal(&mut text, rod);
                text.append(" has zero buy price");
                text
            },
            InvalidContent::FreeBuyableBait { bait } => {
                let mut text = String::from_str("buyable bait ");
                append_decimal(&mut text, bait);
                text.append(" has zero buy price");
                text
            },
            InvalidContent::EmptyBaitPack { bait } => {
                let mut text = String::from_str("bait ");
                append_decimal(&mut text, bait);
                text.append(" has zero pack size");
                text
            },
            InvalidContent::InvalidLengthBounds { species } => {
                let mut text = String::from_str("species ");
                append_decimal(&mut text, species);
                text.append(" has invalid length bounds");
                text
            },
            InvalidContent::InvalidReactionWindows { species } => {
                let mut text = String::from_str("species ");
                append_decimal(&mut text, species);
                text.append(" has invalid reaction windows");
                text
            },
            InvalidContent::InvalidBiteDelay { species } => {
                let mut text = String::from_str("species ");
                append_decimal(&mut text, species);
                text.append(" has invalid bite delay");
                text
            },
            InvalidContent::UnknownModifierBait { species, bait } => {
                let mut text = String::from_str("species ");
                append_decimal(&mut text, species);
                text.append(" references unknown bait ");
                append_decimal(&mut text, bait);
                text
            },
        }
    }
}

} // verus!
