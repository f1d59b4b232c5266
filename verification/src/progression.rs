//! Experience and levels, earned titles, harbor milestones, daily contracts and the harbor warden.

use vstd::prelude::*;
use crate::content::{Content, Species};
use crate::error::GameError;
use crate::ids::{BaitId, SpeciesId};
use crate::sort::{has_key, strictly_sorted_by_key};
use crate::fishing::{Specimen, sale_value, sale_value_spec};
use crate::view::{
    CatchSummaryView, ContractView, JournalView, RecordEntryView, RecordsView, NpcView, ObjectiveView, RewardView, SpeciesDiscoveryView, TasksView,
    TitleOptionView, TitlesView,
};
use crate::world::{
    GAME_DAY_REAL_MS, game_day, game_day_spec, saturate_i64, saturating_add_i64,
    saturating_mul_i64, saturating_sub_i64,
};

verus! {

/// `r` is the integer square root of `n`: the largest `r` with `r * r <= n`.
pub open spec fn is_floor_sqrt(r: int, n: int) -> bool {
    0 <= r && r * r <= n && n < (r + 1) * (r + 1)
}

/// Integer square root, built up one unit at a time.
pub open spec fn floor_sqrt(n: nat) -> nat
    decreases n,
{
    if n == 0 {
        0
    } else {
        let r = floor_sqrt((n - 1) as nat);
        if (r + 1) * (r + 1) <= n {
            r + 1
        } else {
            r
        }
    }
}

/// Completing `k` levels takes `50 * k * k` experience, so the level is one more than the
/// integer square root of `xp / 50`.
pub open spec fn level_spec(xp: int) -> int {
    floor_sqrt((xp / 50) as nat) as int + 1
}

pub proof fn lemma_floor_sqrt(n: nat)
    ensures
        is_floor_sqrt(floor_sqrt(n) as int, n as int),
    decreases n,
{
    if n > 0 {
        lemma_floor_sqrt((n - 1) as nat);
        let r = floor_sqrt((n - 1) as nat) as int;
        assert((r + 1) * (r + 1) < (r + 2) * (r + 2)) by (nonlinear_arith)
            requires
                r >= 0,
        ;
        assert(floor_sqrt(n) == if (r + 1) * (r + 1) <= n { r + 1 } else { r });
    }
}

/// The integer square root is unique.
pub proof fn lemma_floor_sqrt_unique(r: int, s: int, n: int)
    requires
        is_floor_sqrt(r, n),
        is_floor_sqrt(s, n),
    ensures
        r == s,
{
    if r < s {
        assert((r + 1) * (r + 1) <= s * s) by (nonlinear_arith)
            requires
                0 <= r < s,
        ;
    } else if s < r {
        assert((s + 1) * (s + 1) <= r * r) by (nonlinear_arith)
            requires
                0 <= s < r,
        ;
    }
}

/// The integer square root never decreases as its argument grows.
pub proof fn lemma_floor_sqrt_monotone(a: nat, b: nat)
    requires
        a <= b,
    ensures
        floor_sqrt(a) <= floor_sqrt(b),
{
    lemma_floor_sqrt(a);
    lemma_floor_sqrt(b);
    let ra = floor_sqrt(a) as int;
    let rb = floor_sqrt(b) as int;
    if ra > rb {
        assert((rb + 1) * (rb + 1) <= ra * ra) by (nonlinear_arith)
            requires
                0 <= rb < ra,
        ;
    }
}

/// More experience never means a lower level.
pub proof fn lemma_level_monotone(a: int, b: int)
    requires
        0 <= a <= b,
    ensures
        level_spec(a) <= level_spec(b),
{
    assert(a / 50 <= b / 50) by (nonlinear_arith)
        requires
            0 <= a <= b,
    ;
    lemma_floor_sqrt_monotone((a / 50) as nat, (b / 50) as nat);
}

/// Exactly `50 * k * k` experience reaches level `k + 1`.
pub proof fn lemma_level_threshold(k: nat)
    ensures
        level_spec(50 * k * k as int) == k + 1,
        k > 0 ==> level_spec(50 * k * k as int - 1) == k,
{
    let n = 50 * k * k;
    assert(n / 50 == k * k) by (nonlinear_arith)
        requires
            n == 50 * k * k,
    ;
    lemma_floor_sqrt((k * k) as nat);
    assert(is_floor_sqrt(k as int, (k * k) as int)) by (nonlinear_arith);
    lemma_floor_sqrt_unique(floor_sqrt((k * k) as nat) as int, k as int, (k * k) as int);
    if k > 0 {
        let m = (n - 1) / 50;
        assert(m == k * k - 1) by (nonlinear_arith)
            requires
                n == 50 * k * k,
                k > 0,
                m == (n - 1) / 50,
        ;
        lemma_floor_sqrt(m as nat);
        assert(is_floor_sqrt(k - 1, m)) by (nonlinear_arith)
            requires
                m == k * k - 1,
                k > 0,
        ;
        lemma_floor_sqrt_unique(floor_sqrt(m as nat) as int, k - 1, m);
    }
}

/// Integer square root of `n` by bisection.
fn isqrt(n: u64) -> (r: u64)
    requires
        n < 0x1000_0000_0000_0000,
    ensures
        r == floor_sqrt(n as nat),
        r < 0x4000_0000,
{
    let mut lo: u64 = 0;
    let mut hi: u64 = 0x4000_0000;
    assert(0x4000_0000u64 * 0x4000_0000u64 == 0x1000_0000_0000_0000u64);
    while hi - lo > 1
        invariant
            lo < hi <= 0x4000_0000,
            lo * lo <= n,
            n < hi * hi,
        decreases hi - lo,
    {
        let mid = lo + (hi - lo) / 2;
        assert(mid * mid <= 0x1000_0000_0000_0000) by (nonlinear_arith)
            requires
                mid <= 0x4000_0000,
        ;
        if mid * mid <= n {
            lo = mid;
        } else {
            hi = mid;
        }
    }
    proof {
        assert(hi == lo + 1);
        lemma_floor_sqrt(n as nat);
        lemma_floor_sqrt_unique(lo as int, floor_sqrt(n as nat) as int, n as int);
    }
    lo
}

/// The level reached with `xp` total experience.
pub fn level_for_xp(xp: u64) -> (level: u32)
    ensures
        level == level_spec(xp as int),
        level >= 1,
{
    let completed = isqrt(xp / 50);
    (completed + 1) as u32
}

/// What an experience award leaves a character with.
#[derive(Clone, Copy, Debug, PartialEq, Eq, Structural)]
pub struct ProgressRecord {
    pub total_xp: u64,
    pub level: u32,
    pub level_up: bool,
}

/// Experience after an award: stored experience below zero counts as zero, and the total is
/// capped at what the store can hold (`i64::MAX`).
pub open spec fn awarded_xp(old_xp: i64, gained: u32) -> int {
    let base: int = if old_xp < 0 {
        0
    } else {
        old_xp as int
    };
    if base + gained > i64::MAX {
        i64::MAX as int
    } else {
        base + gained
    }
}

/// Awards `gained` experience to a character holding `old_xp` at level `old_level`.
pub fn progress_after(old_xp: i64, old_level: u32, gained: u32) -> (progress: ProgressRecord)
    ensures
        progress.total_xp == awarded_xp(old_xp, gained),
        progress.level == level_spec(progress.total_xp as int),
        progress.level_up == (progress.level > old_level),
{
    let base: u64 = if old_xp < 0 {
        0
    } else {
        old_xp as u64
    };
    let sum = base + gained as u64;
    let total_xp = if sum > 0x7FFF_FFFF_FFFF_FFFF {
        0x7FFF_FFFF_FFFF_FFFFu64
    } else {
        sum
    };
    let level = level_for_xp(total_xp);
    ProgressRecord { total_xp, level, level_up: level > old_level }
}

/// An award never lowers experience or level, whatever the stored experience was.
pub proof fn lemma_award_never_lowers(old_xp: i64, gained: u32)
    ensures
        awarded_xp(old_xp, gained) >= old_xp,
        old_xp >= 0 ==> level_spec(awarded_xp(old_xp, gained)) >= level_spec(old_xp as int),
{
    if old_xp >= 0 {
        lemma_level_monotone(old_xp as int, awarded_xp(old_xp, gained));
    }
}

/// Number of titles; title ids are `0..TITLE_COUNT` and are persisted, so they never change.
pub const TITLE_COUNT: u32 = 7;

/// Name and description of each title, by id.
pub open spec fn title_text(id: int) -> (Seq<char>, Seq<char>) {
    if id == 0 {
        ("No title"@, "Display no earned title."@)
    } else if id == 1 {
        ("Angler"@, "Land at least 10 catches."@)
    } else if id == 2 {
        ("Naturalist"@, "Discover at least 10 species."@)
    } else if id == 3 {
        ("Relic Hunter"@, "Discover the Rusted Key."@)
    } else if id == 4 {
        ("Harbor Hand"@, "Claim all three harbor milestones."@)
    } else if id == 5 {
        ("Covekeeper"@, "Discover Lighthouse Cove."@)
    } else {
        ("Shoalbound"@, "Take part in a group-chat shoal."@)
    }
}

/// The name and description of title `id`, if there is such a title.
pub fn title_definition(id: u32) -> (definition: Option<(&'static str, &'static str)>)
    ensures
        definition is Some <==> id < TITLE_COUNT,
        definition matches Some((name, description)) ==> name@ == title_text(id as int).0
            && description@ == title_text(id as int).1,
{
    match id {
        0 => Some(("No title", "Display no earned title.")),
        1 => Some(("Angler", "Land at least 10 catches.")),
        2 => Some(("Naturalist", "Discover at least 10 species.")),
        3 => Some(("Relic Hunter", "Discover the Rusted Key.")),
        4 => Some(("Harbor Hand", "Claim all three harbor milestones.")),
        5 => Some(("Covekeeper", "Discover Lighthouse Cove.")),
        6 => Some(("Shoalbound", "Take part in a group-chat shoal.")),
        _ => None,
    }
}

/// A character's record, as far as title unlocks depend on it.
#[derive(Clone, Copy, Debug, PartialEq, Eq, Structural)]
pub struct TitleProgress {
    /// Catches ever landed.
    pub catches: u32,
    /// Species discovered.
    pub species: u32,
    /// Whether the Rusted Key relic was discovered.
    pub relic: bool,
    /// Harbor milestones claimed.
    pub objectives: u32,
    /// Whether Lighthouse Cove was discovered.
    pub cove: bool,
    /// Whether the character ever joined a group shoal.
    pub group: bool,
}

/// Which titles a record unlocks, indexed by title id.
pub open spec fn unlocks_spec(record: TitleProgress) -> Seq<bool> {
    seq![
        true,
        record.catches >= 10,
        record.species >= 10,
        record.relic,
        record.objectives >= 3,
        record.cove,
        record.group,
    ]
}

/// Which titles `record` unlocks; index `i` is title `i`.
pub fn title_unlocks(record: TitleProgress) -> (unlocks: [bool; 7])
    ensures
        unlocks@ == unlocks_spec(record),
{
    let unlocks = [
        true,
        record.catches >= 10,
        record.species >= 10,
        record.relic,
        record.objectives >= 3,
        record.cove,
        record.group,
    ];
    assert(unlocks@ =~= unlocks_spec(record));
    unlocks
}

/// `option` lists title `id` as the titles screen shows it.
pub open spec fn title_option_matches(
    option: TitleOptionView,
    id: int,
    equipped_id: u32,
    unlocks: Seq<bool>,
) -> bool {
    &&& option.id == id
    &&& option.name@ == title_text(id).0
    &&& option.description@ == title_text(id).1
    &&& option.unlocked == unlocks[id]
    &&& option.equipped == (equipped_id == id)
}

/// Every title in id order, with whether it is unlocked and which one is equipped.
pub fn build_titles(equipped_id: u32, unlocks: [bool; 7]) -> (view: TitlesView)
    ensures
        view.titles@.len() == TITLE_COUNT,
        forall|i: int|
            0 <= i < TITLE_COUNT ==> title_option_matches(
                #[trigger] view.titles@[i],
                i,
                equipped_id,
                unlocks@,
            ),
{
    let mut titles: Vec<TitleOptionView> = Vec::new();
    let mut id: u32 = 0;
    while id < TITLE_COUNT
        invariant
            id <= TITLE_COUNT,
            titles@.len() == id,
            forall|i: int|
                0 <= i < id ==> title_option_matches(
                    #[trigger] titles@[i],
                    i,
                    equipped_id,
                    unlocks@,
                ),
        decreases TITLE_COUNT - id,
    {
        match title_definition(id) {
            Some((name, description)) => {
                titles.push(
                    TitleOptionView {
                        id,
                        name,
                        description,
                        unlocked: unlocks[id as usize],
                        equipped: equipped_id == id,
                    },
                );
            },
            None => {},
        }
        id = id + 1;
    }
    TitlesView { titles }
}

/// Equipping title `title_id`, given the unlocks of the character if there is one: unknown
/// titles are refused first, then missing characters, then locked titles.
pub fn equip_title_outcome(title_id: u32, character_unlocks: Option<[bool; 7]>) -> (outcome:
    Result<TitlesView, GameError>)
    ensures
        title_id >= TITLE_COUNT ==> outcome == Err::<TitlesView, GameError>(GameError::UnknownTitle),
        title_id < TITLE_COUNT && character_unlocks is None ==> outcome == Err::<
            TitlesView,
            GameError,
        >(GameError::CharacterMissing),
        title_id < TITLE_COUNT && character_unlocks is Some && !character_unlocks->0@[title_id as int]
            ==> outcome == Err::<TitlesView, GameError>(GameError::TitleLocked),
        outcome is Ok <==> (title_id < TITLE_COUNT && character_unlocks is Some
            && character_unlocks->0@[title_id as int]),
        outcome matches Ok(view) ==> view.titles@.len() == TITLE_COUNT && forall|i: int|
            0 <= i < TITLE_COUNT ==> title_option_matches(
                #[trigger] view.titles@[i],
                i,
                title_id,
                character_unlocks->0@,
            ),
{
    if title_id >= TITLE_COUNT {
        return Err(GameError::UnknownTitle);
    }
    match character_unlocks {
        None => Err(GameError::CharacterMissing),
        Some(unlocks) => {
            if !unlocks[title_id as usize] {
                Err(GameError::TitleLocked)
            } else {
                Ok(build_titles(title_id, unlocks))
            }
        },
    }
}

pub const OBJECTIVE_FIRST_HAUL: u32 = 1;

pub const OBJECTIVE_FIELD_NOTES: u32 = 2;

pub const OBJECTIVE_DEEP_WATER: u32 = 3;

/// A harbor milestone on the board.
#[derive(Clone, Copy, Debug)]
pub struct ObjectiveDefinition {
    pub id: u32,
    pub name: &'static str,
    pub description: &'static str,
    pub reward: &'static str,
    pub reward_title: &'static str,
    pub reward_text: &'static str,
    pub target: u32,
    pub coins: u32,
    pub xp: u32,
    pub bait_reward: Option<(BaitId, u32)>,
}

/// Texts of milestone `id`: name, description, reward, reward title, reward text.
pub open spec fn objective_texts(id: int) -> (Seq<char>, Seq<char>, Seq<char>, Seq<char>, Seq<char>) {
    if id == 1 {
        (
            "First Haul"@,
            "Catch any five fish."@,
            "25 coins + 20 XP"@,
            "First Haul complete"@,
            "Mara pays for proof that you can keep a line wet without supervision."@,
        )
    } else if id == 2 {
        (
            "Field Notes"@,
            "Record six different species in your journal."@,
            "5 Glow Larvae + 30 XP"@,
            "Field Notes complete"@,
            "Your notes are useful enough that Mara hands over five Glow Larvae from the research box."@,
        )
    } else {
        (
            "Deep Water"@,
            "Land a difficulty-11+ fish at the Broken Breakwater."@,
            "50 coins + 35 XP"@,
            "Deep Water complete"@,
            "Landing something serious off the breakwater earns a proper harbor bounty."@,
        )
    }
}

/// Target, coin reward, experience reward and bait reward of milestone `id`.
pub open spec fn objective_terms(id: int) -> (u32, u32, u32, Option<(BaitId, u32)>) {
    if id == 1 {
        (5, 25, 20, None)
    } else if id == 2 {
        (6, 0, 30, Some((BaitId(3), 5)))
    } else {
        (1, 50, 35, None)
    }
}

/// `objective` is milestone `id` as the board defines it.
pub open spec fn objective_matches(objective: ObjectiveDefinition, id: int) -> bool {
    &&& objective.id == id
    &&& objective.name@ == objective_texts(id).0
    &&& objective.description@ == objective_texts(id).1
    &&& objective.reward@ == objective_texts(id).2
    &&& objective.reward_title@ == objective_texts(id).3
    &&& objective.reward_text@ == objective_texts(id).4
    &&& objective.target == objective_terms(id).0
    &&& objective.coins == objective_terms(id).1
    &&& objective.xp == objective_terms(id).2
    &&& objective.bait_reward == objective_terms(id).3
}

/// Milestone `id`, if the board has one (ids 1 to 3).
pub fn objective_definition(id: u32) -> (objective: Option<ObjectiveDefinition>)
    ensures
        objective is Some <==> 1 <= id <= 3,
        objective matches Some(o) ==> objective_matches(o, id as int),
{
    match id {
        1 => Some(
            ObjectiveDefinition {
                id: OBJECTIVE_FIRST_HAUL,
                name: "First Haul",
                description: "Catch any five fish.",
                reward: "25 coins + 20 XP",
                reward_title: "First Haul complete",
                reward_text: "Mara pays for proof that you can keep a line wet without supervision.",
                target: 5,
                coins: 25,
                xp: 20,
                bait_reward: None,
            },
        ),
        2 => Some(
            ObjectiveDefinition {
                id: OBJECTIVE_FIELD_NOTES,
                name: "Field Notes",
                description: "Record six different species in your journal.",
                reward: "5 Glow Larvae + 30 XP",
                reward_title: "Field Notes complete",
                reward_text: "Your notes are useful enough that Mara hands over five Glow Larvae from the research box.",
                target: 6,
                coins: 0,
                xp: 30,
                bait_reward: Some((BaitId(3), 5)),
            },
        ),
        3 => Some(
            ObjectiveDefinition {
                id: OBJECTIVE_DEEP_WATER,
                name: "Deep Water",
                description: "Land a difficulty-11+ fish at the Broken Breakwater.",
                reward: "50 coins + 35 XP",
                reward_title: "Deep Water complete",
                reward_text: "Landing something serious off the breakwater earns a proper harbor bounty.",
                target: 1,
                coins: 50,
                xp: 35,
                bait_reward: None,
            },
        ),
        _ => None,
    }
}

/// What milestone progress is measured on.
#[derive(Clone, Copy, Debug, PartialEq, Eq, Structural)]
pub struct ObjectiveRecord {
    /// Catches ever landed.
    pub catches: u32,
    /// Species recorded in the journal.
    pub species: u32,
    /// Whether a difficulty-11+ species was ever landed at the Broken Breakwater.
    pub deep_water: bool,
}

/// Progress toward milestone `id`, before it is capped at the target.
pub open spec fn raw_progress(id: int, record: ObjectiveRecord) -> int {
    if id == 1 {
        record.catches as int
    } else if id == 2 {
        record.species as int
    } else if id == 3 {
        if record.deep_water {
            1
        } else {
            0
        }
    } else {
        0
    }
}

/// Progress toward a milestone, capped at its target.
pub fn objective_progress(objective: &ObjectiveDefinition, record: ObjectiveRecord) -> (progress:
    u32)
    ensures
        progress == if raw_progress(objective.id as int, record) < objective.target {
            raw_progress(objective.id as int, record)
        } else {
            objective.target as int
        },
{
    let raw: u32 = if objective.id == OBJECTIVE_FIRST_HAUL {
        record.catches
    } else if objective.id == OBJECTIVE_FIELD_NOTES {
        record.species
    } else if objective.id == OBJECTIVE_DEEP_WATER {
        if record.deep_water {
            1
        } else {
            0
        }
    } else {
        0
    };
    if raw < objective.target {
        raw
    } else {
        objective.target
    }
}

/// Whether any of the species landed at the Broken Breakwater has difficulty 11 or more.
pub fn landed_deep_water(content: &Content, breakwater_species: &[SpeciesId]) -> (found: bool)
    requires
        strictly_sorted_by_key(content.species@),
        forall|i: int|
            0 <= i < breakwater_species@.len() ==> has_key(
                content.species@,
                (#[trigger] breakwater_species@[i]).0 as int,
            ),
    ensures
        found <==> exists|i: int|
            0 <= i < breakwater_species@.len() && content.species_spec(
                #[trigger] breakwater_species@[i],
            ).difficulty >= 11,
{
    let mut i: usize = 0;
    while i < breakwater_species.len()
        invariant
            i <= breakwater_species@.len(),
            strictly_sorted_by_key(content.species@),
            forall|j: int|
                0 <= j < breakwater_species@.len() ==> has_key(
                    content.species@,
                    (#[trigger] breakwater_species@[j]).0 as int,
                ),
            forall|j: int|
                0 <= j < i ==> content.species_spec(#[trigger] breakwater_species@[j]).difficulty
                    < 11,
        decreases breakwater_species@.len() - i,
    {
        let species = content.species(breakwater_species[i]);
        if species.difficulty >= 11 {
            return true;
        }
        i = i + 1;
    }
    false
}

/// Coins, experience and level of a character, as stored.
#[derive(Clone, Copy, Debug, PartialEq, Eq, Structural)]
pub struct CharacterStanding {
    pub coins: i64,
    pub xp: i64,
    pub level: u32,
}

/// Coins shown after a reward: stored coins below zero count as zero.
pub open spec fn coins_after(coins: i64, gained: u32) -> int {
    (if coins < 0 {
        0
    } else {
        coins as int
    }) + gained
}

fn add_coins(coins: i64, gained: u32) -> (total: u64)
    ensures
        total == coins_after(coins, gained),
{
    let base: u64 = if coins < 0 {
        0
    } else {
        coins as u64
    };
    base + gained as u64
}

/// What claiming a milestone grants and shows.
#[derive(Debug)]
pub struct ObjectiveClaim {
    pub reward: RewardView,
    pub coins_gained: u32,
    pub bait_reward: Option<(BaitId, u32)>,
    pub progress: ProgressRecord,
}

/// Why claiming milestone `objective_id` is refused, if it is: an unknown milestone, then no
/// character, then a claim already recorded, then progress short of the target.
pub open spec fn objective_refusal(objective_id: u32, has_character: bool, claimed: bool, record: ObjectiveRecord) -> Option<
    GameError,
> {
    if !(1 <= objective_id <= 3) {
        Some(GameError::UnknownObjective)
    } else if !has_character {
        Some(GameError::CharacterMissing)
    } else if claimed {
        Some(GameError::ObjectiveClaimed)
    } else if raw_progress(objective_id as int, record) < objective_terms(objective_id as int).0 {
        Some(GameError::ObjectiveIncomplete)
    } else {
        None
    }
}

/// A milestone pays once: after a claim of it succeeded and the claim was recorded, claiming it
/// again is refused with `ObjectiveClaimed`, whatever progress was made since.
pub proof fn lemma_milestone_claimed_once(objective_id: u32, record: ObjectiveRecord, later: ObjectiveRecord)
    requires
        objective_refusal(objective_id, true, false, record) is None,
    ensures
        objective_refusal(objective_id, true, true, later) == Some(GameError::ObjectiveClaimed),
{
}

/// Claiming milestone `objective_id`. Refusals come in this order: unknown milestone, missing
/// character, already claimed, not complete.
pub fn claim_objective_outcome(
    objective_id: u32,
    character: Option<CharacterStanding>,
    claimed: bool,
    record: ObjectiveRecord,
) -> (outcome: Result<ObjectiveClaim, GameError>)
    ensures
        !(1 <= objective_id <= 3) ==> outcome matches Err(GameError::UnknownObjective),
        1 <= objective_id <= 3 && character is None ==> outcome matches Err(
            GameError::CharacterMissing,
        ),
        1 <= objective_id <= 3 && character is Some && claimed ==> outcome matches Err(
            GameError::ObjectiveClaimed,
        ),
        1 <= objective_id <= 3 && character is Some && !claimed && raw_progress(
            objective_id as int,
            record,
        ) < objective_terms(objective_id as int).0 ==> outcome matches Err(
            GameError::ObjectiveIncomplete,
        ),
        outcome is Ok <==> (1 <= objective_id <= 3 && character is Some && !claimed
            && raw_progress(objective_id as int, record) >= objective_terms(objective_id as int).0),
        match objective_refusal(objective_id, character is Some, claimed, record) {
            Some(refusal) => outcome == Err::<ObjectiveClaim, GameError>(refusal),
            None => outcome is Ok,
        },
        outcome matches Ok(claim) ==> {
            let c = character->0;
            let terms = objective_terms(objective_id as int);
            &&& claim.coins_gained == terms.1
            &&& claim.bait_reward == terms.3
            &&& claim.progress.total_xp == awarded_xp(c.xp, terms.2)
            &&& claim.progress.level == level_spec(claim.progress.total_xp as int)
            &&& claim.progress.level_up == (claim.progress.level > c.level)
            &&& claim.reward.title@ == objective_texts(objective_id as int).3
            &&& claim.reward.text@ == objective_texts(objective_id as int).4
            &&& claim.reward.coins == coins_after(c.coins, terms.1)
            &&& claim.reward.xp == claim.progress.total_xp
            &&& claim.reward.level == claim.progress.level
            &&& claim.reward.level_up == claim.progress.level_up
        },
{
    let objective = match objective_definition(objective_id) {
        Some(o) => o,
        None => return Err(GameError::UnknownObjective),
    };
    let standing = match character {
        Some(c) => c,
        None => return Err(GameError::CharacterMissing),
    };
    if claimed {
        return Err(GameError::ObjectiveClaimed);
    }
    if objective_progress(&objective, record) < objective.target {
        return Err(GameError::ObjectiveIncomplete);
    }
    let progress = progress_after(standing.xp, standing.level, objective.xp);
    let reward = RewardView {
        title: objective.reward_title,
        text: String::from_str(objective.reward_text),
        coins: add_coins(standing.coins, objective.coins),
        xp: progress.total_xp,
        level: progress.level,
        level_up: progress.level_up,
    };
    Ok(ObjectiveClaim { reward, coins_gained: objective.coins, bait_reward: objective.bait_reward, progress })
}

/// The species wanted by the harbor contract of game day `cycle`: the three harbor species
/// take turns.
pub open spec fn contract_species_spec(cycle: int) -> SpeciesId {
    if cycle % 3 == 0 {
        SpeciesId(1)
    } else if cycle % 3 == 1 {
        SpeciesId(2)
    } else {
        SpeciesId(3)
    }
}

pub fn contract_species(cycle: i64) -> (species: SpeciesId)
    ensures
        species == contract_species_spec(cycle as int),
{
    match cycle.checked_rem_euclid(3) {
        Some(0) => SpeciesId(1),
        Some(1) => SpeciesId(2),
        _ => SpeciesId(3),
    }
}

/// Coins paid for a contract specimen: four times its base value plus eight, capped at
/// `u32::MAX`.
pub open spec fn contract_reward_coins_spec(species: Species) -> int {
    let v = species.base_value * 4 + 8;
    if v > u32::MAX {
        u32::MAX as int
    } else {
        v
    }
}

pub fn contract_reward_coins(species: &Species) -> (coins: u32)
    ensures
        coins == contract_reward_coins_spec(*species),
{
    match species.base_value.checked_mul(4) {
        Some(v) => match v.checked_add(8) {
            Some(w) => w,
            None => u32::MAX,
        },
        None => u32::MAX,
    }
}

/// Experience for a contract specimen: its own experience plus twelve, capped at `u32::MAX`.
pub open spec fn contract_reward_xp_spec(species: Species) -> int {
    if species.xp + 12 > u32::MAX {
        u32::MAX as int
    } else {
        species.xp + 12
    }
}

pub fn contract_reward_xp(species: &Species) -> (xp: u32)
    ensures
        xp == contract_reward_xp_spec(*species),
{
    match species.xp.checked_add(12) {
        Some(v) => v,
        None => u32::MAX,
    }
}

/// Milliseconds from `now_ms` until the next game day starts (never negative).
pub open spec fn day_resets_in(now_ms: i64) -> int {
    let next = saturate_i64(saturate_i64(game_day_spec(now_ms) + 1) * GAME_DAY_REAL_MS);
    let left = saturate_i64(next - now_ms);
    if left < 0 {
        0
    } else {
        left as int
    }
}

/// The harbor contract of the game day containing `now_ms`, for a character who has or has not
/// settled it yet and does or does not hold a matching specimen.
pub fn contract_view(content: &Content, now_ms: i64, claimed: bool, holds_specimen: bool) -> (view:
    ContractView)
    requires
        strictly_sorted_by_key(content.species@),
        has_key(content.species@, contract_species_spec(game_day_spec(now_ms)).0 as int),
    ensures
        ({
            let species = content.species_spec(contract_species_spec(game_day_spec(now_ms)));
            &&& view.species_name@ == species.name@
            &&& view.reward_coins == contract_reward_coins_spec(species)
            &&& view.reward_xp == contract_reward_xp_spec(species)
            &&& view.ready == (!claimed && holds_specimen)
            &&& view.claimed == claimed
            &&& view.resets_in_ms == day_resets_in(now_ms)
        }),
{
    let cycle = game_day(now_ms);
    let species = content.species(contract_species(cycle));
    let next_cycle = saturating_mul_i64(saturating_add_i64(cycle, 1), GAME_DAY_REAL_MS);
    let left = saturating_sub_i64(next_cycle, now_ms);
    ContractView {
        species_name: species.name.clone(),
        reward_coins: contract_reward_coins(species),
        reward_xp: contract_reward_xp(species),
        ready: !claimed && holds_specimen,
        claimed,
        resets_in_ms: if left < 0 {
            0
        } else {
            left
        },
    }
}

/// What the warden says about today's contract.
pub open spec fn contract_hint_spec(contract: ContractView) -> Seq<char> {
    if contract.claimed {
        "Today's harbor contract is already settled. The board will rotate with the next game day."@
    } else if contract.ready {
        "You already have the "@ + contract.species_name@
            + " I asked for. Bring it to the board when you're ready."@
    } else {
        "The current harbor contract is for one "@ + contract.species_name@
            + ". I only need an ordinary specimen."@
    }
}

pub fn contract_hint(contract: &ContractView) -> (hint: String)
    ensures
        hint@ == contract_hint_spec(*contract),
{
    if contract.claimed {
        String::from_str(
            "Today's harbor contract is already settled. The board will rotate with the next game day.",
        )
    } else if contract.ready {
        String::from_str("You already have the ").concat(contract.species_name.as_str()).concat(
            " I asked for. Bring it to the board when you're ready.",
        )
    } else {
        String::from_str("The current harbor contract is for one ").concat(
            contract.species_name.as_str(),
        ).concat(". I only need an ordinary specimen.")
    }
}

/// What the warden tells a character, by how far the lighthouse story has gone: the furthest
/// step reached wins.
pub open spec fn npc_story_spec(has_key: bool, knows_lighthouse: bool, knows_cove: bool) -> Seq<
    char,
> {
    if knows_cove {
        "So the old service stair really does reach the water. Keep what you find down there catalogued; half this harbor was built by people nobody remembers."@
    } else if knows_lighthouse {
        "If that key belongs anywhere, it belongs up at the lighthouse. The old keepers used maintenance passages that don't appear on modern charts."@
    } else if has_key {
        "That's a lighthouse key, or what's left of one. I saw the same crest on the breakwater plates when I was a kid. Look around those stones carefully."@
    } else {
        "Fishing keeps this place fed, but attention keeps you alive. Watch the weather, write down what bites, and don't assume the harbor ends at the last pier."@
    }
}

pub fn npc_story(has_key: bool, knows_lighthouse: bool, knows_cove: bool) -> (story: &'static str)
    ensures
        story@ == npc_story_spec(has_key, knows_lighthouse, knows_cove),
{
    if knows_cove {
        "So the old service stair really does reach the water. Keep what you find down there catalogued; half this harbor was built by people nobody remembers."
    } else if knows_lighthouse {
        "If that key belongs anywhere, it belongs up at the lighthouse. The old keepers used maintenance passages that don't appear on modern charts."
    } else if has_key {
        "That's a lighthouse key, or what's left of one. I saw the same crest on the breakwater plates when I was a kid. Look around those stones carefully."
    } else {
        "Fishing keeps this place fed, but attention keeps you alive. Watch the weather, write down what bites, and don't assume the harbor ends at the last pier."
    }
}

/// The reminder added to the hint when specimens are still stored.
pub open spec fn bench_reminder() -> Seq<char> {
    " And don't sell everything blindly\u{2014}the tackle bench can turn ordinary specimens into useful bait."@
}

/// Where the character stands and what it knows of the lighthouse story.
#[derive(Clone, Copy, Debug, PartialEq, Eq, Structural)]
pub struct StoryProgress {
    pub at_harbor: bool,
    pub has_key: bool,
    pub knows_lighthouse: bool,
    pub knows_cove: bool,
}

/// Talking to the warden: she is only at the Old Harbor.
pub fn npc_outcome(character: Option<StoryProgress>, contract: &ContractView, stored_catches: u32) -> (outcome:
    Result<NpcView, GameError>)
    ensures
        character is None ==> outcome matches Err(GameError::CharacterMissing),
        character matches Some(c) && !c.at_harbor ==> outcome matches Err(GameError::NoNpcHere),
        outcome is Ok <==> (character is Some && character->0.at_harbor),
        outcome matches Ok(view) ==> {
            let c = character->0;
            &&& view.name@ == "Mara"@
            &&& view.title@ == "Harbor Warden"@
            &&& view.text@ == npc_story_spec(c.has_key, c.knows_lighthouse, c.knows_cove)
            &&& view.hint@ == if stored_catches > 0 {
                contract_hint_spec(*contract) + bench_reminder()
            } else {
                contract_hint_spec(*contract)
            }
        },
{
    let progress = match character {
        Some(c) => c,
        None => return Err(GameError::CharacterMissing),
    };
    if !progress.at_harbor {
        return Err(GameError::NoNpcHere);
    }
    let story = npc_story(progress.has_key, progress.knows_lighthouse, progress.knows_cove);
    let mut hint = contract_hint(contract);
    if stored_catches > 0 {
        hint.append(
            " And don't sell everything blindly\u{2014}the tackle bench can turn ordinary specimens into useful bait.",
        );
    }
    Ok(NpcView { name: "Mara", title: "Harbor Warden", text: String::from_str(story), hint })
}

/// A stored specimen a contract may take.
#[derive(Clone, Copy, Debug, PartialEq, Eq, Structural)]
pub struct StoredSpecimen {
    pub item_id: i64,
    pub weight_g: u32,
    pub caught_at_ms: i64,
}

/// `a` goes before `b`: lighter first, then caught earlier, then the older item.
pub open spec fn retired_before(a: StoredSpecimen, b: StoredSpecimen) -> bool {
    a.weight_g < b.weight_g || (a.weight_g == b.weight_g && (a.caught_at_ms < b.caught_at_ms || (
    a.caught_at_ms == b.caught_at_ms && a.item_id < b.item_id)))
}

/// The specimen a contract retires: the first in `retired_before` order, so a contract never
/// takes a better catch while a smaller one is stored.
pub fn contract_specimen(candidates: &[StoredSpecimen]) -> (chosen: Option<i64>)
    ensures
        chosen is None <==> candidates@.len() == 0,
        chosen matches Some(item_id) ==> exists|i: int|
            0 <= i < candidates@.len() && #[trigger] candidates@[i].item_id == item_id && forall|j: int|
                0 <= j < candidates@.len() ==> !retired_before(#[trigger] candidates@[j], candidates@[i]),
{
    if candidates.len() == 0 {
        return None;
    }
    let mut best: usize = 0;
    let mut k: usize = 1;
    while k < candidates.len()
        invariant
            1 <= k <= candidates@.len(),
            best < k,
            forall|j: int| 0 <= j < k ==> !retired_before(#[trigger] candidates@[j], candidates@[best as int]),
        decreases candidates@.len() - k,
    {
        let c = candidates[k];
        let b = candidates[best];
        if c.weight_g < b.weight_g || (c.weight_g == b.weight_g && (c.caught_at_ms < b.caught_at_ms || (
        c.caught_at_ms == b.caught_at_ms && c.item_id < b.item_id))) {
            best = k;
        }
        k = k + 1;
    }
    Some(candidates[best].item_id)
}

/// The retired specimen is never heavier than any stored specimen of the wanted species.
pub proof fn lemma_contract_takes_the_lightest(candidates: Seq<StoredSpecimen>, i: int)
    requires
        0 <= i < candidates.len(),
        forall|j: int| 0 <= j < candidates.len() ==> !retired_before(#[trigger] candidates[j], candidates[i]),
    ensures
        forall|j: int| 0 <= j < candidates.len() ==> candidates[i].weight_g <= #[trigger] candidates[j].weight_g,
{
}

/// What turning in a harbor contract grants and shows.
#[derive(Debug)]
pub struct ContractTurnIn {
    pub reward: RewardView,
    /// The stored specimen that is retired.
    pub item_id: i64,
    pub species_id: SpeciesId,
    pub coins_gained: u32,
    pub progress: ProgressRecord,
}

/// Turning in today's contract with `smallest_specimen`, the lightest stored catch of the wanted
/// species, if there is one. Refusals come in this order: missing character, already settled
/// today, no matching specimen.
pub fn turn_in_contract_outcome(
    content: &Content,
    now_ms: i64,
    character: Option<CharacterStanding>,
    claimed: bool,
    smallest_specimen: Option<i64>,
) -> (outcome: Result<ContractTurnIn, GameError>)
    requires
        strictly_sorted_by_key(content.species@),
        has_key(content.species@, contract_species_spec(game_day_spec(now_ms)).0 as int),
    ensures
        character is None ==> outcome matches Err(GameError::CharacterMissing),
        character is Some && claimed ==> outcome matches Err(GameError::ContractClaimed),
        character is Some && !claimed && smallest_specimen is None ==> outcome matches Err(
            GameError::ContractNotReady,
        ),
        outcome is Ok <==> (character is Some && !claimed && smallest_specimen is Some),
        outcome matches Ok(turn_in) ==> {
            let c = character->0;
            let species_id = contract_species_spec(game_day_spec(now_ms));
            let species = content.species_spec(species_id);
            &&& turn_in.item_id == smallest_specimen->0
            &&& turn_in.species_id == species_id
            &&& turn_in.coins_gained == contract_reward_coins_spec(species)
            &&& turn_in.progress.total_xp == awarded_xp(c.xp, contract_reward_xp_spec(species) as u32)
            &&& turn_in.progress.level == level_spec(turn_in.progress.total_xp as int)
            &&& turn_in.progress.level_up == (turn_in.progress.level > c.level)
            &&& turn_in.reward.title@ == "Harbor contract complete"@
            &&& turn_in.reward.text@ == "Mara accepts your smallest stored "@ + species.name@
                + " specimen. Better specimens stay in your collection."@
            &&& turn_in.reward.coins == coins_after(c.coins, turn_in.coins_gained)
            &&& turn_in.reward.xp == turn_in.progress.total_xp
            &&& turn_in.reward.level == turn_in.progress.level
            &&& turn_in.reward.level_up == turn_in.progress.level_up
        },
{
    let standing = match character {
        Some(c) => c,
        None => return Err(GameError::CharacterMissing),
    };
    if claimed {
        return Err(GameError::ContractClaimed);
    }
    let item_id = match smallest_specimen {
        Some(id) => id,
        None => return Err(GameError::ContractNotReady),
    };
    let species_id = contract_species(game_day(now_ms));
    let species = content.species(species_id);
    let coins_gained = contract_reward_coins(species);
    let progress = progress_after(standing.xp, standing.level, contract_reward_xp(species));
    let text = String::from_str("Mara accepts your smallest stored ").concat(species.name.as_str()).concat(
        " specimen. Better specimens stay in your collection.",
    );
    let reward = RewardView {
        title: "Harbor contract complete",
        text,
        coins: add_coins(standing.coins, coins_gained),
        xp: progress.total_xp,
        level: progress.level,
        level_up: progress.level_up,
    };
    Ok(ContractTurnIn { reward, item_id, species_id, coins_gained, progress })
}

/// `id` occurs in `ids`.
pub open spec fn listed(ids: Seq<u32>, id: u32) -> bool {
    exists|i: int| 0 <= i < ids.len() && ids[i] == id
}

fn is_listed(ids: &[u32], id: u32) -> (found: bool)
    ensures
        found == listed(ids@, id),
{
    let mut i: usize = 0;
    while i < ids.len()
        invariant
            i <= ids@.len(),
            forall|j: int| 0 <= j < i ==> ids@[j] != id,
        decreases ids@.len() - i,
    {
        if ids[i] == id {
            return true;
        }
        i = i + 1;
    }
    false
}

/// `view` shows milestone `id` with the given record and claims.
pub open spec fn objective_view_matches(
    view: ObjectiveView,
    id: int,
    record: ObjectiveRecord,
    claimed_ids: Seq<u32>,
) -> bool {
    let target = objective_terms(id).0;
    let progress = if raw_progress(id, record) < target {
        raw_progress(id, record)
    } else {
        target as int
    };
    &&& view.id == id
    &&& view.name@ == objective_texts(id).0
    &&& view.description@ == objective_texts(id).1
    &&& view.reward@ == objective_texts(id).2
    &&& view.target == target
    &&& view.progress == progress
    &&& view.completed == (progress >= target)
    &&& view.claimed == listed(claimed_ids, id as u32)
}

/// The harbor board: every milestone in id order with its progress and claim, and today's
/// contract.
pub fn tasks_view(record: ObjectiveRecord, claimed_ids: &[u32], contract: ContractView) -> (view:
    TasksView)
    ensures
        view.objectives@.len() == 3,
        forall|i: int|
            0 <= i < 3 ==> objective_view_matches(
                #[trigger] view.objectives@[i],
                i + 1,
                record,
                claimed_ids@,
            ),
        view.contract == contract,
{
    let mut objectives: Vec<ObjectiveView> = Vec::new();
    let mut id: u32 = 1;
    while id <= 3
        invariant
            1 <= id <= 4,
            objectives@.len() == id - 1,
            forall|i: int|
                0 <= i < id - 1 ==> objective_view_matches(
                    #[trigger] objectives@[i],
                    i + 1,
                    record,
                    claimed_ids@,
                ),
        decreases 4 - id,
    {
        match objective_definition(id) {
            Some(definition) => {
                let progress = objective_progress(&definition, record);
                objectives.push(
                    ObjectiveView {
                        id: definition.id,
                        name: definition.name,
                        description: definition.description,
                        progress,
                        target: definition.target,
                        reward: definition.reward,
                        completed: progress >= definition.target,
                        claimed: is_listed(claimed_ids, definition.id),
                    },
                );
            },
            None => {},
        }
        id = id + 1;
    }
    TasksView { objectives, contract }
}

/// The journal entry of a species: `Some(best)` when it was discovered, with the heaviest
/// specimen ever owned if there is one. The first matching entry counts.
pub open spec fn discovery_of(discoveries: Seq<(SpeciesId, Option<u32>)>, id: SpeciesId) -> Option<
    Option<u32>,
> {
    if exists|i: int| 0 <= i < discoveries.len() && discoveries[i].0 == id {
        let i = choose|i: int|
            0 <= i < discoveries.len() && discoveries[i].0 == id && forall|j: int|
                0 <= j < i ==> discoveries[j].0 != id;
        Some(discoveries[i].1)
    } else {
        None
    }
}

fn find_discovery(discoveries: &[(SpeciesId, Option<u32>)], id: SpeciesId) -> (found: Option<
    Option<u32>,
>)
    ensures
        found == discovery_of(discoveries@, id),
{
    let mut i: usize = 0;
    while i < discoveries.len()
        invariant
            i <= discoveries@.len(),
            forall|j: int| 0 <= j < i ==> discoveries@[j].0 != id,
        decreases discoveries@.len() - i,
    {
        if discoveries[i].0 == id {
            proof {
                let k = choose|k: int|
                    0 <= k < discoveries@.len() && discoveries@[k].0 == id && forall|j: int|
                        0 <= j < k ==> discoveries@[j].0 != id;
                assert(k == i as int) by {
                    if k < i {
                        assert(discoveries@[k].0 != id);
                    } else if k > i {
                        assert(discoveries@[i as int].0 != id);
                    }
                }
            }
            return Some(discoveries[i].1);
        }
        i = i + 1;
    }
    None
}

/// `entry` is the journal line of `species` given the discoveries.
pub open spec fn journal_entry_matches(
    entry: SpeciesDiscoveryView,
    species: Species,
    discoveries: Seq<(SpeciesId, Option<u32>)>,
) -> bool {
    let found = discovery_of(discoveries, species.id);
    &&& entry.name@ == species.name@
    &&& entry.discovered == found is Some
    &&& entry.best_weight_g == match found {
        Some(best) => best,
        None => None,
    }
    &&& entry.clue@ == species.clue@
}

/// The journal: every species of the content in order, with what the character discovered.
pub fn journal_view(
    content: &Content,
    discoveries: &[(SpeciesId, Option<u32>)],
    rusted_key_discovered: bool,
    locations_discovered: u32,
) -> (view: JournalView)
    ensures
        view.discovered == discoveries@.len() as u32,
        view.total == content.species@.len() as u32,
        view.species@.len() == content.species@.len(),
        forall|i: int|
            0 <= i < content.species@.len() ==> journal_entry_matches(
                #[trigger] view.species@[i],
                content.species@[i],
                discoveries@,
            ),
        view.rusted_key_discovered == rusted_key_discovered,
        view.locations_discovered == locations_discovered,
        view.locations_total == content.locations@.len() as u32,
{
    let mut species: Vec<SpeciesDiscoveryView> = Vec::new();
    let mut i: usize = 0;
    while i < content.species.len()
        invariant
            i <= content.species@.len(),
            species@.len() == i,
            forall|j: int|
                0 <= j < i ==> journal_entry_matches(
                    #[trigger] species@[j],
                    content.species@[j],
                    discoveries@,
                ),
        decreases content.species@.len() - i,
    {
        let entry = &content.species[i];
        let found = find_discovery(discoveries, entry.id);
        let best_weight_g = match found {
            Some(best) => best,
            None => None,
        };
        species.push(
            SpeciesDiscoveryView {
                name: entry.name.clone(),
                discovered: found.is_some(),
                best_weight_g,
                clue: entry.clue.clone(),
            },
        );
        i = i + 1;
    }
    JournalView {
        discovered: discoveries.len() as u32,
        total: content.species.len() as u32,
        species,
        rusted_key_discovered,
        locations_discovered,
        locations_total: content.locations.len() as u32,
    }
}

/// A stored count that can never be negative, read as unsigned.
pub open spec fn non_negative(x: i64) -> u64 {
    if x < 0 {
        0
    } else {
        x as u64
    }
}

fn clamp_non_negative(x: i64) -> (r: u64)
    ensures
        r == non_negative(x),
{
    if x < 0 {
        0
    } else {
        x as u64
    }
}

/// A landed specimen of `species_id` with the given length and weight, as records list it.
pub open spec fn catch_summary_matches(
    view: CatchSummaryView,
    content: Content,
    species_id: SpeciesId,
    length_mm: u32,
    weight_g: u32,
) -> bool {
    let species = content.species_spec(species_id);
    &&& view.species_name@ == species.name@
    &&& view.length_mm == length_mm
    &&& view.weight_g == weight_g
    &&& view.value == sale_value_spec(species, Specimen { length_mm, weight_g })
}

/// Personal records: lifetime totals, the heaviest catch and the best weight per species
/// beside the world best.
pub fn records_view(
    content: &Content,
    lifetime_catches: i64,
    lifetime_weight_g: i64,
    heaviest: Option<(SpeciesId, u32, u32)>,
    bests: &[(SpeciesId, u32, u32)],
) -> (view: RecordsView)
    requires
        strictly_sorted_by_key(content.species@),
        heaviest matches Some(h) ==> has_key(content.species@, h.0.0 as int),
        forall|i: int|
            0 <= i < bests@.len() ==> has_key(content.species@, (#[trigger] bests@[i]).0.0 as int),
    ensures
        view.lifetime_catches == non_negative(lifetime_catches),
        view.lifetime_weight_g == non_negative(lifetime_weight_g),
        view.heaviest is Some == heaviest is Some,
        heaviest matches Some(h) ==> catch_summary_matches(
            view.heaviest->0,
            *content,
            h.0,
            h.1,
            h.2,
        ),
        view.entries@.len() == bests@.len(),
        forall|i: int|
            0 <= i < bests@.len() ==> {
                let entry = #[trigger] view.entries@[i];
                &&& entry.species_name@ == content.species_spec(bests@[i].0).name@
                &&& entry.personal_best_g == bests@[i].1
                &&& entry.world_best_g == bests@[i].2
            },
{
    let heaviest_view = match heaviest {
        Some((species_id, length_mm, weight_g)) => {
            let species = content.species(species_id);
            Some(
                CatchSummaryView {
                    species_name: species.name.clone(),
                    length_mm,
                    weight_g,
                    value: sale_value(species, Specimen { length_mm, weight_g }),
                },
            )
        },
        None => None,
    };
    let mut entries: Vec<RecordEntryView> = Vec::new();
    let mut i: usize = 0;
    while i < bests.len()
        invariant
            i <= bests@.len(),
            entries@.len() == i,
            strictly_sorted_by_key(content.species@),
            forall|j: int|
                0 <= j < bests@.len() ==> has_key(
                    content.species@,
                    (#[trigger] bests@[j]).0.0 as int,
                ),
            forall|j: int|
                0 <= j < i ==> {
                    let entry = #[trigger] entries@[j];
                    &&& entry.species_name@ == content.species_spec(bests@[j].0).name@
                    &&& entry.personal_best_g == bests@[j].1
                    &&& entry.world_best_g == bests@[j].2
                },
        decreases bests@.len() - i,
    {
        let (species_id, personal_best_g, world_best_g) = bests[i];
        entries.push(
            RecordEntryView {
                species_name: content.species(species_id).name.clone(),
                personal_best_g,
                world_best_g,
            },
        );
        i = i + 1;
    }
    RecordsView {
        lifetime_catches: clamp_non_negative(lifetime_catches),
        lifetime_weight_g: clamp_non_negative(lifetime_weight_g),
        heaviest: heaviest_view,
        entries,
    }
}

} // verus!
