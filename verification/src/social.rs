//! Group-chat shoals: a shared observation per chat and time window, private reads, and the
//! chat's growing familiarity with its shoals.

use vstd::prelude::*;
use vstd::wrapping::u64_specs;
use crate::angling::{CatchRecord, catch_xp, catch_xp_spec};
use crate::content::{Content, Species};
use crate::error::GameError;
use crate::fishing::{Specimen, generate_specimen, generate_specimen_spec};
use crate::ids::SpeciesId;
use crate::progression::{CharacterStanding, ProgressRecord, awarded_xp, level_spec, progress_after};
use crate::sort::{has_key, strictly_sorted_by_key};
use crate::view::{GroupApproach, GroupCatchView, GroupEventView};
use crate::world::{saturate_i64, saturating_add_i64, saturating_mul_i64, saturating_sub_i64};

verus! {

/// Real milliseconds one group shoal lasts (twenty minutes).
pub const GROUP_EVENT_REAL_MS: i64 = 1_200_000;

pub const GROUP_SPECIES_ECHO_HERRING: u32 = 25;

pub const GROUP_SPECIES_RUMOR_CARP: u32 = 26;

/// Multiplier that spreads chat ids over the shoal species.
pub const GROUP_MIX: u64 = 0x9E37_79B9_7F4A_7C15;

/// Salt of the second specimen roll of a read.
pub const READ_SALT: u64 = 0xA5D3_4E91_79B2_C60F;

/// The shoal window containing `now_ms`.
pub open spec fn group_cycle_spec(now_ms: i64) -> int {
    now_ms as int / GROUP_EVENT_REAL_MS as int
}

pub fn group_cycle(now_ms: i64) -> (cycle: i64)
    ensures
        cycle == group_cycle_spec(now_ms),
{
    match now_ms.checked_div_euclid(GROUP_EVENT_REAL_MS) {
        Some(v) => v,
        None => 0,
    }
}

pub open spec fn rotate_left_u64(x: u64, n: u64) -> u64 {
    (x << n) | (x >> (64 - n) as u64)
}

/// The species of the shoal in a chat during a window: fixed by chat and window alone.
pub open spec fn group_species_spec(chat_id: i64, cycle: i64) -> SpeciesId {
    let mixed = u64_specs::wrapping_mul(chat_id as u64, GROUP_MIX) ^ rotate_left_u64(cycle as u64, 23);
    if mixed & 1 == 0 {
        SpeciesId(GROUP_SPECIES_ECHO_HERRING)
    } else {
        SpeciesId(GROUP_SPECIES_RUMOR_CARP)
    }
}

pub fn group_species(chat_id: i64, cycle: i64) -> (species: SpeciesId)
    ensures
        species == group_species_spec(chat_id, cycle),
{
    let chat_bits = chat_id as u64;
    let cycle_bits = cycle as u64;
    let rotated = (cycle_bits << 23u64) | (cycle_bits >> 41u64);
    let mixed = chat_bits.wrapping_mul(GROUP_MIX) ^ rotated;
    if mixed & 1 == 0 {
        SpeciesId(GROUP_SPECIES_ECHO_HERRING)
    } else {
        SpeciesId(GROUP_SPECIES_RUMOR_CARP)
    }
}

/// The shared observation of a shoal species and how to read it.
#[derive(Clone, Copy, Debug)]
pub struct GroupRead {
    pub clue: &'static str,
    pub memory_hint: &'static str,
    pub correct: GroupApproach,
}

pub open spec fn group_read_spec(species_id: SpeciesId) -> (Seq<char>, Seq<char>, GroupApproach) {
    if species_id.0 == GROUP_SPECIES_ECHO_HERRING {
        (
            "Small rings repeat in pairs. After the second ripple, the loose line starts to travel sideways."@,
            "This chat has seen that doubled ripple before. The fish tends to follow movement instead of pressure."@,
            GroupApproach::Drift,
        )
    } else {
        (
            "The surface keeps going unnaturally flat, then something heavy nudges the line from directly below."@,
            "People here remember the same pattern: chasing the first twitch usually makes it vanish."@,
            GroupApproach::Hold,
        )
    }
}

pub open spec fn is_shoal_species(species_id: SpeciesId) -> bool {
    species_id.0 == GROUP_SPECIES_ECHO_HERRING || species_id.0 == GROUP_SPECIES_RUMOR_CARP
}

/// The read of a shoal species; only the two shoal species have one.
pub fn group_read(species_id: SpeciesId) -> (read: GroupRead)
    requires
        is_shoal_species(species_id),
    ensures
        read.clue@ == group_read_spec(species_id).0,
        read.memory_hint@ == group_read_spec(species_id).1,
        read.correct == group_read_spec(species_id).2,
{
    if species_id.0 == GROUP_SPECIES_ECHO_HERRING {
        GroupRead {
            clue: "Small rings repeat in pairs. After the second ripple, the loose line starts to travel sideways.",
            memory_hint: "This chat has seen that doubled ripple before. The fish tends to follow movement instead of pressure.",
            correct: GroupApproach::Drift,
        }
    } else {
        GroupRead {
            clue: "The surface keeps going unnaturally flat, then something heavy nudges the line from directly below.",
            memory_hint: "People here remember the same pattern: chasing the first twitch usually makes it vanish.",
            correct: GroupApproach::Hold,
        }
    }
}

/// The seed of the second specimen roll of a read.
pub open spec fn second_read_seed(seed: u64) -> u64 {
    rotate_left_u64(seed, 17) ^ READ_SALT
}

/// A read rolls two specimens: a correct read keeps the heavier, a wrong one the lighter (the
/// first on a tie).
pub open spec fn read_specimen_spec(species: Species, seed: u64, correct: bool) -> Specimen {
    let first = generate_specimen_spec(species, seed);
    let second = generate_specimen_spec(species, second_read_seed(seed));
    if correct {
        if first.weight_g >= second.weight_g {
            first
        } else {
            second
        }
    } else if first.weight_g <= second.weight_g {
        first
    } else {
        second
    }
}

pub fn read_specimen(species: &Species, seed: u64, correct: bool) -> (specimen: Specimen)
    requires
        species.min_length_mm <= species.max_length_mm,
    ensures
        specimen == read_specimen_spec(*species, seed, correct),
{
    let first = generate_specimen(species, seed);
    let rotated = (seed << 17u64) | (seed >> 47u64);
    let second = generate_specimen(species, rotated ^ READ_SALT);
    if correct {
        if first.weight_g >= second.weight_g {
            first
        } else {
            second
        }
    } else if first.weight_g <= second.weight_g {
        first
    } else {
        second
    }
}

/// Reading the shoal right never yields a lighter fish than reading it wrong.
pub proof fn lemma_correct_read_never_lighter(species: Species, seed: u64)
    ensures
        read_specimen_spec(species, seed, true).weight_g >= read_specimen_spec(
            species,
            seed,
            false,
        ).weight_g,
{
}

/// A read rolls two specimens, one from the seed and one from the seed rotated left 17 bits and
/// salted: a right read lands the heavier of the two, a wrong read the lighter.
pub proof fn lemma_read_picks_between_two_rolls(species: Species, seed: u64)
    ensures
        ({
            let first = generate_specimen_spec(species, seed);
            let second = generate_specimen_spec(
                species,
                rotate_left_u64(seed, 17) ^ 0xA5D3_4E91_79B2_C60Fu64,
            );
            let right = read_specimen_spec(species, seed, true);
            let wrong = read_specimen_spec(species, seed, false);
            &&& right == first || right == second
            &&& right.weight_g >= first.weight_g && right.weight_g >= second.weight_g
            &&& wrong == first || wrong == second
            &&& wrong.weight_g <= first.weight_g && wrong.weight_g <= second.weight_g
        }),
{
}

/// The persisted tag of an approach.
pub open spec fn approach_code_spec(approach: GroupApproach) -> i64 {
    match approach {
        GroupApproach::Drift => 1,
        GroupApproach::Hold => 2,
    }
}

pub fn approach_code(approach: GroupApproach) -> (code: i64)
    ensures
        code == approach_code_spec(approach),
{
    match approach {
        GroupApproach::Drift => 1,
        GroupApproach::Hold => 2,
    }
}

/// A chat's standing with the shoals, by catches ever made there: its name and level.
pub open spec fn group_standing_spec(total_catches: u32) -> (Seq<char>, u8) {
    if total_catches <= 4 {
        ("Ripple"@, 0)
    } else if total_catches <= 14 {
        ("Current"@, 1)
    } else if total_catches <= 39 {
        ("Tidebound"@, 2)
    } else {
        ("Harbor Chorus"@, 3)
    }
}

pub fn group_standing(total_catches: u32) -> (standing: (&'static str, u8))
    ensures
        standing.0@ == group_standing_spec(total_catches).0,
        standing.1 == group_standing_spec(total_catches).1,
{
    if total_catches <= 4 {
        ("Ripple", 0)
    } else if total_catches <= 14 {
        ("Current", 1)
    } else if total_catches <= 39 {
        ("Tidebound", 2)
    } else {
        ("Harbor Chorus", 3)
    }
}

/// A chat's standing never falls as it makes more catches.
pub proof fn lemma_standing_only_grows(fewer: u32, more: u32)
    requires
        fewer <= more,
    ensures
        group_standing_spec(fewer).1 <= group_standing_spec(more).1,
{
}

/// The first instant of the next shoal window.
pub open spec fn next_window_spec(now_ms: i64) -> i64 {
    saturate_i64(saturate_i64(group_cycle_spec(now_ms) + 1) * GROUP_EVENT_REAL_MS)
}

/// The shoal panel of a chat: what the chat's standing reveals of the current shoal.
pub fn group_event_view(content: &Content, chat_id: i64, now_ms: i64, participants: u32, total_catches: u32) -> (view:
    GroupEventView)
    requires
        strictly_sorted_by_key(content.species@),
        group_standing_spec(total_catches).1 >= 2 ==> has_key(
            content.species@,
            group_species_spec(chat_id, group_cycle_spec(now_ms) as i64).0 as int,
        ),
    ensures
        ({
            let cycle = group_cycle_spec(now_ms);
            let species_id = group_species_spec(chat_id, cycle as i64);
            let (standing_name, level) = group_standing_spec(total_catches);
            let read = group_read_spec(species_id);
            let next = next_window_spec(now_ms);
            &&& view.cycle == cycle
            &&& view.species_name is Some == (level >= 2)
            &&& view.species_name matches Some(name) ==> name@ == content.species_spec(
                species_id,
            ).name@
            &&& view.clue@ == read.0
            &&& view.memory_hint is Some == (level >= 1)
            &&& view.memory_hint matches Some(hint) ==> hint@ == read.1
            &&& view.participants == participants
            &&& view.total_catches == total_catches
            &&& view.standing_name@ == standing_name
            &&& view.mastered_approach == if level >= 3 {
                Some(read.2)
            } else {
                None
            }
            &&& view.resets_in_ms == saturate_i64(next - now_ms)
            &&& view.ends_at_unix == (next as int / 1000) as i32
        }),
{
    let cycle = group_cycle(now_ms);
    let species_id = group_species(chat_id, cycle);
    let (standing_name, level) = group_standing(total_catches);
    let read = group_read(species_id);
    let next_cycle = saturating_mul_i64(saturating_add_i64(cycle, 1), GROUP_EVENT_REAL_MS);
    let species_name = if level >= 2 {
        Some(content.species(species_id).name.clone())
    } else {
        None
    };
    let ends = match next_cycle.checked_div_euclid(1_000) {
        Some(v) => v,
        None => 0,
    };
    GroupEventView {
        cycle,
        species_name,
        clue: read.clue,
        memory_hint: if level >= 1 {
            Some(read.memory_hint)
        } else {
            None
        },
        participants,
        total_catches,
        standing_name,
        mastered_approach: if level >= 3 {
            Some(read.correct)
        } else {
            None
        },
        resets_in_ms: saturating_sub_i64(next_cycle, now_ms),
        ends_at_unix: ends as i32,
    }
}

/// A shoal catch that goes ahead.
#[derive(Clone, Copy, Debug, PartialEq, Eq, Structural)]
pub struct GroupClaim {
    pub species_id: SpeciesId,
    pub specimen: Specimen,
    pub read_correct: bool,
    pub approach_code: i64,
}

/// Why a group cast for shoal window `cycle` at `now_ms` is refused, if it is: a window that is
/// not the current one, then no character, then a catch already made in this window.
pub open spec fn group_claim_refusal(cycle: i64, now_ms: i64, character_claimed: Option<bool>) -> Option<
    GameError,
> {
    if group_cycle_spec(now_ms) != cycle {
        Some(GameError::GroupEventExpired)
    } else if character_claimed is None {
        Some(GameError::CharacterMissing)
    } else if character_claimed == Some(true) {
        Some(GameError::GroupEventClaimed)
    } else {
        None
    }
}

/// A shoal pays a character once per window: after a group cast succeeded and was recorded,
/// another cast for the same window is refused, as claimed while the window lasts and as
/// expired after it.
pub proof fn lemma_group_claim_once(cycle: i64, first_ms: i64, later_ms: i64)
    requires
        group_claim_refusal(cycle, first_ms, Some(false)) is None,
    ensures
        group_cycle_spec(later_ms) == cycle ==> group_claim_refusal(cycle, later_ms, Some(true))
            == Some(GameError::GroupEventClaimed),
        group_cycle_spec(later_ms) != cycle ==> group_claim_refusal(cycle, later_ms, Some(true))
            == Some(GameError::GroupEventExpired),
{
}

/// Joining the shoal of window `cycle` in chat `chat_id` with `approach`. Refusals come in this
/// order: the window has passed, missing character, already joined this window.
pub fn group_claim_outcome(
    content: &Content,
    chat_id: i64,
    cycle: i64,
    approach: GroupApproach,
    seed: u64,
    now_ms: i64,
    character_claimed: Option<bool>,
) -> (outcome: Result<GroupClaim, GameError>)
    requires
        content.is_valid(),
        has_key(content.species@, group_species_spec(chat_id, cycle).0 as int),
    ensures
        group_cycle_spec(now_ms) != cycle ==> outcome matches Err(GameError::GroupEventExpired),
        group_cycle_spec(now_ms) == cycle && character_claimed is None ==> outcome matches Err(
            GameError::CharacterMissing,
        ),
        group_cycle_spec(now_ms) == cycle && character_claimed == Some(true) ==> outcome matches Err(
            GameError::GroupEventClaimed,
        ),
        outcome is Ok <==> (group_cycle_spec(now_ms) == cycle && character_claimed == Some(false)),
        match group_claim_refusal(cycle, now_ms, character_claimed) {
            Some(refusal) => outcome == Err::<GroupClaim, GameError>(refusal),
            None => outcome is Ok,
        },
        outcome matches Ok(claim) ==> {
            let species_id = group_species_spec(chat_id, cycle);
            let correct = approach == group_read_spec(species_id).2;
            &&& claim.species_id == species_id
            &&& claim.read_correct == correct
            &&& claim.specimen == read_specimen_spec(content.species_spec(species_id), seed, correct)
            &&& claim.approach_code == approach_code_spec(approach)
        },
{
    if group_cycle(now_ms) != cycle {
        return Err(GameError::GroupEventExpired);
    }
    let claimed = match character_claimed {
        Some(c) => c,
        None => return Err(GameError::CharacterMissing),
    };
    if claimed {
        return Err(GameError::GroupEventClaimed);
    }
    let species_id = group_species(chat_id, cycle);
    let species = content.species(species_id);
    proof {
        content.lemma_species_spec_valid(species_id);
    }
    let read = group_read(species_id);
    let read_correct = approach == read.correct;
    let specimen = read_specimen(species, seed, read_correct);
    Ok(GroupClaim { species_id, specimen, read_correct, approach_code: approach_code(approach) })
}

/// The shoal catch card, and the experience award behind it.
pub fn group_catch_outcome(
    species: &Species,
    claim: GroupClaim,
    approach: GroupApproach,
    record: CatchRecord,
    standing: CharacterStanding,
    event: GroupEventView,
) -> (result: (GroupCatchView, ProgressRecord))
    requires
        catch_xp_spec(species.xp, record.new_species) <= u32::MAX,
    ensures
        ({
            let (view, progress) = result;
            let xp = catch_xp_spec(species.xp, record.new_species);
            &&& progress.total_xp == awarded_xp(standing.xp, xp as u32)
            &&& progress.level == level_spec(progress.total_xp as int)
            &&& progress.level_up == (progress.level > standing.level)
            &&& view.item_id == record.item_id
            &&& view.species_name@ == species.name@
            &&& view.length_mm == claim.specimen.length_mm
            &&& view.weight_g == claim.specimen.weight_g
            &&& view.new_species == record.new_species
            &&& view.global_first == record.global_first
            &&& view.xp_gained == xp
            &&& view.level == progress.level
            &&& view.approach == approach
            &&& view.read_correct == claim.read_correct
            &&& view.event == event
        }),
{
    let xp_gained = catch_xp(species, record.new_species);
    let progress = progress_after(standing.xp, standing.level, xp_gained);
    let view = GroupCatchView {
        item_id: record.item_id,
        species_name: species.name.clone(),
        length_mm: claim.specimen.length_mm,
        weight_g: claim.specimen.weight_g,
        new_species: record.new_species,
        global_first: record.global_first,
        xp_gained,
        level: progress.level,
        approach,
        read_correct: claim.read_correct,
        event,
    };
    (view, progress)
}

} // verus!
