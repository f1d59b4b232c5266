//! The fishing encounter lifecycle: casting, the bite and deadline timers, and the player's
//! reactions. Storage runs each returned plan in one transaction; every rule lives here.

use vstd::prelude::*;
use crate::content::Content;
use crate::error::GameError;
use crate::fishing::{
    Reaction, Specimen, StruggleAction, bite_delay_ms, bite_delay_spec, can_land, can_land_spec,
    effective_control, effective_control_spec, generate_specimen, generate_specimen_spec,
    observation, reaction, reaction_spec, required_struggle_action, required_struggle_action_spec,
    select_species, select_species_spec, struggle_observation, struggle_succeeds,
    struggle_succeeds_spec,
};
use crate::progression::{CharacterStanding, ProgressRecord, awarded_xp, level_spec, progress_after};
use crate::ids::{BaitId, EncounterId, LocationId, RodId, SpeciesId};
use crate::sort::{has_key, strictly_sorted_by_key};
use crate::view::{BiteView, CatchView, EscapeView, RelicView, TimerOutcome};
use crate::world::{Environment, environment_at, environment_spec, saturate_i64, saturating_sub_i64};

verus! {

// Persisted encounter phases, special targets and timer kinds; changing them needs a migration.
pub const SPECIAL_NONE: i64 = 0;

pub const SPECIAL_RUSTED_KEY: i64 = 1;

pub const PHASE_WAITING: i64 = 0;

pub const PHASE_BITE: i64 = 1;

pub const PHASE_STRUGGLE: i64 = 2;

pub const TIMER_BITE: i64 = 1;

pub const TIMER_DEADLINE: i64 = 2;

/// Extra reaction time granted during a struggle, in milliseconds.
pub const STRUGGLE_GRACE_MS: i64 = 2_000;

/// Who owns an encounter and where it stands.
#[derive(Clone, Copy, Debug, PartialEq, Eq, Structural)]
pub struct EncounterKey {
    pub owner_user_id: i64,
    pub step: u32,
    pub phase: i64,
}

/// Whether a player's button press still applies to the encounter it names: missing
/// encounters and other steps or phases are stale, and other players' encounters are refused.
pub open spec fn check_encounter_spec(
    found: Option<EncounterKey>,
    telegram_user_id: i64,
    step: u32,
    phase: i64,
) -> Result<(), GameError> {
    match found {
        None => Err(GameError::StaleEncounter),
        Some(key) => if key.owner_user_id != telegram_user_id {
            Err(GameError::WrongPlayer)
        } else if key.step != step || key.phase != phase {
            Err(GameError::StaleEncounter)
        } else {
            Ok(())
        },
    }
}

pub fn check_encounter(found: Option<EncounterKey>, telegram_user_id: i64, step: u32, phase: i64) -> (result:
    Result<(), GameError>)
    ensures
        result == check_encounter_spec(found, telegram_user_id, step, phase),
{
    match found {
        None => Err(GameError::StaleEncounter),
        Some(key) => {
            if key.owner_user_id != telegram_user_id {
                Err(GameError::WrongPlayer)
            } else if key.step != step || key.phase != phase {
                Err(GameError::StaleEncounter)
            } else {
                Ok(())
            }
        },
    }
}

/// Milliseconds between the prompt being shown and the press; a press without a shown prompt
/// counts as instant.
pub open spec fn reaction_elapsed(opened_at: Option<i64>, received_at_ms: i64) -> u64 {
    let opened = match opened_at {
        Some(t) => t,
        None => received_at_ms,
    };
    saturate_i64(received_at_ms - opened) as u64
}

/// How quickly the player reacted to the current prompt.
pub fn encounter_reaction(species: &crate::content::Species, opened_at: Option<i64>, received_at_ms: i64) -> (r:
    Reaction)
    ensures
        r == reaction_spec(*species, reaction_elapsed(opened_at, received_at_ms)),
{
    let opened = match opened_at {
        Some(t) => t,
        None => received_at_ms,
    };
    let elapsed = saturating_sub_i64(received_at_ms, opened);
    reaction(species, elapsed as u64)
}

/// The stored state of an encounter when its prompt has been delivered.
#[derive(Clone, Copy, Debug, PartialEq, Eq, Structural)]
pub struct PresentedEncounter {
    pub species_id: SpeciesId,
    pub step: u32,
    pub phase: i64,
    pub opened_at: Option<i64>,
}

/// Whether a delivered prompt starts a reaction deadline: only the current step, only a bite
/// or struggle prompt, and only once.
pub open spec fn starts_deadline(encounter: Option<PresentedEncounter>, step: u32) -> bool {
    encounter matches Some(e) && e.step == step && (e.phase == PHASE_BITE || e.phase
        == PHASE_STRUGGLE) && e.opened_at is None
}

/// The reaction deadline: the slowest acceptable reaction, plus the struggle grace.
pub open spec fn deadline_spec(content: Content, e: PresentedEncounter, now_ms: i64) -> int {
    now_ms + (content.species_spec(e.species_id).reaction_ms[2] as i64) + if e.phase
        == PHASE_STRUGGLE {
        STRUGGLE_GRACE_MS
    } else {
        0
    }
}

/// The reaction deadline to arm once the prompt of `step` is on screen, if one is due.
/// Repeated deliveries arm nothing.
pub fn presentation_deadline(
    content: &Content,
    encounter: Option<PresentedEncounter>,
    step: u32,
    now_ms: i64,
) -> (deadline: Option<i64>)
    requires
        strictly_sorted_by_key(content.species@),
        starts_deadline(encounter, step) ==> has_key(
            content.species@,
            encounter->0.species_id.0 as int,
        ) && i64::MIN <= now_ms + (content.species_spec(encounter->0.species_id).reaction_ms[2] as i64)
            <= i64::MAX && i64::MIN <= deadline_spec(*content, encounter->0, now_ms) <= i64::MAX,
    ensures
        deadline is Some <==> starts_deadline(encounter, step),
        deadline matches Some(d) ==> d == deadline_spec(*content, encounter->0, now_ms),
{
    let e = match encounter {
        Some(e) => e,
        None => return None,
    };
    if e.step != step || !(e.phase == PHASE_BITE || e.phase == PHASE_STRUGGLE) || e.opened_at.is_some() {
        return None;
    }
    let species = content.species(e.species_id);
    let extra: i64 = if e.phase == PHASE_STRUGGLE {
        STRUGGLE_GRACE_MS
    } else {
        0
    };
    Some(now_ms + species.reaction_ms[2] as i64 + extra)
}

/// The stored encounter after the prompt of `step` was delivered at `now_ms`: a delivery that
/// starts the deadline stamps the encounter as opened then; any other delivery leaves it as is.
pub open spec fn after_presentation(encounter: Option<PresentedEncounter>, step: u32, now_ms: i64) -> Option<
    PresentedEncounter,
> {
    if starts_deadline(encounter, step) {
        Some(PresentedEncounter { opened_at: Some(now_ms), ..encounter->0 })
    } else {
        encounter
    }
}

/// The encounter to store once the prompt of `step` is on screen.
pub fn presented_encounter(encounter: Option<PresentedEncounter>, step: u32, now_ms: i64) -> (after:
    Option<PresentedEncounter>)
    ensures
        after == after_presentation(encounter, step, now_ms),
{
    match encounter {
        Some(e) => if e.step == step && (e.phase == PHASE_BITE || e.phase == PHASE_STRUGGLE)
            && e.opened_at.is_none() {
            Some(PresentedEncounter { opened_at: Some(now_ms), ..e })
        } else {
            encounter
        },
        None => None,
    }
}

/// Delivering a prompt again changes nothing: after a delivery of `step` at `first_ms`, a
/// delivery of the same step at any `later_ms` starts no deadline and leaves the encounter as the
/// first left it, opened at `first_ms`. A delivery that starts nothing (another step, another
/// phase, an unknown encounter) is itself a no-op.
pub proof fn lemma_presentation_is_idempotent(
    encounter: Option<PresentedEncounter>,
    step: u32,
    first_ms: i64,
    later_ms: i64,
)
    ensures
        !starts_deadline(after_presentation(encounter, step, first_ms), step),
        after_presentation(after_presentation(encounter, step, first_ms), step, later_ms)
            == after_presentation(encounter, step, first_ms),
        starts_deadline(encounter, step) ==> after_presentation(encounter, step, first_ms)->0.opened_at
            == Some(first_ms),
        !starts_deadline(encounter, step) ==> after_presentation(encounter, step, first_ms)
            == encounter,
{
}

/// A timer that has come due.
#[derive(Clone, Copy, Debug, PartialEq, Eq, Structural)]
pub struct DueTimer {
    pub kind: i64,
    pub encounter_id: EncounterId,
    pub step: u32,
}

/// The encounter a due timer belongs to.
#[derive(Clone, Copy, Debug, PartialEq, Eq, Structural)]
pub struct TimerEncounter {
    pub chat_id: i64,
    pub message_id: i64,
    pub step: u32,
    pub phase: i64,
    pub species_id: SpeciesId,
    pub special_id: i64,
}

/// What storage does when a timer fires.
#[derive(Clone, Copy, Debug, PartialEq, Eq, Structural)]
pub enum TimerAction {
    /// The timer is gone or not yet due: change nothing.
    Nothing,
    /// The timer no longer applies: drop it.
    DeleteTimer,
    /// The fish bites: move the encounter to `next_step` in the bite phase, with no prompt shown
    /// yet, and drop the timer.
    OpenBite { next_step: u32 },
    /// The reaction deadline passed: drop the encounter and its timers.
    ClearEncounter,
}

/// The transition a due timer causes.
pub open spec fn timer_action_spec(timer: Option<DueTimer>, encounter: Option<TimerEncounter>) -> TimerAction {
    match timer {
        None => TimerAction::Nothing,
        Some(t) => match encounter {
            None => TimerAction::DeleteTimer,
            Some(e) => if e.step != t.step {
                TimerAction::DeleteTimer
            } else if t.kind == TIMER_BITE && e.phase == PHASE_WAITING {
                TimerAction::OpenBite { next_step: (e.step + 1) as u32 }
            } else if t.kind == TIMER_DEADLINE && (e.phase == PHASE_BITE || e.phase
                == PHASE_STRUGGLE) {
                TimerAction::ClearEncounter
            } else {
                TimerAction::DeleteTimer
            },
        },
    }
}

/// The bite text: the hidden relic scrapes, a fish shows its strength.
pub open spec fn bite_text(content: Content, e: TimerEncounter) -> Seq<char> {
    if e.special_id == SPECIAL_RUSTED_KEY {
        "The hook drags against something hard. A metallic shape shifts between the submerged stones."@
    } else {
        let d = content.species_spec(e.species_id).difficulty;
        if d <= 6 {
            "The float disappears beneath the surface."@
        } else if d <= 10 {
            "The line snaps taut and starts moving sideways."@
        } else if d <= 14 {
            "Something heavy takes the bait and pulls toward deeper water."@
        } else {
            "Your rod bends violently. Whatever took the bait is extremely powerful."@
        }
    }
}

/// Inputs on which a firing timer is defined: a bite needs a next step and a known species.
pub open spec fn timer_fire_defined(
    content: Content,
    timer: Option<DueTimer>,
    encounter: Option<TimerEncounter>,
) -> bool {
    timer_action_spec(timer, encounter) is OpenBite ==> {
        let e = encounter->0;
        &&& e.step < u32::MAX
        &&& e.special_id != SPECIAL_RUSTED_KEY ==> has_key(content.species@, e.species_id.0 as int)
    }
}

/// Fires a due timer against the current state of its encounter.
pub fn fire_timer_outcome(content: &Content, timer: Option<DueTimer>, encounter: Option<TimerEncounter>) -> (result:
    (TimerAction, TimerOutcome))
    requires
        strictly_sorted_by_key(content.species@),
        timer_fire_defined(*content, timer, encounter),
    ensures
        result.0 == timer_action_spec(timer, encounter),
        match result.0 {
            TimerAction::OpenBite { next_step } => result.1 matches TimerOutcome::Bite(bite) && bite.encounter_id
                == timer->0.encounter_id && bite.step == next_step && bite.chat_id
                == encounter->0.chat_id && bite.message_id == encounter->0.message_id
                && bite.observation@ == bite_text(*content, encounter->0),
            TimerAction::ClearEncounter => result.1 matches TimerOutcome::Escaped(escape)
                && escape.chat_id == encounter->0.chat_id && escape.message_id
                == encounter->0.message_id && escape.reason@
                == "You wait too long. Whatever was on the line is gone."@,
            _ => result.1 matches TimerOutcome::Stale,
        },
{
    let t = match timer {
        Some(t) => t,
        None => return (TimerAction::Nothing, TimerOutcome::Stale),
    };
    let e = match encounter {
        Some(e) => e,
        None => return (TimerAction::DeleteTimer, TimerOutcome::Stale),
    };
    if e.step != t.step {
        return (TimerAction::DeleteTimer, TimerOutcome::Stale);
    }
    if t.kind == TIMER_BITE && e.phase == PHASE_WAITING {
        let next_step = e.step + 1;
        let text = if e.special_id == SPECIAL_RUSTED_KEY {
            "The hook drags against something hard. A metallic shape shifts between the submerged stones."
        } else {
            observation(content.species(e.species_id))
        };
        (
            TimerAction::OpenBite { next_step },
            TimerOutcome::Bite(
                BiteView {
                    encounter_id: t.encounter_id,
                    step: next_step,
                    chat_id: e.chat_id,
                    message_id: e.message_id,
                    observation: text,
                },
            ),
        )
    } else if t.kind == TIMER_DEADLINE && (e.phase == PHASE_BITE || e.phase == PHASE_STRUGGLE) {
        (
            TimerAction::ClearEncounter,
            TimerOutcome::Escaped(
                EscapeView {
                    chat_id: e.chat_id,
                    message_id: e.message_id,
                    reason: "You wait too long. Whatever was on the line is gone.",
                },
            ),
        )
    } else {
        (TimerAction::DeleteTimer, TimerOutcome::Stale)
    }
}

/// A timer armed for an earlier step never moves the encounter: at most the timer is dropped.
pub proof fn lemma_stale_timer_changes_nothing(timer: DueTimer, encounter: TimerEncounter)
    requires
        timer.step != encounter.step,
    ensures
        timer_action_spec(Some(timer), Some(encounter)) == TimerAction::DeleteTimer,
{
}

/// Once the bite opens, a press carrying the step it was cast with is stale: the prompt that
/// matters is the new one.
pub proof fn lemma_bite_outdates_previous_step(
    owner_user_id: i64,
    timer: DueTimer,
    encounter: TimerEncounter,
    pressed_step: u32,
)
    requires
        timer_action_spec(Some(timer), Some(encounter)) matches TimerAction::OpenBite { .. },
        pressed_step == encounter.step,
        encounter.step < u32::MAX,
    ensures
        ({
            let next_step = timer_action_spec(Some(timer), Some(encounter))->next_step;
            let after = EncounterKey { owner_user_id, step: next_step, phase: PHASE_BITE };
            &&& next_step == encounter.step + 1
            &&& check_encounter_spec(Some(after), owner_user_id, pressed_step, PHASE_BITE)
                == Err::<(), GameError>(GameError::StaleEncounter)
            &&& check_encounter_spec(Some(after), owner_user_id, next_step, PHASE_BITE)
                == Ok::<(), GameError>(())
        }),
{
}

/// The Broken Breakwater, where the Rusted Key lies.
pub const BREAKWATER_LOCATION: u32 = 2;

/// The species row a Rusted Key encounter carries.
pub const RELIC_CARRIER_SPECIES: u32 = 1;

/// The Rusted Key is hooked at the breakwater by a player who does not own it yet, for certain
/// after four catches there and otherwise on one cast in eight.
pub open spec fn hooks_rusted_key(location: LocationId, owns_key: bool, breakwater_catches: u32, seed: u64) -> bool {
    location.0 == BREAKWATER_LOCATION && !owns_key && (breakwater_catches >= 4 || seed % 8 == 0)
}

/// What a cast hooks: the species, and whether it is the hidden relic.
pub open spec fn cast_target_spec(
    content: Content,
    location: LocationId,
    bait: BaitId,
    environment: Environment,
    seed: u64,
    owns_key: bool,
    breakwater_catches: u32,
) -> (SpeciesId, i64) {
    if hooks_rusted_key(location, owns_key, breakwater_catches, seed) {
        (SpeciesId(RELIC_CARRIER_SPECIES), SPECIAL_RUSTED_KEY)
    } else {
        (select_species_spec(content, location, bait, environment, seed), SPECIAL_NONE)
    }
}

/// Picks the normal fish or the hidden Rusted Key encounter at the breakwater.
pub fn cast_target(
    content: &Content,
    location: LocationId,
    bait: BaitId,
    environment: Environment,
    seed: u64,
    owns_key: bool,
    breakwater_catches: u32,
) -> (target: (SpeciesId, i64))
    requires
        content.is_valid(),
        has_key(content.locations@, location.0 as int),
        content.location_spec(location).fishable,
    ensures
        target == cast_target_spec(*content, location, bait, environment, seed, owns_key, breakwater_catches),
        target.1 == SPECIAL_NONE ==> has_key(content.species@, target.0.0 as int),
{
    if location.0 == BREAKWATER_LOCATION && !owns_key && (breakwater_catches >= 4 || seed % 8 == 0) {
        return (SpeciesId(RELIC_CARRIER_SPECIES), SPECIAL_RUSTED_KEY);
    }
    let species = select_species(content, location, bait, environment, seed);
    proof {
        let encounters = content.location_spec(location).encounters@;
        let k = choose|k: int| 0 <= k < encounters.len() && #[trigger] encounters[k].species_id == species;
        let i = choose|i: int| 0 <= i < content.locations@.len() && content.locations@[i].id == location;
        assert(content.location_spec(location) == content.locations@[i]);
        assert(content.locations@[i].is_valid_in(content.species@));
        assert(encounters[k].weight > 0);
        assert(has_key(content.species@, encounters[k].species_id.0 as int));
    }
    (species, SPECIAL_NONE)
}

/// The character who casts: where it stands and what it uses.
#[derive(Clone, Copy, Debug, PartialEq, Eq, Structural)]
pub struct Caster {
    pub location_id: LocationId,
    pub bait_id: BaitId,
    pub rod_id: RodId,
}

/// What else a cast depends on.
#[derive(Clone, Copy, Debug, PartialEq, Eq, Structural)]
pub struct CastContext {
    /// Whether an encounter is already running.
    pub active: bool,
    /// Units left of the selected bait.
    pub bait_quantity: u32,
    /// Whether the caster owns the Rusted Key.
    pub owns_key: bool,
    /// Catches the caster ever landed at the breakwater.
    pub breakwater_catches: u32,
}

/// A cast that goes ahead: one bait is spent and the bite timer is armed.
#[derive(Clone, Copy, Debug, PartialEq, Eq, Structural)]
pub struct CastPlan {
    pub species_id: SpeciesId,
    pub special_id: i64,
    pub due_at_ms: i64,
    pub environment: Environment,
}

/// Whether a cast by `caster` gets past every refusal.
pub open spec fn cast_proceeds(content: Content, caster: Option<Caster>, context: CastContext) -> bool {
    caster matches Some(c) && !context.active && content.location_spec(c.location_id).fishable
        && context.bait_quantity > 0
}

/// What a proceeding cast hooks.
pub open spec fn planned_target(content: Content, c: Caster, context: CastContext, seed: u64, now_ms: i64) -> (
    SpeciesId,
    i64,
) {
    cast_target_spec(
        content,
        c.location_id,
        c.bait_id,
        environment_spec(now_ms),
        seed,
        context.owns_key,
        context.breakwater_catches,
    )
}

/// When the bite timer of a proceeding cast fires.
pub open spec fn planned_due_at(content: Content, c: Caster, context: CastContext, seed: u64, now_ms: i64) -> int {
    let species = content.species_spec(planned_target(content, c, context, seed, now_ms).0);
    now_ms + (bite_delay_spec(species, content.bait_spec(c.bait_id).fishing_power, seed) as i64)
}

/// Inputs on which casting is defined: the stored location, bait and hooked species exist, and
/// the bite time fits in an `i64`.
pub open spec fn cast_defined(content: Content, caster: Option<Caster>, context: CastContext, seed: u64, now_ms: i64) -> bool {
    caster matches Some(c) ==> {
        &&& has_key(content.locations@, c.location_id.0 as int)
        &&& cast_proceeds(content, caster, context) ==> {
            &&& has_key(content.baits@, c.bait_id.0 as int)
            &&& has_key(content.species@, planned_target(content, c, context, seed, now_ms).0.0 as int)
            &&& i64::MIN <= planned_due_at(content, c, context, seed, now_ms) <= i64::MAX
        }
    }
}

/// Casting. Refusals come in this order: missing character, encounter already running, nowhere
/// to fish here, no bait left.
pub fn cast_plan(
    content: &Content,
    caster: Option<Caster>,
    context: CastContext,
    seed: u64,
    now_ms: i64,
) -> (outcome: Result<CastPlan, GameError>)
    requires
        content.is_valid(),
        cast_defined(*content, caster, context, seed, now_ms),
    ensures
        caster is None ==> outcome matches Err(GameError::CharacterMissing),
        caster is Some && context.active ==> outcome matches Err(GameError::EncounterActive),
        caster matches Some(c) && !context.active && !content.location_spec(c.location_id).fishable
            ==> outcome matches Err(GameError::NotFishable),
        caster matches Some(c) && !context.active && content.location_spec(c.location_id).fishable
            && context.bait_quantity == 0 ==> outcome matches Err(GameError::NoBait),
        outcome is Ok <==> cast_proceeds(*content, caster, context),
        outcome matches Ok(plan) ==> {
            let c = caster->0;
            let target = planned_target(*content, c, context, seed, now_ms);
            &&& plan.species_id == target.0
            &&& plan.special_id == target.1
            &&& plan.due_at_ms == planned_due_at(*content, c, context, seed, now_ms)
            &&& plan.environment == environment_spec(now_ms)
        },
{
    let c = match caster {
        Some(c) => c,
        None => return Err(GameError::CharacterMissing),
    };
    if context.active {
        return Err(GameError::EncounterActive);
    }
    let location = content.location(c.location_id);
    if !location.fishable {
        return Err(GameError::NotFishable);
    }
    if context.bait_quantity == 0 {
        return Err(GameError::NoBait);
    }
    let environment = environment_at(now_ms);
    let (species_id, special_id) = cast_target(
        content,
        c.location_id,
        c.bait_id,
        environment,
        seed,
        context.owns_key,
        context.breakwater_catches,
    );
    let species = content.species(species_id);
    proof {
        content.lemma_species_spec_valid(species_id);
    }
    let bait = content.bait(c.bait_id);
    let delay = bite_delay_ms(species, bait.fishing_power, seed);
    Ok(CastPlan { species_id, special_id, due_at_ms: now_ms + delay as i64, environment })
}

/// An encounter as a reaction press finds it.
#[derive(Clone, Copy, Debug, PartialEq, Eq, Structural)]
pub struct ActiveEncounter {
    pub owner_user_id: i64,
    pub chat_id: i64,
    pub message_id: i64,
    pub step: u32,
    pub phase: i64,
    pub species_id: SpeciesId,
    pub special_id: i64,
    pub seed: u64,
    pub rod_id: RodId,
    pub opened_at: Option<i64>,
}

impl ActiveEncounter {
    pub open spec fn key(self) -> EncounterKey {
        EncounterKey { owner_user_id: self.owner_user_id, step: self.step, phase: self.phase }
    }
}

fn encounter_key(found: Option<ActiveEncounter>) -> (key: Option<EncounterKey>)
    ensures
        key == match found {
            Some(e) => Some(e.key()),
            None => None::<EncounterKey>,
        },
{
    match found {
        Some(e) => Some(EncounterKey { owner_user_id: e.owner_user_id, step: e.step, phase: e.phase }),
        None => None,
    }
}

/// What storage does after a reaction press.
#[derive(Clone, Copy, Debug)]
pub enum ReelDecision {
    /// The catch is lost: drop the encounter and its timers.
    Escape { reason: &'static str },
    /// The Rusted Key comes up: grant it, record the relic and award its experience.
    Relic,
    /// The fish fights: move the encounter to `next_step` in the struggle phase, with no prompt
    /// shown yet.
    Struggle { next_step: u32, observation: &'static str },
    /// The fish is landed with this reaction and specimen; the rod loses `wear` condition.
    Land { reaction: Reaction, specimen: Specimen, wear: u32 },
}

/// Condition a landed fish costs the rod: one, plus one per eight points of difficulty.
pub open spec fn rod_wear(difficulty: u32) -> int {
    if 1 + difficulty / 8 > u32::MAX {
        u32::MAX as int
    } else {
        1 + difficulty / 8
    }
}

fn wear_for(difficulty: u32) -> (wear: u32)
    ensures
        wear == rod_wear(difficulty),
{
    1 + difficulty / 8
}

/// Rod condition after wear: it never drops below one.
pub fn worn_condition(condition: u32, wear: u32) -> (after: u32)
    ensures
        after == if condition - wear < 1 {
            1
        } else {
            condition - wear
        },
{
    if condition <= wear {
        1
    } else {
        condition - wear
    }
}

/// Why a hooked fish escapes at the reel.
pub open spec fn reel_escape_reason(relic: bool, r: Reaction) -> Seq<char> {
    if relic {
        "You react too late. Something metallic scrapes across the stones and drops back into the black water."@
    } else if r == Reaction::Missed {
        "You react too late. The line goes slack and the catch disappears."@
    } else {
        "The fish overpowers your equipment and tears free. You may need more control."@
    }
}

/// The struggle prompt text for the required move.
pub open spec fn struggle_text(action: StruggleAction) -> Seq<char> {
    match action {
        StruggleAction::Pull => "The fish turns sharply toward jagged rocks. If it reaches them, the line will not survive."@,
        StruggleAction::GiveLine => "The fish dives straight down. The line starts to sing under the sudden load."@,
    }
}

/// `decision` lands the fish of `e` with reaction `r`.
pub open spec fn lands(decision: ReelDecision, content: Content, e: ActiveEncounter, r: Reaction) -> bool {
    let species = content.species_spec(e.species_id);
    decision == ReelDecision::Land {
        reaction: r,
        specimen: generate_specimen_spec(species, e.seed),
        wear: rod_wear(species.difficulty) as u32,
    }
}

/// The rod control an encounter is fought with, given the rod's stored condition.
pub open spec fn encounter_control(content: Content, e: ActiveEncounter, rod_condition: u32) -> u32 {
    effective_control_spec(content.rod_spec(e.rod_id).control, rod_condition)
}

/// The outcome of reeling in at the bite, once the press is known to be current.
pub open spec fn reel_matches(
    decision: ReelDecision,
    content: Content,
    e: ActiveEncounter,
    received_at_ms: i64,
    rod_condition: u32,
    discovery_count: i64,
) -> bool {
    let species = content.species_spec(e.species_id);
    let r = reaction_spec(species, reaction_elapsed(e.opened_at, received_at_ms));
    let first_catch = discovery_count == 0;
    if e.special_id == SPECIAL_RUSTED_KEY {
        if r == Reaction::Missed {
            decision matches ReelDecision::Escape { reason } && reason@ == reel_escape_reason(true, r)
        } else {
            decision == ReelDecision::Relic
        }
    } else if !can_land_spec(species, encounter_control(content, e, rod_condition), r, first_catch) {
        decision matches ReelDecision::Escape { reason } && reason@ == reel_escape_reason(false, r)
    } else if species.difficulty >= 13 && !first_catch {
        decision matches ReelDecision::Struggle { next_step, observation } && next_step == (if e.step
            == u32::MAX {
            u32::MAX as int
        } else {
            e.step + 1
        }) && observation@ == struggle_text(required_struggle_action_spec(e.seed))
    } else {
        lands(decision, content, e, r)
    }
}

/// Inputs on which pressing a button is defined: the encounter's species, and for fish its rod,
/// are in the content.
pub open spec fn press_defined(content: Content, found: Option<ActiveEncounter>) -> bool {
    found matches Some(e) ==> {
        &&& has_key(content.species@, e.species_id.0 as int)
        &&& e.special_id != SPECIAL_RUSTED_KEY ==> has_key(content.rods@, e.rod_id.0 as int)
    }
}

/// Reeling in at the bite of encounter `found`, pressed by `telegram_user_id` on the prompt of
/// `step`, with the encounter's rod at `rod_condition` and `discovery_count` species discovered
/// so far (the first catch is always landed and never fights).
pub fn reel_decision(
    content: &Content,
    found: Option<ActiveEncounter>,
    telegram_user_id: i64,
    step: u32,
    received_at_ms: i64,
    rod_condition: u32,
    discovery_count: i64,
) -> (outcome: Result<ReelDecision, GameError>)
    requires
        content.is_valid(),
        press_defined(*content, found),
    ensures
        match check_encounter_spec(
            match found {
                Some(e) => Some(e.key()),
                None => None::<EncounterKey>,
            },
            telegram_user_id,
            step,
            PHASE_BITE,
        ) {
            Err(error) => outcome == Err::<ReelDecision, GameError>(error),
            Ok(()) => outcome matches Ok(decision) && reel_matches(
                decision,
                *content,
                found->0,
                received_at_ms,
                rod_condition,
                discovery_count,
            ),
        },
{
    match check_encounter(encounter_key(found), telegram_user_id, step, PHASE_BITE) {
        Err(error) => return Err(error),
        Ok(()) => {},
    }
    let e = match found {
        Some(e) => e,
        None => return Err(GameError::StaleEncounter),
    };
    let species = content.species(e.species_id);
    proof {
        content.lemma_species_spec_valid(e.species_id);
    }
    let r = encounter_reaction(species, e.opened_at, received_at_ms);
    if e.special_id == SPECIAL_RUSTED_KEY {
        if r == Reaction::Missed {
            return Ok(
                ReelDecision::Escape {
                    reason: "You react too late. Something metallic scrapes across the stones and drops back into the black water.",
                },
            );
        }
        return Ok(ReelDecision::Relic);
    }
    let rod_control = effective_control(content.rod(e.rod_id).control, rod_condition);
    let first_catch = discovery_count == 0;
    if !can_land(species, rod_control, r, first_catch) {
        let reason = if r == Reaction::Missed {
            "You react too late. The line goes slack and the catch disappears."
        } else {
            "The fish overpowers your equipment and tears free. You may need more control."
        };
        return Ok(ReelDecision::Escape { reason });
    }
    if species.difficulty >= 13 && !first_catch {
        let next_step = if e.step == u32::MAX {
            u32::MAX
        } else {
            e.step + 1
        };
        let required = required_struggle_action(e.seed);
        return Ok(ReelDecision::Struggle { next_step, observation: struggle_observation(required) });
    }
    Ok(
        ReelDecision::Land {
            reaction: r,
            specimen: generate_specimen(species, e.seed),
            wear: wear_for(species.difficulty),
        },
    )
}

/// Why a struggling fish escapes.
pub open spec fn struggle_escape_reason(r: Reaction, required: StruggleAction) -> Seq<char> {
    if r == Reaction::Missed {
        "You hesitate too long during the struggle. The fish uses the slack moment to tear free."@
    } else {
        match required {
            StruggleAction::Pull => "You give the fish room when it needed to be turned. It reaches the rocks and the line parts instantly."@,
            StruggleAction::GiveLine => "You pull into the dive instead of yielding. The tension spikes and the hook rips free."@,
        }
    }
}

/// Answering a struggle prompt with `action`, once the press is known to be current.
pub open spec fn struggle_matches(
    decision: ReelDecision,
    content: Content,
    e: ActiveEncounter,
    action: StruggleAction,
    received_at_ms: i64,
    rod_condition: u32,
) -> bool {
    let species = content.species_spec(e.species_id);
    let r = reaction_spec(species, reaction_elapsed(e.opened_at, received_at_ms));
    let required = required_struggle_action_spec(e.seed);
    if struggle_succeeds_spec(species, encounter_control(content, e, rod_condition), r, action, required) {
        lands(decision, content, e, r)
    } else {
        decision matches ReelDecision::Escape { reason } && reason@ == struggle_escape_reason(r, required)
    }
}

/// Answering the struggle prompt of `step` with `action`.
pub fn struggle_decision(
    content: &Content,
    found: Option<ActiveEncounter>,
    telegram_user_id: i64,
    step: u32,
    action: StruggleAction,
    received_at_ms: i64,
    rod_condition: u32,
) -> (outcome: Result<ReelDecision, GameError>)
    requires
        content.is_valid(),
        found matches Some(e) ==> has_key(content.species@, e.species_id.0 as int) && has_key(
            content.rods@,
            e.rod_id.0 as int,
        ),
    ensures
        match check_encounter_spec(
            match found {
                Some(e) => Some(e.key()),
                None => None::<EncounterKey>,
            },
            telegram_user_id,
            step,
            PHASE_STRUGGLE,
        ) {
            Err(error) => outcome == Err::<ReelDecision, GameError>(error),
            Ok(()) => outcome matches Ok(decision) && struggle_matches(
                decision,
                *content,
                found->0,
                action,
                received_at_ms,
                rod_condition,
            ),
        },
{
    match check_encounter(encounter_key(found), telegram_user_id, step, PHASE_STRUGGLE) {
        Err(error) => return Err(error),
        Ok(()) => {},
    }
    let e = match found {
        Some(e) => e,
        None => return Err(GameError::StaleEncounter),
    };
    let species = content.species(e.species_id);
    proof {
        content.lemma_species_spec_valid(e.species_id);
    }
    let rod_control = effective_control(content.rod(e.rod_id).control, rod_condition);
    let r = encounter_reaction(species, e.opened_at, received_at_ms);
    let required = required_struggle_action(e.seed);
    if !struggle_succeeds(species, rod_control, r, action, required) {
        let reason = if r == Reaction::Missed {
            "You hesitate too long during the struggle. The fish uses the slack moment to tear free."
        } else {
            match required {
                StruggleAction::Pull => "You give the fish room when it needed to be turned. It reaches the rocks and the line parts instantly.",
                StruggleAction::GiveLine => "You pull into the dive instead of yielding. The tension spikes and the hook rips free.",
            }
        };
        return Ok(ReelDecision::Escape { reason });
    }
    Ok(
        ReelDecision::Land {
            reaction: r,
            specimen: generate_specimen(species, e.seed),
            wear: wear_for(species.difficulty),
        },
    )
}

/// The encounter left behind by a press decision: a struggle moves it to a new step in the
/// struggle phase; every other decision ends it.
pub open spec fn encounter_after(e: ActiveEncounter, decision: ReelDecision) -> Option<EncounterKey> {
    match decision {
        ReelDecision::Struggle { next_step, .. } => Some(
            EncounterKey { owner_user_id: e.owner_user_id, step: next_step, phase: PHASE_STRUGGLE },
        ),
        _ => None,
    }
}

/// A prompt is answered at most once: after a reel press is accepted, pressing the same prompt
/// again is stale, whatever the first press decided.
pub proof fn lemma_reel_press_consumes_prompt(
    content: Content,
    e: ActiveEncounter,
    telegram_user_id: i64,
    step: u32,
    received_at_ms: i64,
    rod_condition: u32,
    discovery_count: i64,
    decision: ReelDecision,
)
    requires
        check_encounter_spec(Some(e.key()), telegram_user_id, step, PHASE_BITE) is Ok,
        reel_matches(decision, content, e, received_at_ms, rod_condition, discovery_count),
    ensures
        check_encounter_spec(encounter_after(e, decision), telegram_user_id, step, PHASE_BITE)
            == Err::<(), GameError>(GameError::StaleEncounter),
{
}

/// The same holds of struggle prompts: an accepted answer ends the encounter.
pub proof fn lemma_struggle_press_consumes_prompt(
    content: Content,
    e: ActiveEncounter,
    telegram_user_id: i64,
    step: u32,
    action: StruggleAction,
    received_at_ms: i64,
    rod_condition: u32,
    decision: ReelDecision,
)
    requires
        check_encounter_spec(Some(e.key()), telegram_user_id, step, PHASE_STRUGGLE) is Ok,
        struggle_matches(decision, content, e, action, received_at_ms, rod_condition),
    ensures
        encounter_after(e, decision) is None,
        check_encounter_spec(encounter_after(e, decision), telegram_user_id, step, PHASE_STRUGGLE)
            == Err::<(), GameError>(GameError::StaleEncounter),
{
}

/// Experience for a catch: the species' own, plus ten for a first discovery.
pub open spec fn catch_xp_spec(species_xp: u32, new_species: bool) -> int {
    species_xp + if new_species {
        10int
    } else {
        0int
    }
}

/// Experience granted for landing a fish of the given species.
pub fn catch_xp(species: &crate::content::Species, new_species: bool) -> (xp: u32)
    requires
        catch_xp_spec(species.xp, new_species) <= u32::MAX,
    ensures
        xp == catch_xp_spec(species.xp, new_species),
{
    species.xp + if new_species {
        10
    } else {
        0
    }
}

/// How storage recorded a landed catch.
#[derive(Clone, Copy, Debug, PartialEq, Eq, Structural)]
pub struct CatchRecord {
    pub item_id: i64,
    pub new_species: bool,
    pub global_first: bool,
}

/// The catch card of a landed fish, and the experience award behind it.
pub fn catch_outcome(
    species: &crate::content::Species,
    chat_id: i64,
    message_id: i64,
    specimen: Specimen,
    reaction: Reaction,
    record: CatchRecord,
    standing: CharacterStanding,
) -> (result: (CatchView, ProgressRecord))
    requires
        catch_xp_spec(species.xp, record.new_species) <= u32::MAX,
    ensures
        ({
            let (view, progress) = result;
            let xp = catch_xp_spec(species.xp, record.new_species);
            &&& progress.total_xp == awarded_xp(standing.xp, xp as u32)
            &&& progress.level == level_spec(progress.total_xp as int)
            &&& progress.level_up == (progress.level > standing.level)
            &&& view.item_id == record.item_id
            &&& view.chat_id == chat_id
            &&& view.message_id == message_id
            &&& view.species_name@ == species.name@
            &&& view.length_mm == specimen.length_mm
            &&& view.weight_g == specimen.weight_g
            &&& view.reaction == reaction
            &&& view.new_species == record.new_species
            &&& view.global_first == record.global_first
            &&& view.xp_gained == xp
            &&& view.level == progress.level
            &&& view.level_up == progress.level_up
            &&& view.sale_value == crate::fishing::sale_value_spec(*species, specimen)
        }),
{
    let xp_gained = catch_xp(species, record.new_species);
    let progress = progress_after(standing.xp, standing.level, xp_gained);
    let view = CatchView {
        item_id: record.item_id,
        chat_id,
        message_id,
        species_name: species.name.clone(),
        length_mm: specimen.length_mm,
        weight_g: specimen.weight_g,
        reaction,
        new_species: record.new_species,
        global_first: record.global_first,
        xp_gained,
        level: progress.level,
        level_up: progress.level_up,
        sale_value: crate::fishing::sale_value(species, specimen),
    };
    (view, progress)
}

/// Experience for bringing up the Rusted Key.
pub const RELIC_XP: u32 = 30;

/// The relic card, and the experience award behind it.
pub fn relic_outcome(chat_id: i64, message_id: i64, global_first: bool, standing: CharacterStanding) -> (result:
    (RelicView, ProgressRecord))
    ensures
        ({
            let (view, progress) = result;
            &&& progress.total_xp == awarded_xp(standing.xp, RELIC_XP)
            &&& progress.level == level_spec(progress.total_xp as int)
            &&& progress.level_up == (progress.level > standing.level)
            &&& view.chat_id == chat_id
            &&& view.message_id == message_id
            &&& view.name@ == "Rusted Key"@
            &&& view.description@
                == "Corroded almost beyond recognition. A faded lighthouse emblem is still visible beneath the salt."@
            &&& view.global_first == global_first
            &&& view.xp_gained == RELIC_XP
            &&& view.level == progress.level
            &&& view.level_up == progress.level_up
        }),
{
    let progress = progress_after(standing.xp, standing.level, RELIC_XP);
    let view = RelicView {
        chat_id,
        message_id,
        name: "Rusted Key",
        description: "Corroded almost beyond recognition. A faded lighthouse emblem is still visible beneath the salt.",
        global_first,
        xp_gained: RELIC_XP,
        level: progress.level,
        level_up: progress.level_up,
    };
    (view, progress)
}

} // verus!
