use game::angling::{
    cast_plan, cast_target, catch_outcome, check_encounter, encounter_reaction, fire_timer_outcome,
    presentation_deadline, presented_encounter, reel_decision, relic_outcome, struggle_decision, worn_condition,
    ActiveEncounter, CastContext, Caster, CatchRecord, DueTimer, EncounterKey, PresentedEncounter,
    ReelDecision, TimerAction, TimerEncounter, PHASE_BITE, PHASE_STRUGGLE, PHASE_WAITING,
    SPECIAL_NONE, SPECIAL_RUSTED_KEY, TIMER_BITE, TIMER_DEADLINE,
};
use game::content::{Bait, BaitModifier, Content, EncounterWeight, IdKind, InvalidContent, Location, Rod, Species};
use game::error::GameError;
use game::fishing::{
    bite_delay_ms, can_land, generate_specimen, sale_value, select_species, Reaction, StruggleAction,
};
use game::ids::{BaitId, EncounterId, LocationId, RodId, SpeciesId};
use game::progression::CharacterStanding;
use game::view::TimerOutcome;
use game::world::{environment_at, DayPart, Environment, Weather};

fn bait(id: u32, name: &str, power: u32, price: u32, pack: u32, buyable: bool) -> Bait {
    Bait { id: BaitId(id), name: name.to_owned(), fishing_power: power, buy_price: price, pack_size: pack, buyable }
}

fn rod(id: u32, name: &str, control: u32, price: u32) -> Rod {
    Rod { id: RodId(id), name: name.to_owned(), control, buy_price: price }
}

fn species(id: u32, name: &str, difficulty: u32, xp: u32, base_value: u32) -> Species {
    Species {
        id: SpeciesId(id),
        name: name.to_owned(),
        min_length_mm: 100,
        typical_length_mm: 200,
        max_length_mm: 300,
        typical_weight_g: 500,
        difficulty,
        xp,
        base_value,
        clue: format!("{name} clue"),
        bite_min_ms: 2_000,
        bite_max_ms: 6_000,
        reaction_ms: [600, 1_200, 2_000],
        required_weather: Vec::new(),
        required_day_parts: Vec::new(),
        bait_modifiers: Vec::new(),
    }
}

fn location(id: u32, name: &str, encounters: &[(u32, u32)]) -> Location {
    Location {
        id: LocationId(id),
        name: name.to_owned(),
        description: format!("{name} description"),
        fishable: !encounters.is_empty(),
        encounters: encounters.iter().map(|&(species, weight)| EncounterWeight { species_id: SpeciesId(species), weight }).collect(),
    }
}

fn content() -> Content {
    let mut eel = species(4, "Harbor Eel", 9, 12, 9);
    eel.bait_modifiers = vec![BaitModifier { bait_id: BaitId(7), multiplier_bp: 30_000 }];
    let mut content = Content {
        baits: vec![
            bait(7, "Crab Paste", 6, 0, 3, false),
            bait(1, "Worms", 1, 5, 5, true),
            bait(3, "Glow Larvae", 4, 12, 5, true),
            bait(6, "Fish Chunks", 5, 0, 4, false),
        ],
        rods: vec![rod(2, "Reinforced Rod", 20, 55), rod(1, "Starter Rod", 10, 0)],
        locations: vec![
            location(1, "Old Harbor", &[(1, 60), (2, 30), (3, 10)]),
            location(2, "Broken Breakwater", &[(6, 20), (4, 80)]),
            location(3, "Reed Pond", &[(2, 50), (5, 50)]),
            location(4, "Old Lighthouse", &[]),
            location(5, "Lighthouse Cove", &[(6, 100)]),
        ],
        species: vec![
            species(1, "Harbor Perch", 3, 5, 4),
            species(2, "Silver Roach", 5, 6, 5),
            species(3, "Mud Crab", 4, 4, 6),
            eel,
            species(5, "Pond Carp", 7, 8, 7),
            species(6, "Old Sturgeon", 16, 40, 30),
            species(25, "Echo Herring", 6, 9, 8),
            species(26, "Rumor Carp", 8, 11, 10),
        ],
    };
    content.prepare().expect("valid content");
    content
}

fn clear_day() -> Environment {
    Environment { weather: Weather::Clear, game_minute: 720, day_part: DayPart::Day }
}

#[test]
fn prepared_content_is_sorted_and_valid() {
    let content = content();
    let ids: Vec<u32> = content.baits.iter().map(|bait| bait.id.0).collect();
    assert_eq!(ids, vec![1, 3, 6, 7]);
    assert_eq!(content.rod(RodId(2)).name, "Reinforced Rod");
    assert_eq!(content.location(LocationId(3)).name, "Reed Pond");
}

#[test]
fn content_refusals_name_the_problem() {
    let mut missing = content();
    missing.locations.retain(|location| location.id != LocationId(4));
    assert_eq!(missing.prepare(), Err(InvalidContent::MissingLocation { location: 4 }));

    let mut free = content();
    free.rods[1].buy_price = 0;
    assert_eq!(free.prepare(), Err(InvalidContent::FreeRod { rod: 2 }));

    let mut unknown = content();
    unknown.locations[2].encounters.push(EncounterWeight { species_id: SpeciesId(99), weight: 1 });
    assert_eq!(unknown.prepare(), Err(InvalidContent::UnknownEncounterSpecies { location: 3, species: 99 }));

    let mut inverted = content();
    inverted.species[0].min_length_mm = 400;
    assert_eq!(inverted.prepare(), Err(InvalidContent::InvalidLengthBounds { species: 1 }));
}

#[test]
fn duplicate_ids_are_reported_first() {
    // A repeated rod id and a repeated species id, beside other problems: the species comes first.
    let mut twice = content();
    twice.locations.retain(|location| location.id != LocationId(4));
    twice.rods.push(twice.rods[0].clone());
    let copy = twice.species[2].clone();
    twice.species.push(copy);
    let extra = twice.species[0].clone();
    twice.species.push(extra);
    assert_eq!(twice.prepare(), Err(InvalidContent::DuplicateId { kind: IdKind::Species, id: 1 }));

    let mut rods = content();
    rods.species[0].min_length_mm = 400;
    rods.rods.push(rods.rods[1].clone());
    assert_eq!(rods.prepare(), Err(InvalidContent::DuplicateId { kind: IdKind::Rod, id: 2 }));
}

#[test]
fn deterministic_selection() {
    let content = content();
    let environment = Environment { weather: Weather::Clear, game_minute: 720, day_part: DayPart::Day };
    let first = select_species(&content, LocationId(1), BaitId(1), environment, 42);
    let second = select_species(&content, LocationId(1), BaitId(1), environment, 42);
    assert_eq!(first, second);
}

#[test]
fn selected_species_live_at_the_location() {
    let content = content();
    for seed in 0..200_u64 {
        let id = select_species(&content, LocationId(3), BaitId(1), clear_day(), seed);
        assert!(id == SpeciesId(2) || id == SpeciesId(5));
    }
}

#[test]
fn first_catch_is_forgiving() {
    let content = content();
    let sturgeon = content.species(SpeciesId(6));
    assert!(can_land(sturgeon, 10, Reaction::Late, true));
    assert!(!can_land(sturgeon, 10, Reaction::Excellent, false));
}

#[test]
fn bait_power_shortens_wait_without_changing_seed_determinism() {
    let content = content();
    let species = content.species(SpeciesId(1));
    let weak = bite_delay_ms(species, 0, 999);
    let strong = bite_delay_ms(species, 20, 999);
    assert!(strong <= weak);
    assert_eq!(strong, bite_delay_ms(species, 20, 999));
}

#[test]
fn specimens_are_stable() {
    let content = content();
    let species = content.species(SpeciesId(1));
    let first = generate_specimen(species, 123);
    let second = generate_specimen(species, 123);
    assert_eq!(first.length_mm, second.length_mm);
    assert_eq!(first.weight_g, second.weight_g);
    assert!((100..=300).contains(&first.length_mm));
    assert!(sale_value(species, first) >= 1);
}

#[test]
fn stale_and_foreign_presses_are_refused() {
    let key = EncounterKey { owner_user_id: 7, step: 2, phase: PHASE_BITE };
    assert_eq!(check_encounter(None, 7, 2, PHASE_BITE), Err(GameError::StaleEncounter));
    assert_eq!(check_encounter(Some(key), 8, 2, PHASE_BITE), Err(GameError::WrongPlayer));
    assert_eq!(check_encounter(Some(key), 7, 1, PHASE_BITE), Err(GameError::StaleEncounter));
    assert_eq!(check_encounter(Some(key), 7, 2, PHASE_STRUGGLE), Err(GameError::StaleEncounter));
    assert_eq!(check_encounter(Some(key), 7, 2, PHASE_BITE), Ok(()));
}

#[test]
fn reaction_counts_from_the_shown_prompt() {
    let content = content();
    let perch = content.species(SpeciesId(1));
    assert_eq!(encounter_reaction(perch, Some(1_000), 1_500), Reaction::Excellent);
    assert_eq!(encounter_reaction(perch, Some(1_000), 2_100), Reaction::Good);
    assert_eq!(encounter_reaction(perch, Some(1_000), 2_900), Reaction::Late);
    assert_eq!(encounter_reaction(perch, Some(1_000), 3_100), Reaction::Missed);
    assert_eq!(encounter_reaction(perch, None, 3_100), Reaction::Excellent);
}

#[test]
fn deadlines_start_once_per_prompt() {
    let content = content();
    let bite = PresentedEncounter { species_id: SpeciesId(1), step: 1, phase: PHASE_BITE, opened_at: None };
    assert_eq!(presentation_deadline(&content, Some(bite), 1, 10_000), Some(12_000));
    let fight = PresentedEncounter { phase: PHASE_STRUGGLE, ..bite };
    assert_eq!(presentation_deadline(&content, Some(fight), 1, 10_000), Some(14_000));
    let shown = PresentedEncounter { opened_at: Some(9_000), ..bite };
    assert_eq!(presentation_deadline(&content, Some(shown), 1, 10_000), None);
    assert_eq!(presentation_deadline(&content, Some(bite), 2, 10_000), None);
    let waiting = PresentedEncounter { phase: PHASE_WAITING, ..bite };
    assert_eq!(presentation_deadline(&content, Some(waiting), 1, 10_000), None);
    assert_eq!(presentation_deadline(&content, None, 1, 10_000), None);
}

fn timer_encounter(step: u32, phase: i64, special_id: i64) -> TimerEncounter {
    TimerEncounter { chat_id: 5, message_id: 6, step, phase, species_id: SpeciesId(6), special_id }
}

#[test]
fn bite_timer_opens_the_next_step() {
    let content = content();
    let timer = DueTimer { kind: TIMER_BITE, encounter_id: EncounterId(9), step: 0 };
    let (action, outcome) = fire_timer_outcome(&content, Some(timer), Some(timer_encounter(0, PHASE_WAITING, SPECIAL_NONE)));
    assert_eq!(action, TimerAction::OpenBite { next_step: 1 });
    match outcome {
        TimerOutcome::Bite(bite) => {
            assert_eq!(bite.step, 1);
            assert_eq!(bite.encounter_id, EncounterId(9));
            assert_eq!((bite.chat_id, bite.message_id), (5, 6));
            assert_eq!(bite.observation, "Your rod bends violently. Whatever took the bait is extremely powerful.");
        }
        other => panic!("expected a bite, got {other:?}"),
    }
    // After the bite, a press on the cast's step is stale.
    let after = EncounterKey { owner_user_id: 1, step: 1, phase: PHASE_BITE };
    assert_eq!(check_encounter(Some(after), 1, 0, PHASE_BITE), Err(GameError::StaleEncounter));
}

#[test]
fn relic_bite_scrapes_metal() {
    let content = content();
    let timer = DueTimer { kind: TIMER_BITE, encounter_id: EncounterId(9), step: 0 };
    let (_, outcome) = fire_timer_outcome(&content, Some(timer), Some(timer_encounter(0, PHASE_WAITING, SPECIAL_RUSTED_KEY)));
    match outcome {
        TimerOutcome::Bite(bite) => assert!(bite.observation.starts_with("The hook drags against something hard.")),
        other => panic!("expected a bite, got {other:?}"),
    }
}

#[test]
fn deadline_timer_loses_the_catch() {
    let content = content();
    let timer = DueTimer { kind: TIMER_DEADLINE, encounter_id: EncounterId(9), step: 3 };
    let (action, outcome) = fire_timer_outcome(&content, Some(timer), Some(timer_encounter(3, PHASE_STRUGGLE, SPECIAL_NONE)));
    assert_eq!(action, TimerAction::ClearEncounter);
    match outcome {
        TimerOutcome::Escaped(escape) => assert_eq!(escape.reason, "You wait too long. Whatever was on the line is gone."),
        other => panic!("expected an escape, got {other:?}"),
    }
}

#[test]
fn stale_timers_change_nothing() {
    let content = content();
    let timer = DueTimer { kind: TIMER_DEADLINE, encounter_id: EncounterId(9), step: 3 };
    let (action, outcome) = fire_timer_outcome(&content, Some(timer), Some(timer_encounter(4, PHASE_BITE, SPECIAL_NONE)));
    assert_eq!(action, TimerAction::DeleteTimer);
    assert!(matches!(outcome, TimerOutcome::Stale));
    let (action, _) = fire_timer_outcome(&content, Some(timer), None);
    assert_eq!(action, TimerAction::DeleteTimer);
    let (action, _) = fire_timer_outcome(&content, None, None);
    assert_eq!(action, TimerAction::Nothing);
    let bite_late = DueTimer { kind: TIMER_BITE, ..timer };
    let (action, _) = fire_timer_outcome(&content, Some(bite_late), Some(timer_encounter(3, PHASE_BITE, SPECIAL_NONE)));
    assert_eq!(action, TimerAction::DeleteTimer);
}

#[test]
fn breakwater_hides_the_rusted_key() {
    let content = content();
    let env = clear_day();
    assert_eq!(cast_target(&content, LocationId(2), BaitId(1), env, 8, false, 0), (SpeciesId(1), SPECIAL_RUSTED_KEY));
    assert_eq!(cast_target(&content, LocationId(2), BaitId(1), env, 9, false, 4), (SpeciesId(1), SPECIAL_RUSTED_KEY));
    let (fish, special) = cast_target(&content, LocationId(2), BaitId(1), env, 9, false, 3);
    assert_eq!(special, SPECIAL_NONE);
    assert!(fish == SpeciesId(4) || fish == SpeciesId(6));
    let (_, owned) = cast_target(&content, LocationId(2), BaitId(1), env, 8, true, 10);
    assert_eq!(owned, SPECIAL_NONE);
}

#[test]
fn cast_refusals_come_in_order() {
    let content = content();
    let caster = Caster { location_id: LocationId(1), bait_id: BaitId(1), rod_id: RodId(1) };
    let ready = CastContext { active: false, bait_quantity: 3, owns_key: false, breakwater_catches: 0 };
    assert_eq!(cast_plan(&content, None, ready, 1, 0).unwrap_err(), GameError::CharacterMissing);
    assert_eq!(cast_plan(&content, Some(caster), CastContext { active: true, ..ready }, 1, 0).unwrap_err(), GameError::EncounterActive);
    let lighthouse = Caster { location_id: LocationId(4), ..caster };
    assert_eq!(cast_plan(&content, Some(lighthouse), ready, 1, 0).unwrap_err(), GameError::NotFishable);
    assert_eq!(cast_plan(&content, Some(caster), CastContext { bait_quantity: 0, ..ready }, 1, 0).unwrap_err(), GameError::NoBait);
    let now = 1_000_000_000;
    let plan = cast_plan(&content, Some(caster), ready, 42, now).expect("cast");
    assert_eq!(plan.special_id, SPECIAL_NONE);
    assert_eq!(plan.species_id, select_species(&content, LocationId(1), BaitId(1), environment_at(now), 42));
    let delay = bite_delay_ms(content.species(plan.species_id), 1, 42);
    assert_eq!(plan.due_at_ms, now + delay as i64);
    assert_eq!(plan.environment, environment_at(now));
}

fn active(species: u32, special_id: i64, phase: i64, opened_at: Option<i64>) -> ActiveEncounter {
    ActiveEncounter {
        owner_user_id: 7,
        chat_id: 5,
        message_id: 6,
        step: 1,
        phase,
        species_id: SpeciesId(species),
        special_id,
        seed: 123,
        rod_id: RodId(1),
        opened_at,
    }
}

#[test]
fn reel_lands_an_easy_fish() {
    let content = content();
    let encounter = active(1, SPECIAL_NONE, PHASE_BITE, Some(1_000));
    match reel_decision(&content, Some(encounter), 7, 1, 1_300, 100, 3).expect("current press") {
        ReelDecision::Land { reaction, specimen, wear } => {
            assert_eq!(reaction, Reaction::Excellent);
            assert_eq!(specimen, generate_specimen(content.species(SpeciesId(1)), 123));
            assert_eq!(wear, 1);
        }
        other => panic!("expected a landing, got {other:?}"),
    }
}

#[test]
fn reel_refuses_stale_presses() {
    let content = content();
    let encounter = active(1, SPECIAL_NONE, PHASE_BITE, Some(1_000));
    assert_eq!(reel_decision(&content, Some(encounter), 8, 1, 1_300, 100, 3).unwrap_err(), GameError::WrongPlayer);
    assert_eq!(reel_decision(&content, Some(encounter), 7, 0, 1_300, 100, 3).unwrap_err(), GameError::StaleEncounter);
    assert_eq!(reel_decision(&content, None, 7, 1, 1_300, 100, 3).unwrap_err(), GameError::StaleEncounter);
}

#[test]
fn hard_fish_fight_or_tear_free() {
    let content = content();
    let sturgeon = active(6, SPECIAL_NONE, PHASE_BITE, Some(1_000));
    match reel_decision(&content, Some(sturgeon), 7, 1, 1_300, 100, 3).expect("current press") {
        ReelDecision::Escape { reason } => assert_eq!(reason, "The fish overpowers your equipment and tears free. You may need more control."),
        other => panic!("expected an escape, got {other:?}"),
    }
    match reel_decision(&content, Some(sturgeon), 7, 1, 9_000, 100, 3).expect("current press") {
        ReelDecision::Escape { reason } => assert_eq!(reason, "You react too late. The line goes slack and the catch disappears."),
        other => panic!("expected an escape, got {other:?}"),
    }
    // The first catch always lands and never fights.
    assert!(matches!(reel_decision(&content, Some(sturgeon), 7, 1, 1_300, 100, 0), Ok(ReelDecision::Land { .. })));
    let strong = ActiveEncounter { rod_id: RodId(2), ..sturgeon };
    let mut tough = content.clone();
    tough.rods.iter_mut().for_each(|rod| rod.control = 200);
    match reel_decision(&tough, Some(strong), 7, 1, 1_300, 100, 3).expect("current press") {
        ReelDecision::Struggle { next_step, observation } => {
            assert_eq!(next_step, 2);
            assert!(observation.starts_with("The fish"));
        }
        other => panic!("expected a struggle, got {other:?}"),
    }
}

#[test]
fn relic_reels_up_the_key() {
    let content = content();
    let relic = active(1, SPECIAL_RUSTED_KEY, PHASE_BITE, Some(1_000));
    assert!(matches!(reel_decision(&content, Some(relic), 7, 1, 1_300, 100, 3), Ok(ReelDecision::Relic)));
    match reel_decision(&content, Some(relic), 7, 1, 5_000, 100, 3).expect("current press") {
        ReelDecision::Escape { reason } => assert!(reason.contains("Something metallic")),
        other => panic!("expected an escape, got {other:?}"),
    }
    let (view, progress) = relic_outcome(5, 6, true, CharacterStanding { coins: 0, xp: 40, level: 1 });
    assert_eq!(view.name, "Rusted Key");
    assert_eq!(view.xp_gained, 30);
    assert_eq!(progress.total_xp, 70);
    assert_eq!((view.level, view.level_up), (2, true));
}

#[test]
fn struggle_needs_the_right_move() {
    let content = content();
    let fight = active(6, SPECIAL_NONE, PHASE_STRUGGLE, Some(1_000));
    let required = game::fishing::required_struggle_action(123);
    let wrong = match required {
        StruggleAction::Pull => StruggleAction::GiveLine,
        StruggleAction::GiveLine => StruggleAction::Pull,
    };
    assert!(matches!(struggle_decision(&content, Some(fight), 7, 1, required, 1_300, 100), Ok(ReelDecision::Land { .. })));
    assert!(matches!(struggle_decision(&content, Some(fight), 7, 1, wrong, 1_300, 100), Ok(ReelDecision::Escape { .. })));
    match struggle_decision(&content, Some(fight), 7, 1, required, 9_000, 100).expect("current press") {
        ReelDecision::Escape { reason } => assert!(reason.starts_with("You hesitate too long")),
        other => panic!("expected an escape, got {other:?}"),
    }
    assert_eq!(struggle_decision(&content, Some(fight), 7, 1, required, 1_300, 100).is_ok(), true);
    let bite = active(6, SPECIAL_NONE, PHASE_BITE, Some(1_000));
    assert_eq!(struggle_decision(&content, Some(bite), 7, 1, required, 1_300, 100).unwrap_err(), GameError::StaleEncounter);
}

#[test]
fn catches_award_experience_and_wear_rods() {
    let content = content();
    let perch = content.species(SpeciesId(1));
    let specimen = generate_specimen(perch, 123);
    let record = CatchRecord { item_id: 77, new_species: true, global_first: false };
    let (view, progress) = catch_outcome(perch, 5, 6, specimen, Reaction::Good, record, CharacterStanding { coins: 0, xp: 40, level: 1 });
    assert_eq!(view.xp_gained, 15);
    assert_eq!(progress.total_xp, 55);
    assert_eq!(view.level, 2);
    assert!(view.level_up);
    assert_eq!(view.item_id, 77);
    assert_eq!(view.species_name, "Harbor Perch");
    assert_eq!(view.sale_value, sale_value(perch, specimen));
    assert_eq!(worn_condition(100, 3), 97);
    assert_eq!(worn_condition(2, 3), 1);
    assert_eq!(worn_condition(3, 3), 1);
}

#[test]
fn catch_is_persisted_and_duplicate_step_is_stale() {
    let content = content();
    let encounter = active(1, SPECIAL_NONE, PHASE_BITE, Some(1_000));
    let landed = reel_decision(&content, Some(encounter), 7, 1, 3_000, 100, 3).expect("reel");
    assert!(matches!(landed, ReelDecision::Land { .. }));
    // A landed catch clears the encounter, so the same step pressed again finds nothing to reel.
    assert_eq!(reel_decision(&content, None, 7, 1, 3_100, 100, 3).unwrap_err(), GameError::StaleEncounter);
}

#[test]
fn presenting_a_prompt_twice_changes_nothing() {
    let content = content();
    let bite = PresentedEncounter { species_id: SpeciesId(1), step: 1, phase: PHASE_BITE, opened_at: None };
    assert_eq!(presentation_deadline(&content, Some(bite), 1, 10_000), Some(12_000));
    let opened = presented_encounter(Some(bite), 1, 10_000);
    assert_eq!(opened, Some(PresentedEncounter { opened_at: Some(10_000), ..bite }));
    assert_eq!(presentation_deadline(&content, opened, 1, 15_000), None);
    assert_eq!(presented_encounter(opened, 1, 15_000), opened);
    // Another step, another phase or no encounter: nothing happens.
    assert_eq!(presented_encounter(Some(bite), 2, 10_000), Some(bite));
    let waiting = PresentedEncounter { phase: PHASE_WAITING, ..bite };
    assert_eq!(presented_encounter(Some(waiting), 1, 10_000), Some(waiting));
    assert_eq!(presented_encounter(None, 1, 10_000), None);
}

#[test]
fn content_problems_come_in_a_fixed_order() {
    // A missing location is reported before a free rod and bad length bounds.
    let mut many = content();
    many.locations.retain(|location| location.id != LocationId(5));
    many.rods[1].buy_price = 0;
    many.species[0].min_length_mm = 400;
    assert_eq!(many.prepare(), Err(InvalidContent::MissingLocation { location: 5 }));
    // Rods are checked before baits, and the species last.
    let mut equipment = content();
    equipment.baits[1].pack_size = 0;
    equipment.rods[1].buy_price = 0;
    equipment.species[0].min_length_mm = 400;
    assert_eq!(equipment.prepare(), Err(InvalidContent::FreeRod { rod: 2 }));
    let mut bait = content();
    bait.baits[1].pack_size = 0;
    bait.species[0].min_length_mm = 400;
    assert_eq!(bait.prepare(), Err(InvalidContent::EmptyBaitPack { bait: bait.baits[1].id.0 }));
}

#[test]
fn content_problems_read_as_messages() {
    assert_eq!(InvalidContent::DuplicateId { kind: IdKind::Rod, id: 12 }.message(), "duplicate rod id 12");
    assert_eq!(InvalidContent::DuplicateId { kind: IdKind::BaitModifier, id: 3 }.message(), "duplicate bait modifier id 3");
    assert_eq!(InvalidContent::MissingLocation { location: 4 }.message(), "required MVP location 4 is missing");
    assert_eq!(InvalidContent::FishableWithoutEncounters { location: 2 }.message(), "location 2: fishable location has no encounters");
    assert_eq!(InvalidContent::EncountersAtUnfishable { location: 4 }.message(), "location 4: non-fishable location has encounters");
    assert_eq!(InvalidContent::ZeroEncounterWeight { location: 1 }.message(), "location 1 has zero encounter weight");
    assert_eq!(
        InvalidContent::UnknownEncounterSpecies { location: 3, species: 99 }.message(),
        "location 3 references unknown species 99"
    );
    assert_eq!(InvalidContent::MissingStarterBait.message(), "starter bait 1 is missing");
    assert_eq!(InvalidContent::MissingStarterRod.message(), "starter rod 1 is missing");
    assert_eq!(InvalidContent::FreeRod { rod: 2 }.message(), "rod 2 has zero buy price");
    assert_eq!(InvalidContent::FreeBuyableBait { bait: 7 }.message(), "buyable bait 7 has zero buy price");
    assert_eq!(InvalidContent::EmptyBaitPack { bait: 10 }.message(), "bait 10 has zero pack size");
    assert_eq!(InvalidContent::InvalidLengthBounds { species: 1 }.message(), "species 1 has invalid length bounds");
    assert_eq!(InvalidContent::InvalidReactionWindows { species: 0 }.message(), "species 0 has invalid reaction windows");
    assert_eq!(InvalidContent::InvalidBiteDelay { species: 4_294_967_295 }.message(), "species 4294967295 has invalid bite delay");
    assert_eq!(
        InvalidContent::UnknownModifierBait { species: 6, bait: 100 }.message(),
        "species 6 references unknown bait 100"
    );
}
