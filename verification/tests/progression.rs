use game::content::{Bait, Content, EncounterWeight, Location, Rod, Species};
use game::error::GameError;
use game::ids::{BaitId, LocationId, RodId, SpeciesId};
use game::progression::{
    build_titles, claim_objective_outcome, contract_hint, contract_reward_coins, contract_reward_xp,
    contract_species, contract_view, equip_title_outcome, journal_view, npc_outcome, npc_story,
    objective_definition, objective_progress, progress_after, records_view, tasks_view,
    title_definition, title_unlocks, turn_in_contract_outcome, contract_specimen, CharacterStanding, ObjectiveRecord,
    StoredSpecimen, StoryProgress, TitleProgress,
};
use game::view::ContractView;
use game::world::GAME_DAY_REAL_MS;

fn species(id: u32, name: &str, xp: u32, base_value: u32) -> Species {
    Species {
        id: SpeciesId(id),
        name: name.to_owned(),
        min_length_mm: 100,
        typical_length_mm: 200,
        max_length_mm: 300,
        typical_weight_g: 500,
        difficulty: 4,
        xp,
        base_value,
        clue: format!("{name} clue"),
        bite_min_ms: 2_000,
        bite_max_ms: 6_000,
        reaction_ms: [600, 1_200, 2_000],
        required_weather: Vec::new(),
        required_day_parts: Vec::new(),
        bait_modifiers: Vec::new(),
    }
}

fn content() -> Content {
    let location = |id: u32, name: &str, encounters: Vec<EncounterWeight>| Location {
        id: LocationId(id),
        name: name.to_owned(),
        description: String::new(),
        fishable: !encounters.is_empty(),
        encounters,
    };
    let mut content = Content {
        baits: vec![Bait { id: BaitId(1), name: "Worms".to_owned(), fishing_power: 1, buy_price: 5, pack_size: 5, buyable: true }],
        rods: vec![Rod { id: RodId(1), name: "Starter Rod".to_owned(), control: 10, buy_price: 0 }],
        locations: vec![
            location(1, "Old Harbor", vec![EncounterWeight { species_id: SpeciesId(1), weight: 1 }]),
            location(2, "Broken Breakwater", Vec::new()),
            location(3, "Reed Pond", Vec::new()),
            location(4, "Old Lighthouse", Vec::new()),
            location(5, "Lighthouse Cove", Vec::new()),
        ],
        species: vec![species(1, "Harbor Perch", 5, 4), species(2, "Silver Roach", 6, 5), species(3, "Mud Crab", 4, 6)],
    };
    content.prepare().expect("valid content");
    content
}

#[test]
fn awards_clamp_negative_and_huge_experience() {
    let award = progress_after(-5, 1, 50);
    assert_eq!((award.total_xp, award.level, award.level_up), (50, 2, true));
    let capped = progress_after(i64::MAX - 3, 429_496_730, 10);
    assert_eq!(capped.total_xp, i64::MAX as u64);
    assert!(!capped.level_up);
    let steady = progress_after(60, 2, 0);
    assert_eq!((steady.total_xp, steady.level, steady.level_up), (60, 2, false));
}

#[test]
fn titles_follow_their_table() {
    assert_eq!(title_definition(0), Some(("No title", "Display no earned title.")));
    assert_eq!(title_definition(6), Some(("Shoalbound", "Take part in a group-chat shoal.")));
    assert_eq!(title_definition(7), None);
    let unlocks = title_unlocks(TitleProgress { catches: 10, species: 9, relic: true, objectives: 3, cove: false, group: true });
    assert_eq!(unlocks, [true, true, false, true, true, false, true]);
}

#[test]
fn title_list_marks_the_equipped_one() {
    let view = build_titles(3, [true, false, false, true, false, false, false]);
    assert_eq!(view.titles.len(), 7);
    assert_eq!(view.titles[3].name, "Relic Hunter");
    assert!(view.titles[3].equipped && view.titles[3].unlocked);
    assert!(!view.titles[1].unlocked);
    assert_eq!(view.titles.iter().filter(|title| title.equipped).count(), 1);
}

#[test]
fn equipping_titles_checks_unlocks() {
    let unlocks = [true, false, false, false, false, false, true];
    assert_eq!(equip_title_outcome(9, Some(unlocks)).unwrap_err(), GameError::UnknownTitle);
    assert_eq!(equip_title_outcome(1, None).unwrap_err(), GameError::CharacterMissing);
    assert_eq!(equip_title_outcome(1, Some(unlocks)).unwrap_err(), GameError::TitleLocked);
    let view = equip_title_outcome(6, Some(unlocks)).expect("unlocked");
    assert!(view.titles[6].equipped);
}

#[test]
fn milestones_follow_their_table() {
    let haul = objective_definition(1).expect("first haul");
    assert_eq!((haul.name, haul.target, haul.coins, haul.xp), ("First Haul", 5, 25, 20));
    let notes = objective_definition(2).expect("field notes");
    assert_eq!(notes.bait_reward, Some((BaitId(3), 5)));
    assert!(objective_definition(0).is_none());
    assert!(objective_definition(4).is_none());
    let record = ObjectiveRecord { catches: 9, species: 2, deep_water: true };
    assert_eq!(objective_progress(&haul, record), 5);
    assert_eq!(objective_progress(&notes, record), 2);
    assert_eq!(objective_progress(&objective_definition(3).expect("deep water"), record), 1);
}

#[test]
fn milestone_rewards_are_claimed_once() {
    let standing = CharacterStanding { coins: 200, xp: 10, level: 1 };
    let record = ObjectiveRecord { catches: 5, species: 1, deep_water: false };
    assert_eq!(claim_objective_outcome(9, Some(standing), false, record).unwrap_err(), GameError::UnknownObjective);
    assert_eq!(claim_objective_outcome(1, None, false, record).unwrap_err(), GameError::CharacterMissing);
    assert_eq!(claim_objective_outcome(1, Some(standing), true, record).unwrap_err(), GameError::ObjectiveClaimed);
    assert_eq!(claim_objective_outcome(2, Some(standing), false, record).unwrap_err(), GameError::ObjectiveIncomplete);
    let claim = claim_objective_outcome(1, Some(standing), false, record).expect("complete");
    assert_eq!(claim.reward.title, "First Haul complete");
    assert_eq!(claim.reward.coins, 225);
    assert_eq!(claim.reward.xp, 30);
    assert_eq!((claim.reward.level, claim.reward.level_up), (1, false));
    assert_eq!(claim.coins_gained, 25);
    assert_eq!(claim.bait_reward, None);
}

#[test]
fn contracts_rotate_daily() {
    assert_eq!(contract_species(0), SpeciesId(1));
    assert_eq!(contract_species(1), SpeciesId(2));
    assert_eq!(contract_species(2), SpeciesId(3));
    assert_eq!(contract_species(3), SpeciesId(1));
    assert_eq!(contract_species(-1), SpeciesId(3));
    let crab = species(3, "Mud Crab", 4, 6);
    assert_eq!(contract_reward_coins(&crab), 32);
    assert_eq!(contract_reward_xp(&crab), 16);
    let rich = species(9, "Gold", u32::MAX, u32::MAX / 2);
    assert_eq!(contract_reward_coins(&rich), u32::MAX);
    assert_eq!(contract_reward_xp(&rich), u32::MAX);
}

#[test]
fn contract_panel_counts_down_to_the_next_day() {
    let content = content();
    let now = GAME_DAY_REAL_MS + 1_000;
    let view = contract_view(&content, now, false, true);
    assert_eq!(view.species_name, "Silver Roach");
    assert_eq!((view.reward_coins, view.reward_xp), (28, 18));
    assert!(view.ready && !view.claimed);
    assert_eq!(view.resets_in_ms, GAME_DAY_REAL_MS - 1_000);
    assert!(!contract_view(&content, now, true, true).ready);
}

#[test]
fn warden_hints_follow_the_contract() {
    let mut contract = ContractView { species_name: "Mud Crab".to_owned(), reward_coins: 32, reward_xp: 16, ready: false, claimed: false, resets_in_ms: 5 };
    assert_eq!(contract_hint(&contract), "The current harbor contract is for one Mud Crab. I only need an ordinary specimen.");
    contract.ready = true;
    assert_eq!(contract_hint(&contract), "You already have the Mud Crab I asked for. Bring it to the board when you're ready.");
    contract.claimed = true;
    assert!(contract_hint(&contract).starts_with("Today's harbor contract is already settled."));
    assert!(npc_story(false, false, false).starts_with("Fishing keeps this place fed"));
    assert!(npc_story(true, false, false).starts_with("That's a lighthouse key"));
    assert!(npc_story(true, true, false).starts_with("If that key belongs anywhere"));
    assert!(npc_story(true, true, true).starts_with("So the old service stair"));
}

#[test]
fn the_warden_only_talks_at_the_harbor() {
    let contract = ContractView { species_name: "Mud Crab".to_owned(), reward_coins: 32, reward_xp: 16, ready: false, claimed: false, resets_in_ms: 5 };
    let away = StoryProgress { at_harbor: false, has_key: false, knows_lighthouse: false, knows_cove: false };
    assert_eq!(npc_outcome(None, &contract, 0).unwrap_err(), GameError::CharacterMissing);
    assert_eq!(npc_outcome(Some(away), &contract, 0).unwrap_err(), GameError::NoNpcHere);
    let here = StoryProgress { at_harbor: true, ..away };
    let quiet = npc_outcome(Some(here), &contract, 0).expect("at the harbor");
    assert_eq!((quiet.name, quiet.title), ("Mara", "Harbor Warden"));
    assert_eq!(quiet.hint, contract_hint(&contract));
    let busy = npc_outcome(Some(here), &contract, 2).expect("at the harbor");
    assert!(busy.hint.ends_with("the tackle bench can turn ordinary specimens into useful bait."));
}

#[test]
fn contract_uses_smallest_matching_specimen_and_keeps_history() {
    let content = content();
    let now = 1_000_000_000;
    let standing = CharacterStanding { coins: 900, xp: 120, level: 2 };
    assert_eq!(turn_in_contract_outcome(&content, now, None, false, Some(3)).unwrap_err(), GameError::CharacterMissing);
    assert_eq!(turn_in_contract_outcome(&content, now, Some(standing), true, Some(3)).unwrap_err(), GameError::ContractClaimed);
    assert_eq!(turn_in_contract_outcome(&content, now, Some(standing), false, None).unwrap_err(), GameError::ContractNotReady);
    let turn_in = turn_in_contract_outcome(&content, now, Some(standing), false, Some(3)).expect("ready");
    let wanted = contract_species(now / GAME_DAY_REAL_MS);
    assert_eq!(turn_in.species_id, wanted);
    assert_eq!(turn_in.item_id, 3);
    let name = &content.species(wanted).name;
    assert_eq!(turn_in.reward.text, format!("Mara accepts your smallest stored {name} specimen. Better specimens stay in your collection."));
    assert_eq!(turn_in.reward.coins, 900 + u64::from(turn_in.coins_gained));
    assert_eq!(turn_in.reward.title, "Harbor contract complete");
}

#[test]
fn board_lists_every_milestone() {
    let contract = ContractView { species_name: "Mud Crab".to_owned(), reward_coins: 32, reward_xp: 16, ready: false, claimed: false, resets_in_ms: 5 };
    let view = tasks_view(ObjectiveRecord { catches: 7, species: 3, deep_water: false }, &[1], contract);
    assert_eq!(view.objectives.len(), 3);
    assert_eq!((view.objectives[0].progress, view.objectives[0].completed, view.objectives[0].claimed), (5, true, true));
    assert_eq!((view.objectives[1].progress, view.objectives[1].completed, view.objectives[1].claimed), (3, false, false));
    assert_eq!(view.objectives[2].name, "Deep Water");
    assert_eq!(view.contract.species_name, "Mud Crab");
}

#[test]
fn journal_lists_discoveries() {
    let content = content();
    let view = journal_view(&content, &[(SpeciesId(1), Some(480)), (SpeciesId(3), None)], true, 2);
    assert_eq!((view.discovered, view.total), (2, 3));
    assert_eq!(view.species[0].best_weight_g, Some(480));
    assert!(view.species[0].discovered && !view.species[1].discovered && view.species[2].discovered);
    assert_eq!(view.species[1].clue, "Silver Roach clue");
    assert_eq!((view.locations_discovered, view.locations_total), (2, 5));
    assert!(view.rusted_key_discovered);
}

#[test]
fn records_clamp_totals() {
    let content = content();
    let view = records_view(&content, -3, 12_000, Some((SpeciesId(2), 210, 640)), &[(SpeciesId(2), 640, 700)]);
    assert_eq!((view.lifetime_catches, view.lifetime_weight_g), (0, 12_000));
    let heaviest = view.heaviest.expect("heaviest");
    assert_eq!(heaviest.species_name, "Silver Roach");
    assert_eq!(heaviest.value, game::fishing::sale_value(content.species(SpeciesId(2)), game::fishing::Specimen { length_mm: 210, weight_g: 640 }));
    assert_eq!(view.entries[0].species_name, "Silver Roach");
    assert_eq!((view.entries[0].personal_best_g, view.entries[0].world_best_g), (640, 700));
}

#[test]
fn contracts_retire_the_smallest_specimen() {
    let specimen = |item_id: i64, weight_g: u32, caught_at_ms: i64| StoredSpecimen { item_id, weight_g, caught_at_ms };
    assert_eq!(contract_specimen(&[]), None);
    let stored = [specimen(1, 900, 10), specimen(2, 120, 50), specimen(3, 120, 20), specimen(4, 400, 5)];
    assert_eq!(contract_specimen(&stored), Some(3));
    let twins = [specimen(8, 120, 20), specimen(7, 120, 20)];
    assert_eq!(contract_specimen(&twins), Some(7));
}
