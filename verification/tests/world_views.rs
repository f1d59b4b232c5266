use game::fishing::Reaction;
use game::panels::{bait_notice, clock_parts, duration_parts, home_actions, reaction_label, weight_parts, HomeActions};
use game::character::{character_view, conditions_view, CharacterState};
use game::content::{Bait, Content, EncounterWeight, Location, Rod, Species};
use game::error::GameError;
use game::exploration::{explore_check, explore_view, exploration_finding, locations_view, travel_check};
use game::ids::{BaitId, LocationId, RodId, SpeciesId};
use game::world::{environment_at, next_weather_change_ms, Weather};

fn species(id: u32, name: &str, weather: Vec<u8>) -> Species {
    Species {
        id: SpeciesId(id),
        name: name.to_owned(),
        min_length_mm: 100,
        typical_length_mm: 200,
        max_length_mm: 300,
        typical_weight_g: 500,
        difficulty: 4,
        xp: 5,
        base_value: 10,
        clue: String::new(),
        bite_min_ms: 2_000,
        bite_max_ms: 6_000,
        reaction_ms: [600, 1_200, 2_000],
        required_weather: weather,
        required_day_parts: Vec::new(),
        bait_modifiers: Vec::new(),
    }
}

fn content() -> Content {
    let location = |id: u32, name: &str, encounters: &[u32]| Location {
        id: LocationId(id),
        name: name.to_owned(),
        description: format!("About {name}"),
        fishable: !encounters.is_empty(),
        encounters: encounters.iter().map(|&species_id| EncounterWeight { species_id: SpeciesId(species_id), weight: 5 }).collect(),
    };
    let mut content = Content {
        baits: vec![
            Bait { id: BaitId(1), name: "Worms".to_owned(), fishing_power: 1, buy_price: 5, pack_size: 5, buyable: true },
            Bait { id: BaitId(2), name: "Bread".to_owned(), fishing_power: 2, buy_price: 16, pack_size: 6, buyable: true },
        ],
        rods: vec![Rod { id: RodId(1), name: "Starter Rod".to_owned(), control: 10, buy_price: 0 }],
        locations: vec![
            location(1, "Old Harbor", &[1, 2, 3, 1]),
            location(2, "Broken Breakwater", &[2]),
            location(3, "Reed Pond", &[3]),
            location(4, "Old Lighthouse", &[]),
            location(5, "Lighthouse Cove", &[1]),
        ],
        species: vec![species(1, "Harbor Perch", Vec::new()), species(2, "Fog Eel", vec![2]), species(3, "Silver Roach", Vec::new())],
    };
    content.prepare().expect("valid content");
    content
}

#[test]
fn exploration_unlocks_locations_in_order() {
    let first = exploration_finding(LocationId(1), false, &[LocationId(1)]);
    assert_eq!(first.title, "A path along the seawall");
    assert_eq!(first.location, Some(LocationId(2)));
    let second = exploration_finding(LocationId(1), false, &[LocationId(1), LocationId(2)]);
    assert_eq!(second.location, Some(LocationId(3)));
    let third = exploration_finding(LocationId(1), false, &[LocationId(1), LocationId(2), LocationId(3)]);
    assert_eq!((third.title, third.location), ("Old Harbor", None));
}

#[test]
fn rusted_key_opens_the_lighthouse_progression() {
    let known = [LocationId(1), LocationId(2), LocationId(3)];
    let crest = exploration_finding(LocationId(2), false, &known);
    assert_eq!((crest.title, crest.location), ("A familiar crest", None));
    let emblem = exploration_finding(LocationId(2), true, &known);
    assert_eq!(emblem.location, Some(LocationId(4)));
    let locked = exploration_finding(LocationId(4), false, &[LocationId(4)]);
    assert!(locked.text.starts_with("The iron door is locked."));
    let turns = exploration_finding(LocationId(4), true, &[LocationId(4)]);
    assert_eq!((turns.title, turns.location), ("The key turns", Some(LocationId(5))));
    let again = exploration_finding(LocationId(4), true, &[LocationId(4), LocationId(5)]);
    assert_eq!((again.title, again.location), ("Old Lighthouse", None));
    assert_eq!(exploration_finding(LocationId(9), true, &[]).title, "Exploration");
}

#[test]
fn exploring_grants_experience_only_for_new_places() {
    let content = content();
    assert_eq!(explore_check(None), Err(GameError::CharacterMissing));
    assert_eq!(explore_check(Some(true)), Err(GameError::EncounterActive));
    assert_eq!(explore_check(Some(false)), Ok(()));
    let finding = exploration_finding(LocationId(1), false, &[LocationId(1)]);
    let fresh = explore_view(&content, finding, true);
    assert_eq!(fresh.xp_gained, 12);
    assert_eq!(fresh.discovered_location.expect("new place").name, "Broken Breakwater");
    assert_eq!(explore_view(&content, finding, false).xp_gained, 0);
    let nothing = explore_view(&content, exploration_finding(LocationId(3), false, &[]), true);
    assert_eq!(nothing.xp_gained, 0);
    assert!(nothing.discovered_location.is_none());
    assert_eq!(nothing.title, "Reed Pond");
}

#[test]
fn travel_is_blocked_only_while_an_encounter_is_active() {
    let content = content();
    assert_eq!(travel_check(&content, LocationId(9), Some((true, false))), Err(GameError::UnknownLocation));
    assert_eq!(travel_check(&content, LocationId(2), None), Err(GameError::CharacterMissing));
    assert_eq!(travel_check(&content, LocationId(2), Some((false, false))), Err(GameError::LocationLocked));
    assert_eq!(travel_check(&content, LocationId(2), Some((true, true))), Err(GameError::EncounterActive));
    assert_eq!(travel_check(&content, LocationId(2), Some((true, false))), Ok(()));
}

#[test]
fn travel_screen_lists_known_places() {
    let content = content();
    let view = locations_view(&content, &[LocationId(3), LocationId(1)], LocationId(3));
    assert_eq!(view.locations.len(), 2);
    assert_eq!(view.locations[0].name, "Old Harbor");
    assert!(!view.locations[0].current && view.locations[1].current);
    assert_eq!(view.undiscovered, 3);
}

#[test]
fn character_sheet_reads_the_stored_row() {
    let content = content();
    let state = CharacterState {
        name: "Adventurer".to_owned(),
        xp: -10,
        level: 1,
        coins: 42,
        location_id: LocationId(1),
        bait_id: BaitId(2),
        rod_id: RodId(1),
        title_id: 6,
    };
    let view = character_view(&content, state, &[(1, 3), (2, 4)], 88, true, false, 0);
    assert_eq!(view.name, "Adventurer");
    assert_eq!((view.xp, view.coins), (0, 42));
    assert_eq!(view.location.name, "Old Harbor");
    assert_eq!((view.bait_name.as_str(), view.bait_left, view.total_bait), ("Bread", 4, 7));
    assert_eq!((view.rod_name.as_str(), view.rod_condition), ("Starter Rod", 88));
    assert!(view.has_npc && view.fishing_active && !view.has_rusted_key);
    assert_eq!(view.title_name, Some("Shoalbound"));
    assert_eq!(view.environment, environment_at(0));
    let plain = CharacterState {
        name: String::new(),
        xp: 0,
        level: 1,
        coins: 0,
        location_id: LocationId(2),
        bait_id: BaitId(1),
        rod_id: RodId(1),
        title_id: 0,
    };
    let view = character_view(&content, plain, &[], 100, false, true, 0);
    assert_eq!(view.title_name, None);
    assert!(!view.has_npc);
    assert_eq!(view.total_bait, 0);
}

#[test]
fn conditions_show_which_known_species_bite() {
    let content = content();
    // Find a time with clear weather, when the fog eel does not bite.
    let mut now = 0_i64;
    while environment_at(now).weather != Weather::Clear {
        now += 900_000;
    }
    let view = conditions_view(&content, LocationId(1), &[SpeciesId(1), SpeciesId(2)], now);
    assert_eq!(view.location_name, "Old Harbor");
    assert_eq!(view.active_known_species, vec!["Harbor Perch".to_owned()]);
    assert_eq!(view.known_but_inactive, 1);
    assert_eq!(view.weather_changes_in_ms, next_weather_change_ms(now) - now);
    assert_eq!(view.next_weather, environment_at(next_weather_change_ms(now) + 1).weather.label());
    assert!(view.day_part_changes_in_ms > 0);
}

#[test]
fn home_panel_offers_the_next_step() {
    let content = content();
    let state = |location: u32, bait: u32| CharacterState {
        name: "Adventurer".to_owned(),
        xp: 0,
        level: 1,
        coins: 0,
        location_id: LocationId(location),
        bait_id: BaitId(bait),
        rod_id: RodId(1),
        title_id: 0,
    };
    let casting = character_view(&content, state(1, 1), &[(1, 3)], 100, false, false, 0);
    assert_eq!(home_actions(&casting), HomeActions::CastOrExplore);
    assert_eq!(bait_notice(&casting), None);
    let switch = character_view(&content, state(1, 2), &[(1, 3)], 100, false, false, 0);
    assert_eq!(home_actions(&switch), HomeActions::ChooseBaitOrExplore);
    assert_eq!(bait_notice(&switch), Some("Your selected bait is empty. Another bait in your inventory is still usable."));
    let empty = character_view(&content, state(1, 1), &[], 100, false, false, 0);
    assert_eq!(home_actions(&empty), HomeActions::DigOrExplore);
    assert!(bait_notice(&empty).expect("notice").starts_with("Your tackle pouch is empty."));
    let busy = character_view(&content, state(1, 1), &[(1, 3)], 100, true, false, 0);
    assert_eq!(home_actions(&busy), HomeActions::CutLine);
    let lighthouse = character_view(&content, state(4, 1), &[], 100, false, false, 0);
    assert_eq!(home_actions(&lighthouse), HomeActions::ExploreOnly);
    assert_eq!(bait_notice(&lighthouse), None);
}

#[test]
fn countdowns_clocks_and_weights_are_shown_in_parts() {
    assert_eq!(duration_parts(-5_000), (0, 1));
    assert_eq!(duration_parts(0), (0, 1));
    assert_eq!(duration_parts(999), (0, 1));
    assert_eq!(duration_parts(59_999), (0, 59));
    assert_eq!(duration_parts(60_000), (1, 0));
    assert_eq!(duration_parts(125_500), (2, 5));
    assert_eq!(clock_parts(0), (0, 0));
    assert_eq!(clock_parts(725), (12, 5));
    assert_eq!(clock_parts(1_439), (23, 59));
    assert_eq!(weight_parts(999), None);
    assert_eq!(weight_parts(1_000), Some((1, 0)));
    assert_eq!(weight_parts(12_345), Some((12, 34)));
    assert_eq!(reaction_label(Reaction::Excellent), "Excellent");
    assert_eq!(reaction_label(Reaction::Missed), "Missed");
}
