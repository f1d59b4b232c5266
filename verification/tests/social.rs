use game::angling::CatchRecord;
use game::content::{Bait, Content, EncounterWeight, Location, Rod, Species};
use game::error::GameError;
use game::fishing::generate_specimen;
use game::ids::{BaitId, LocationId, RodId, SpeciesId};
use game::progression::{equip_title_outcome, title_definition, title_unlocks, CharacterStanding, TitleProgress};
use game::social::{
    approach_code, group_catch_outcome, group_claim_outcome, group_cycle, group_event_view,
    group_read, group_species, group_standing, read_specimen, GROUP_EVENT_REAL_MS,
};
use game::view::GroupApproach;

fn species(id: u32, name: &str) -> Species {
    Species {
        id: SpeciesId(id),
        name: name.to_owned(),
        min_length_mm: 100,
        typical_length_mm: 200,
        max_length_mm: 300,
        typical_weight_g: 500,
        difficulty: 5,
        xp: 9,
        base_value: 8,
        clue: String::new(),
        bite_min_ms: 2_000,
        bite_max_ms: 6_000,
        reaction_ms: [600, 1_200, 2_000],
        required_weather: Vec::new(),
        required_day_parts: Vec::new(),
        bait_modifiers: Vec::new(),
    }
}

fn content() -> Content {
    let location = |id: u32| Location {
        id: LocationId(id),
        name: format!("Place {id}"),
        description: String::new(),
        fishable: id == 1,
        encounters: if id == 1 { vec![EncounterWeight { species_id: SpeciesId(25), weight: 1 }] } else { Vec::new() },
    };
    let mut content = Content {
        baits: vec![Bait { id: BaitId(1), name: "Worms".to_owned(), fishing_power: 1, buy_price: 5, pack_size: 5, buyable: true }],
        rods: vec![Rod { id: RodId(1), name: "Starter Rod".to_owned(), control: 10, buy_price: 0 }],
        locations: (1..=5).map(location).collect(),
        species: vec![species(25, "Echo Herring"), species(26, "Rumor Carp")],
    };
    content.prepare().expect("valid content");
    content
}

#[test]
fn shoal_windows_last_twenty_minutes() {
    assert_eq!(GROUP_EVENT_REAL_MS, 1_200_000);
    assert_eq!(group_cycle(0), 0);
    assert_eq!(group_cycle(1_199_999), 0);
    assert_eq!(group_cycle(1_200_000), 1);
    assert_eq!(group_cycle(-1), -1);
}

#[test]
fn shoal_species_depend_on_chat_and_window_only() {
    for chat in [-100_123_i64, 0, 42, 7_777_777] {
        for cycle in [-3_i64, 0, 1, 833] {
            let id = group_species(chat, cycle);
            assert!(id == SpeciesId(25) || id == SpeciesId(26));
            assert_eq!(id, group_species(chat, cycle));
        }
    }
    // 0 * anything ^ 0 has a clear low bit.
    assert_eq!(group_species(0, 0), SpeciesId(25));
}

#[test]
fn reads_have_one_right_approach() {
    let herring = group_read(SpeciesId(25));
    assert_eq!(herring.correct, GroupApproach::Drift);
    assert!(herring.clue.starts_with("Small rings repeat in pairs."));
    let carp = group_read(SpeciesId(26));
    assert_eq!(carp.correct, GroupApproach::Hold);
    assert_eq!(approach_code(GroupApproach::Drift), 1);
    assert_eq!(approach_code(GroupApproach::Hold), 2);
}

#[test]
fn a_right_read_never_lands_a_lighter_fish() {
    let content = content();
    let herring = content.species(SpeciesId(25));
    for seed in 0..100_u64 {
        let right = read_specimen(herring, seed, true);
        let wrong = read_specimen(herring, seed, false);
        assert!(right.weight_g >= wrong.weight_g);
        let first = generate_specimen(herring, seed);
        assert!(right == first || wrong == first);
    }
}

#[test]
fn chat_standing_grows_with_catches() {
    assert_eq!(group_standing(0), ("Ripple", 0));
    assert_eq!(group_standing(4), ("Ripple", 0));
    assert_eq!(group_standing(5), ("Current", 1));
    assert_eq!(group_standing(14), ("Current", 1));
    assert_eq!(group_standing(15), ("Tidebound", 2));
    assert_eq!(group_standing(39), ("Tidebound", 2));
    assert_eq!(group_standing(40), ("Harbor Chorus", 3));
}

#[test]
fn standing_reveals_more_of_the_shoal() {
    let content = content();
    let now = 5_000_000;
    let newcomer = group_event_view(&content, 42, now, 1, 0);
    assert_eq!(newcomer.cycle, 4);
    assert!(newcomer.species_name.is_none() && newcomer.memory_hint.is_none() && newcomer.mastered_approach.is_none());
    assert_eq!(newcomer.resets_in_ms, 1_000_000);
    assert_eq!(newcomer.ends_at_unix, 6_000);
    let chorus = group_event_view(&content, 42, now, 3, 40);
    let species_id = group_species(42, 4);
    assert_eq!(chorus.species_name.as_deref(), Some(content.species(species_id).name.as_str()));
    assert_eq!(chorus.memory_hint, Some(group_read(species_id).memory_hint));
    assert_eq!(chorus.mastered_approach, Some(group_read(species_id).correct));
    assert_eq!(chorus.standing_name, "Harbor Chorus");
    assert_eq!((chorus.participants, chorus.total_catches), (3, 40));
}

#[test]
fn group_shoal_is_once_per_character() {
    let content = content();
    let now = 1_000_000_000;
    let cycle = group_cycle(now);
    assert_eq!(group_claim_outcome(&content, 99, cycle - 1, GroupApproach::Hold, 100, now, Some(false)).unwrap_err(), GameError::GroupEventExpired);
    assert_eq!(group_claim_outcome(&content, 99, cycle, GroupApproach::Hold, 100, now, None).unwrap_err(), GameError::CharacterMissing);
    assert_eq!(group_claim_outcome(&content, 99, cycle, GroupApproach::Hold, 100, now, Some(true)).unwrap_err(), GameError::GroupEventClaimed);
    let claim = group_claim_outcome(&content, 99, cycle, GroupApproach::Hold, 100, now, Some(false)).expect("open shoal");
    let species_id = group_species(99, cycle);
    assert_eq!(claim.species_id, species_id);
    assert_eq!(claim.read_correct, group_read(species_id).correct == GroupApproach::Hold);
    assert_eq!(claim.specimen, read_specimen(content.species(species_id), 100, claim.read_correct));
    assert_eq!(claim.approach_code, 2);
    let event = group_event_view(&content, 99, now, 1, 1);
    let record = CatchRecord { item_id: 5, new_species: true, global_first: true };
    let (view, progress) =
        group_catch_outcome(content.species(species_id), claim, GroupApproach::Hold, record, CharacterStanding { coins: 0, xp: 0, level: 1 }, event);
    assert_eq!(view.xp_gained, 19);
    assert_eq!(progress.total_xp, 19);
    assert_eq!(view.approach, GroupApproach::Hold);
    assert_eq!(view.event.participants, 1);
}

#[test]
fn group_shoal_is_once_per_character_and_unlocks_a_title() {
    let content = content();
    let now = 1_000_000_000_i64;
    let chat_id = -100_123_i64;
    let event = group_event_view(&content, chat_id, now, 0, 0);
    assert_eq!(i64::from(event.ends_at_unix) * 1_000, now + event.resets_in_ms);
    let claim = group_claim_outcome(&content, chat_id, event.cycle, GroupApproach::Drift, 99, now + 1, Some(false)).expect("group cast");
    let record = CatchRecord { item_id: 1, new_species: true, global_first: false };
    let after = group_event_view(&content, chat_id, now + 1, 1, 1);
    let (view, _) = group_catch_outcome(
        content.species(claim.species_id),
        claim,
        GroupApproach::Drift,
        record,
        CharacterStanding { coins: 0, xp: 0, level: 1 },
        after,
    );
    assert_eq!(view.event.participants, 1);
    assert_eq!(
        group_claim_outcome(&content, chat_id, event.cycle, GroupApproach::Hold, 100, now + 2, Some(true)).unwrap_err(),
        GameError::GroupEventClaimed
    );

    let unlocks = title_unlocks(TitleProgress { catches: 1, species: 1, relic: false, objectives: 0, cove: false, group: true });
    assert!(unlocks[6]);
    let equipped = equip_title_outcome(6, Some(unlocks)).expect("equip title");
    assert!(equipped.titles.iter().any(|title| title.id == 6 && title.equipped));
    assert_eq!(title_definition(6).map(|(name, _)| name), Some("Shoalbound"));
}
