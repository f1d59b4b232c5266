use game::ratings::RatingOutcome;
use game::content::{Bait, Content, EncounterWeight, Location, Rod, Species};
use game::error::GameError;
use game::ids::{BaitId, LocationId, RodId, SpeciesId};
use game::ratings::{parse_rating_delta, Database};
use game::sharing::{inline_catch_views, inline_query, parse_i64, InlineRow, INLINE_CATCH_LIMIT};

fn species(id: u32, name: &str) -> Species {
    Species {
        id: SpeciesId(id),
        name: name.to_owned(),
        min_length_mm: 100,
        typical_length_mm: 200,
        max_length_mm: 300,
        typical_weight_g: 500,
        difficulty: 5,
        xp: 9,
        base_value: 8,
        clue: String::new(),
        bite_min_ms: 2_000,
        bite_max_ms: 6_000,
        reaction_ms: [600, 1_200, 2_000],
        required_weather: Vec::new(),
        required_day_parts: Vec::new(),
        bait_modifiers: Vec::new(),
    }
}

fn content() -> Content {
    let location = |id: u32, name: &str| Location {
        id: LocationId(id),
        name: name.to_owned(),
        description: String::new(),
        fishable: id == 1,
        encounters: if id == 1 { vec![EncounterWeight { species_id: SpeciesId(1), weight: 1 }] } else { Vec::new() },
    };
    let mut content = Content {
        baits: vec![Bait { id: BaitId(1), name: "Worms".to_owned(), fishing_power: 1, buy_price: 5, pack_size: 5, buyable: true }],
        rods: vec![Rod { id: RodId(1), name: "Starter Rod".to_owned(), control: 10, buy_price: 0 }],
        locations: vec![
            location(1, "Old Harbor"),
            location(2, "Broken Breakwater"),
            location(3, "Reed Pond"),
            location(4, "Old Lighthouse"),
            location(5, "Lighthouse Cove"),
        ],
        species: vec![species(1, "Harbor Perch"), species(2, "Silver Roach")],
    };
    content.prepare().expect("valid content");
    content
}

fn chars(text: &str) -> Vec<char> {
    text.chars().collect()
}

fn row(item_id: i64, species_id: u32, weight_g: u32) -> InlineRow {
    InlineRow {
        item_id,
        species_id: SpeciesId(species_id),
        length_mm: 200,
        weight_g,
        location_id: LocationId(1),
        owner_name: "Adventurer".to_owned(),
        personal_best_g: 600,
        world_best_g: 700,
    }
}

#[test]
fn decimal_ids_parse_like_rust() {
    assert_eq!(parse_i64(&chars("42")), Some(42));
    assert_eq!(parse_i64(&chars("+7")), Some(7));
    assert_eq!(parse_i64(&chars("-9223372036854775808")), Some(i64::MIN));
    assert_eq!(parse_i64(&chars("9223372036854775807")), Some(i64::MAX));
    assert_eq!(parse_i64(&chars("9223372036854775808")), None);
    assert_eq!(parse_i64(&chars("")), None);
    assert_eq!(parse_i64(&chars("-")), None);
    assert_eq!(parse_i64(&chars("4x")), None);
    assert_eq!(parse_i64(&chars(" 4")), None);
}

#[test]
fn inline_queries_name_a_catch_or_filter() {
    let exact = inline_query("catch: 17 ");
    assert_eq!(exact.exact_item_id, Some(17));
    assert!(exact.filter.is_none());
    let filter = inline_query("  PeRcH ");
    assert_eq!(filter.exact_item_id, None);
    assert_eq!(filter.filter, Some(chars("perch")));
    let empty = inline_query("   ");
    assert!(empty.exact_item_id.is_none() && empty.filter.is_none());
    let broken = inline_query("catch:abc");
    assert_eq!(broken.exact_item_id, None);
    assert_eq!(broken.filter, Some(chars("catch:abc")));
}

#[test]
fn inline_cards_follow_the_filter_and_limit() {
    let content = content();
    let rows: Vec<InlineRow> = (0..30).map(|i| row(i, if i % 2 == 0 { 1 } else { 2 }, 600 + i as u32)).collect();
    let all = inline_catch_views(&content, &inline_query(""), &rows);
    assert_eq!(all.len(), INLINE_CATCH_LIMIT);
    assert_eq!(all[0].item_id, 0);
    assert!(all[0].personal_best && !all[0].world_best);
    assert_eq!(all[0].location_name, "Old Harbor");
    let roach = inline_catch_views(&content, &inline_query("roach"), &rows);
    assert_eq!(roach.len(), 15);
    assert!(roach.iter().all(|card| card.species_name == "Silver Roach"));
    assert_eq!(roach[0].item_id, 1);
    let none = inline_catch_views(&content, &inline_query("sturgeon"), &rows);
    assert!(none.is_empty());
    let world = inline_catch_views(&content, &inline_query(""), &vec![row(3, 1, 700)]);
    assert!(world[0].world_best);
}

#[test]
fn rating_replies_are_recognised() {
    assert_eq!(parse_rating_delta("+"), Some(1));
    assert_eq!(parse_rating_delta("  +1\n"), Some(1));
    assert_eq!(parse_rating_delta("\u{1F44D}\u{1F3FD}"), Some(1));
    assert_eq!(parse_rating_delta("-"), Some(-1));
    assert_eq!(parse_rating_delta("-1"), Some(-1));
    assert_eq!(parse_rating_delta("\u{1F44E}"), Some(-1));
    assert_eq!(parse_rating_delta("Thanks!"), Some(1));
    assert_eq!(parse_rating_delta("  thank you :) "), Some(1));
    assert_eq!(parse_rating_delta("TYSM"), Some(1));
    assert_eq!(parse_rating_delta("thx..."), Some(1));
    assert_eq!(parse_rating_delta("ty"), Some(1));
    assert_eq!(parse_rating_delta("thanks a lot"), None);
    assert_eq!(parse_rating_delta("++"), None);
    assert_eq!(parse_rating_delta(""), None);
    assert_eq!(parse_rating_delta("hello"), None);
}

#[test]
fn ratings_add_up_per_chat_and_member() {
    let mut db = Database::new();
    assert_eq!(db.get_rating(1, 10), 0);
    assert_eq!(db.adjust_rating(1, 10, 1), 1);
    assert_eq!(db.adjust_rating(1, 10, 1), 2);
    assert_eq!(db.adjust_rating(1, 11, -1), -1);
    assert_eq!(db.adjust_rating(2, 10, 5), 5);
    assert_eq!(db.adjust_rating(1, 12, 0), 0);
    assert_eq!(db.get_rating(1, 10), 2);
    assert_eq!(db.get_rating(2, 10), 5);
    assert_eq!(db.get_rating(3, 10), 0);
    let top = db.top_ratings(1);
    assert_eq!(top, vec![(10, 2), (12, 0), (11, -1)]);
    assert!(db.top_ratings(9).is_empty());
    let fresh = Database::default();
    assert_eq!(fresh.get_rating(1, 10), 0);
}

#[test]
fn every_refusal_has_a_description() {
    assert_eq!(GameError::NoBait.description(), "no bait remaining");
    assert_eq!(GameError::TitleLocked.description(), "that title is still locked");
    assert_eq!(GameError::GroupEventClaimed.description(), "you already joined this group shoal");
}

#[test]
fn nobody_rates_themselves() {
    let mut db = Database::new();
    assert_eq!(db.rate_reply(1, None, Some(2), 1), RatingOutcome::Ignored);
    assert_eq!(db.rate_reply(1, Some(2), None, 1), RatingOutcome::Ignored);
    assert_eq!(db.rate_reply(1, Some(2), Some(2), 1), RatingOutcome::OwnRating);
    assert_eq!(db.get_rating(1, 2), 0);
    assert_eq!(db.rate_reply(1, Some(3), Some(2), 1), RatingOutcome::Adjusted { target: 2, score: 1 });
    assert_eq!(db.rate_reply(1, Some(4), Some(2), -1), RatingOutcome::Adjusted { target: 2, score: 0 });
    assert!(db.top_ratings(1).contains(&(2, 0)));
}
