use game::callback::Callback;
use game::panels::{bait_choice, bait_offer, contract_action, marker, repair_offer, rod_choice, rod_offer, RowAction};
use game::content::{Bait, Content, EncounterWeight, Location, Rod, Species};
use game::economy::{
    buy_bait_plan, buy_rod_plan, craft_material, craft_outcome, crafting_view, equip_rod_check, forage_check,
    inventory_view, missing_condition, pair_value, quantity, recipe, repair_cost, repair_plan,
    sale_outcome, select_bait_check, selection_after_add, shop_view, total_bait, RodBuyer,
};
use game::error::GameError;
use game::fishing::{sale_value, Specimen};
use game::ids::{BaitId, LocationId, RodId, SpeciesId};

fn species(id: u32, name: &str) -> Species {
    Species {
        id: SpeciesId(id),
        name: name.to_owned(),
        min_length_mm: 100,
        typical_length_mm: 200,
        max_length_mm: 300,
        typical_weight_g: 500,
        difficulty: 4,
        xp: 5,
        base_value: 10,
        clue: String::new(),
        bite_min_ms: 2_000,
        bite_max_ms: 6_000,
        reaction_ms: [600, 1_200, 2_000],
        required_weather: Vec::new(),
        required_day_parts: Vec::new(),
        bait_modifiers: Vec::new(),
    }
}

fn content() -> Content {
    let bait = |id: u32, name: &str, price: u32, pack: u32, buyable: bool| Bait {
        id: BaitId(id),
        name: name.to_owned(),
        fishing_power: id,
        buy_price: price,
        pack_size: pack,
        buyable,
    };
    let location = |id: u32| Location {
        id: LocationId(id),
        name: format!("Place {id}"),
        description: String::new(),
        fishable: id == 1,
        encounters: if id == 1 { vec![EncounterWeight { species_id: SpeciesId(1), weight: 1 }] } else { Vec::new() },
    };
    let mut content = Content {
        baits: vec![
            bait(1, "Worms", 5, 5, true),
            bait(2, "Bread", 16, 6, true),
            bait(6, "Fish Chunks", 0, 4, false),
            bait(7, "Crab Paste", 0, 3, false),
        ],
        rods: vec![
            Rod { id: RodId(1), name: "Starter Rod".to_owned(), control: 10, buy_price: 0 },
            Rod { id: RodId(2), name: "Reinforced Rod".to_owned(), control: 20, buy_price: 55 },
        ],
        locations: (1..=5).map(location).collect(),
        species: vec![species(1, "Harbor Perch"), species(3, "Mud Crab")],
    };
    content.prepare().expect("valid content");
    content
}

#[test]
fn recipes_follow_their_table() {
    let cut = recipe(1).expect("cut bait");
    assert_eq!((cut.name, cut.material, cut.output, cut.quantity), ("Cut bait", None, BaitId(6), 4));
    let paste = recipe(2).expect("crab paste");
    assert_eq!((paste.material, paste.output, paste.quantity), (Some(SpeciesId(3)), BaitId(7), 3));
    assert!(recipe(0).is_none() && recipe(3).is_none());
}

#[test]
fn repairs_cost_a_coin_per_ten_points() {
    assert_eq!(repair_cost(0), 0);
    assert_eq!(repair_cost(1), 1);
    assert_eq!(repair_cost(10), 1);
    assert_eq!(repair_cost(11), 2);
    assert_eq!(repair_cost(u32::MAX), u32::MAX / 10);
    assert_eq!(missing_condition(&[(1, 97), (2, 100), (3, 150)]), 3);
}

#[test]
fn repair_refusals_come_in_order() {
    assert_eq!(repair_plan(None, false, 30), Err(GameError::CharacterMissing));
    assert_eq!(repair_plan(Some(100), true, 30), Err(GameError::EncounterActive));
    assert_eq!(repair_plan(Some(2), false, 30), Err(GameError::NotEnoughCoins));
    assert_eq!(repair_plan(Some(3), false, 30), Ok(3));
    assert_eq!(repair_plan(Some(0), false, 0), Ok(0));
}

#[test]
fn stacks_are_looked_up_by_item() {
    let stacks = [(1, 3), (6, 0), (7, 2)];
    assert_eq!(pair_value(&stacks, 7), Some(2));
    assert_eq!(pair_value(&stacks, 2), None);
    assert_eq!(quantity(&stacks, 6), 0);
    assert_eq!(quantity(&stacks, 9), 0);
    let content = content();
    assert_eq!(total_bait(&content, &stacks), 5);
    assert_eq!(total_bait(&content, &[(99, 40)]), 0);
}

#[test]
fn new_bait_is_selected_only_when_the_current_stack_is_empty() {
    assert_eq!(selection_after_add(BaitId(1), 0, BaitId(6)), BaitId(6));
    assert_eq!(selection_after_add(BaitId(1), 4, BaitId(6)), BaitId(1));
}

#[test]
fn buying_bait_can_recover_an_exhausted_selection() {
    let content = content();
    assert_eq!(buy_bait_plan(&content, BaitId(9), Some(100)), Err(GameError::NoBait));
    assert_eq!(buy_bait_plan(&content, BaitId(6), Some(100)), Err(GameError::BaitNotForSale));
    assert_eq!(buy_bait_plan(&content, BaitId(2), None), Err(GameError::CharacterMissing));
    assert_eq!(buy_bait_plan(&content, BaitId(2), Some(15)), Err(GameError::NotEnoughCoins));
    assert_eq!(buy_bait_plan(&content, BaitId(2), Some(16)), Ok((16, 6)));
    // The purchased stack becomes the selection when the selected one ran dry.
    assert_eq!(selection_after_add(BaitId(1), 0, BaitId(2)), BaitId(2));
}

#[test]
fn rods_are_purchased_once_and_equipped_from_inventory() {
    let content = content();
    let buyer = RodBuyer { coins: 55, owns_rod: false };
    assert_eq!(buy_rod_plan(&content, RodId(9), Some(buyer)), Err(GameError::UnknownRod));
    assert_eq!(buy_rod_plan(&content, RodId(2), None), Err(GameError::CharacterMissing));
    assert_eq!(buy_rod_plan(&content, RodId(2), Some(RodBuyer { owns_rod: true, ..buyer })), Err(GameError::RodAlreadyOwned));
    assert_eq!(buy_rod_plan(&content, RodId(2), Some(RodBuyer { coins: 54, ..buyer })), Err(GameError::NotEnoughCoins));
    assert_eq!(buy_rod_plan(&content, RodId(2), Some(buyer)), Ok(55));
    assert_eq!(equip_rod_check(&content, RodId(9), Some(true)), Err(GameError::UnknownRod));
    assert_eq!(equip_rod_check(&content, RodId(2), None), Err(GameError::CharacterMissing));
    assert_eq!(equip_rod_check(&content, RodId(2), Some(false)), Err(GameError::RodNotOwned));
    assert_eq!(equip_rod_check(&content, RodId(2), Some(true)), Ok(()));
}

#[test]
fn crafted_bait_is_not_sold_but_can_be_selected() {
    let content = content();
    assert_eq!(select_bait_check(&content, BaitId(9), Some(3)), Err(GameError::NoBait));
    assert_eq!(select_bait_check(&content, BaitId(6), None), Err(GameError::CharacterMissing));
    assert_eq!(select_bait_check(&content, BaitId(6), Some(0)), Err(GameError::NoBait));
    assert_eq!(select_bait_check(&content, BaitId(6), Some(4)), Ok(()));
    assert_eq!(buy_bait_plan(&content, BaitId(6), Some(1_000)), Err(GameError::BaitNotForSale));
}

#[test]
fn zero_bait_has_a_free_recovery_path() {
    let content = content();
    assert_eq!(forage_check(&content, None), Err(GameError::CharacterMissing));
    assert_eq!(forage_check(&content, Some(&[(1, 1)][..])), Err(GameError::BaitStillAvailable));
    assert_eq!(forage_check(&content, Some(&[(1, 0), (99, 5)][..])), Ok(()));
    let shop = shop_view(&content, 0, BaitId(1), RodId(1), &[(1, 0)], &[(1, 100)]);
    assert!(shop.can_forage);
}

#[test]
fn selling_pays_for_every_stored_catch() {
    let content = content();
    let catches = [(SpeciesId(1), 210, 520), (SpeciesId(3), 150, 300)];
    assert_eq!(sale_outcome(&content, None, &catches).unwrap_err(), GameError::CharacterMissing);
    assert_eq!(sale_outcome(&content, Some(10), &[]).unwrap_err(), GameError::NothingToSell);
    let sale = sale_outcome(&content, Some(-4), &catches).expect("something to sell");
    let expected = sale_value(content.species(SpeciesId(1)), Specimen { length_mm: 210, weight_g: 520 })
        + sale_value(content.species(SpeciesId(3)), Specimen { length_mm: 150, weight_g: 300 });
    assert_eq!(sale.sold, 2);
    assert_eq!(sale.coins_gained, expected);
    assert_eq!(sale.coins, expected);
}

#[test]
fn crafting_consumes_a_specimen_but_preserves_records() {
    let content = content();
    assert_eq!(craft_outcome(&content, 5, true, Some(1)).unwrap_err(), GameError::UnknownRecipe);
    assert_eq!(craft_outcome(&content, 1, false, Some(1)).unwrap_err(), GameError::CharacterMissing);
    assert_eq!(craft_outcome(&content, 2, true, None).unwrap_err(), GameError::RecipeNotReady);
    let (recipe, item, view) = craft_outcome(&content, 1, true, Some(240)).expect("material");
    assert_eq!(item, 240);
    assert_eq!(recipe.output, BaitId(6));
    assert_eq!((view.recipe_name, view.bait_name.as_str(), view.quantity), ("Cut bait", "Fish Chunks", 4));
}

#[test]
fn bench_shows_which_recipes_are_ready() {
    let content = content();
    let view = crafting_view(&content, &[(1, 2)]);
    assert_eq!(view.stored_catches, 2);
    assert!(view.recipes[0].ready);
    assert!(!view.recipes[1].ready);
    assert_eq!(view.recipes[1].output_name, "Crab Paste");
    let crabs = crafting_view(&content, &[(3, 1)]);
    assert!(crabs.recipes[1].ready);
    assert!(!crafting_view(&content, &[]).recipes[0].ready);
}

#[test]
fn inventory_previews_the_newest_catches() {
    let content = content();
    let stored: Vec<(SpeciesId, u32, u32)> = (0..10).map(|i| (SpeciesId(1), 200 + i, 400 + i)).collect();
    let view = inventory_view(&content, -1, BaitId(2), RodId(2), &[(1, 3), (2, 6)], &[(1, 80), (2, 100)], &stored, true);
    assert_eq!(view.coins, 0);
    assert_eq!(view.rod_name, "Reinforced Rod");
    assert_eq!(view.recent_catches.len(), 8);
    assert_eq!(view.recent_catches[0].length_mm, 200);
    assert_eq!(view.catch_count, 10);
    let worth: u64 = stored.iter().map(|&(_, length_mm, weight_g)| sale_value(content.species(SpeciesId(1)), Specimen { length_mm, weight_g })).sum();
    assert_eq!(view.sell_value, worth);
    assert_eq!(view.baits.len(), 4);
    assert!(view.baits[1].selected);
    assert_eq!(view.baits[1].quantity, 6);
    assert_eq!((view.rods[0].condition, view.rods[0].owned, view.rods[0].equipped), (80, true, false));
    assert!(view.has_rusted_key);
}

#[test]
fn catches_wear_rods_and_shop_repairs_them() {
    let content = content();
    let shop = shop_view(&content, 500, BaitId(1), RodId(1), &[(1, 3)], &[(1, 97)]);
    assert_eq!(shop.repair_all_cost, 1);
    assert_eq!(shop.baits.len(), 2);
    assert_eq!(shop.baits[1].name, "Bread");
    assert_eq!((shop.rods[0].condition, shop.rods[1].condition, shop.rods[1].owned), (97, 100, false));
    assert_eq!(shop.rods[1].price, 55);
    assert!(!shop.can_forage);
    assert_eq!(shop.coins, 500);
}

#[test]
fn shop_rows_offer_only_what_can_be_done() {
    let content = content();
    let shop = shop_view(&content, 50, BaitId(1), RodId(1), &[(1, 3)], &[(1, 97)]);
    assert_eq!(rod_offer(&shop.rods[0], shop.coins), RowAction::Current);
    assert_eq!(rod_offer(&shop.rods[1], shop.coins), RowAction::NeedCoins(55));
    assert_eq!(rod_offer(&shop.rods[1], 55), RowAction::Press(Callback::BuyRod { rod_id: RodId(2) }));
    assert_eq!(bait_offer(&shop.baits[0], shop.coins), RowAction::Press(Callback::BuyBait { bait_id: BaitId(1) }));
    assert_eq!(bait_offer(&shop.baits[1], 15), RowAction::NeedCoins(16));
    assert_eq!(repair_offer(0, 10), None);
    assert_eq!(repair_offer(1, 0), Some(RowAction::NeedCoins(1)));
    assert_eq!(repair_offer(1, 1), Some(RowAction::Press(Callback::RepairRods)));
    assert_eq!(contract_action(false, true), RowAction::Press(Callback::TurnInContract));
    assert_eq!(contract_action(true, true), RowAction::Done);
    assert_eq!(contract_action(false, false), RowAction::NotReady);
    assert_eq!(marker(true), "\u{25CF}");
    assert_eq!(marker(false), "\u{25CB}");
}

#[test]
fn inventory_rows_offer_equip_and_use() {
    let content = content();
    let view = inventory_view(&content, 10, BaitId(1), RodId(1), &[(1, 3)], &[(1, 80), (2, 100)], &[], false);
    assert_eq!(rod_choice(&view.rods[0]), RowAction::Current);
    assert_eq!(rod_choice(&view.rods[1]), RowAction::Press(Callback::EquipRod { rod_id: RodId(2) }));
    assert_eq!(bait_choice(&view.baits[0]), RowAction::Current);
    assert_eq!(bait_choice(&view.baits[1]), RowAction::Empty);
}

#[test]
fn crafting_spends_the_lightest_catch() {
    assert_eq!(craft_material(&[]), None);
    assert_eq!(craft_material(&[(5, 300), (9, 240), (4, 240), (1, 500)]), Some(4));
}
