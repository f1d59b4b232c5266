//! Tackle economy: bait stacks, rods and repairs, specimen sales and bait crafting.

use vstd::prelude::*;
use crate::content::{Bait, Content};
use crate::error::GameError;
use crate::fishing::{Specimen, sale_value, sale_value_spec};
use crate::ids::{BaitId, RodId, SpeciesId};
use crate::sort::{has_key, search_by_key, strictly_sorted_by_key};
use crate::progression::non_negative;
use crate::view::{
    BaitStackView, CatchSummaryView, CraftResultView, CraftingView, InventoryView, RecipeView,
    RodInventoryView, SaleView, ShopBaitView, ShopRodView, ShopView,
};

verus! {

/// A bait-crafting recipe on the tackle bench.
#[derive(Clone, Copy, Debug)]
pub struct RecipeDefinition {
    pub id: u32,
    pub name: &'static str,
    pub description: &'static str,
    /// The species that must be spent; any stored catch when `None`.
    pub material: Option<SpeciesId>,
    pub output: BaitId,
    pub quantity: u32,
}

/// Texts of recipe `id`: name and description.
pub open spec fn recipe_texts(id: int) -> (Seq<char>, Seq<char>) {
    if id == 1 {
        ("Cut bait"@, "Process your smallest stored catch into strong general-purpose fish chunks."@)
    } else {
        ("Crab paste"@, "Use one stored Mud Crab to make pungent bait that eels strongly prefer."@)
    }
}

/// Material, output bait and output quantity of recipe `id`.
pub open spec fn recipe_terms(id: int) -> (Option<SpeciesId>, BaitId, u32) {
    if id == 1 {
        (None, BaitId(6), 4)
    } else {
        (Some(SpeciesId(3)), BaitId(7), 3)
    }
}

pub open spec fn recipe_matches(recipe: RecipeDefinition, id: int) -> bool {
    &&& recipe.id == id
    &&& recipe.name@ == recipe_texts(id).0
    &&& recipe.description@ == recipe_texts(id).1
    &&& recipe.material == recipe_terms(id).0
    &&& recipe.output == recipe_terms(id).1
    &&& recipe.quantity == recipe_terms(id).2
}

/// Number of recipes; their ids are `1..=RECIPE_COUNT` and are persisted, so they never change.
pub const RECIPE_COUNT: u32 = 2;

/// Recipe `id`, if the bench knows it.
pub fn recipe(id: u32) -> (found: Option<RecipeDefinition>)
    ensures
        found is Some <==> 1 <= id <= RECIPE_COUNT,
        found matches Some(r) ==> recipe_matches(r, id as int),
{
    match id {
        1 => Some(
            RecipeDefinition {
                id: 1,
                name: "Cut bait",
                description: "Process your smallest stored catch into strong general-purpose fish chunks.",
                material: None,
                output: BaitId(6),
                quantity: 4,
            },
        ),
        2 => Some(
            RecipeDefinition {
                id: 2,
                name: "Crab paste",
                description: "Use one stored Mud Crab to make pungent bait that eels strongly prefer.",
                material: Some(SpeciesId(3)),
                output: BaitId(7),
                quantity: 3,
            },
        ),
        _ => None,
    }
}

/// Coins to restore `missing_condition` points of rod condition: one coin per ten points,
/// rounded up (the rounding saturates at `u32::MAX`).
pub open spec fn repair_cost_spec(missing_condition: u32) -> int {
    let padded = if missing_condition + 9 > u32::MAX {
        u32::MAX as int
    } else {
        missing_condition + 9
    };
    padded / 10
}

pub fn repair_cost(missing_condition: u32) -> (cost: u32)
    ensures
        cost == repair_cost_spec(missing_condition),
{
    let padded = match missing_condition.checked_add(9) {
        Some(v) => v,
        None => u32::MAX,
    };
    padded / 10
}

/// The value stored under `key` in a list of `(key, value)` pairs: the first match counts.
pub open spec fn pair_value_spec(pairs: Seq<(u32, u32)>, key: u32) -> Option<u32> {
    if exists|i: int| 0 <= i < pairs.len() && pairs[i].0 == key {
        let i = choose|i: int|
            0 <= i < pairs.len() && pairs[i].0 == key && forall|j: int|
                0 <= j < i ==> pairs[j].0 != key;
        Some(pairs[i].1)
    } else {
        None
    }
}

pub fn pair_value(pairs: &[(u32, u32)], key: u32) -> (value: Option<u32>)
    ensures
        value == pair_value_spec(pairs@, key),
{
    let mut i: usize = 0;
    while i < pairs.len()
        invariant
            i <= pairs@.len(),
            forall|j: int| 0 <= j < i ==> pairs@[j].0 != key,
        decreases pairs@.len() - i,
    {
        if pairs[i].0 == key {
            proof {
                let k = choose|k: int|
                    0 <= k < pairs@.len() && pairs@[k].0 == key && forall|j: int|
                        0 <= j < k ==> pairs@[j].0 != key;
                assert(k == i as int) by {
                    if k < i {
                        assert(pairs@[k].0 != key);
                    } else if k > i {
                        assert(pairs@[i as int].0 != key);
                    }
                }
            }
            return Some(pairs[i].1);
        }
        i = i + 1;
    }
    None
}

/// Units held of item `item_def_id`, given `(item, quantity)` stacks; none when absent.
pub open spec fn quantity_spec(stacks: Seq<(u32, u32)>, item_def_id: u32) -> u32 {
    match pair_value_spec(stacks, item_def_id) {
        Some(q) => q,
        None => 0,
    }
}

pub fn quantity(stacks: &[(u32, u32)], item_def_id: u32) -> (q: u32)
    ensures
        q == quantity_spec(stacks@, item_def_id),
{
    match pair_value(stacks, item_def_id) {
        Some(q) => q,
        None => 0,
    }
}

/// Units of the first `n` baits of the content that are held.
pub open spec fn bait_sum(baits: Seq<Bait>, stacks: Seq<(u32, u32)>, n: int) -> int
    decreases n,
{
    if n <= 0 {
        0
    } else {
        bait_sum(baits, stacks, n - 1) + quantity_spec(stacks, baits[n - 1].id.0)
    }
}

/// All bait held, over every bait of the content, capped at `u64::MAX`.
pub open spec fn total_bait_spec(baits: Seq<Bait>, stacks: Seq<(u32, u32)>) -> u64 {
    let sum = bait_sum(baits, stacks, baits.len() as int);
    if sum > u64::MAX {
        u64::MAX
    } else {
        sum as u64
    }
}

proof fn lemma_bait_sum_nonnegative(baits: Seq<Bait>, stacks: Seq<(u32, u32)>, n: int)
    ensures
        bait_sum(baits, stacks, n) >= 0,
    decreases n,
{
    if n > 0 {
        lemma_bait_sum_nonnegative(baits, stacks, n - 1);
    }
}

pub fn total_bait(content: &Content, stacks: &[(u32, u32)]) -> (total: u64)
    ensures
        total == total_bait_spec(content.baits@, stacks@),
{
    let mut total: u64 = 0;
    let mut i: usize = 0;
    while i < content.baits.len()
        invariant
            i <= content.baits@.len(),
            total == if bait_sum(content.baits@, stacks@, i as int) > u64::MAX {
                u64::MAX as int
            } else {
                bait_sum(content.baits@, stacks@, i as int)
            },
        decreases content.baits@.len() - i,
    {
        proof {
            lemma_bait_sum_nonnegative(content.baits@, stacks@, i as int);
        }
        let q = quantity(stacks, content.baits[i].id.0);
        total = match total.checked_add(q as u64) {
            Some(v) => v,
            None => u64::MAX,
        };
        i = i + 1;
    }
    total
}

/// After bait is added, selection switches to it only when the selected stack is empty.
pub open spec fn selection_after_add_spec(selected: BaitId, selected_quantity: u32, added: BaitId) -> BaitId {
    if selected_quantity == 0 {
        added
    } else {
        selected
    }
}

pub fn selection_after_add(selected: BaitId, selected_quantity: u32, added: BaitId) -> (next: BaitId)
    ensures
        next == selection_after_add_spec(selected, selected_quantity, added),
{
    if selected_quantity == 0 {
        added
    } else {
        selected
    }
}

/// Coins shown after a sale: stored coins below zero count as zero, capped at `u64::MAX`.
pub open spec fn coins_with(coins: i64, gained: u64) -> u64 {
    let base: int = if coins < 0 {
        0
    } else {
        coins as int
    };
    if base + gained > u64::MAX {
        u64::MAX
    } else {
        (base + gained) as u64
    }
}

fn add_to_coins(coins: i64, gained: u64) -> (total: u64)
    ensures
        total == coins_with(coins, gained),
{
    let base: u64 = if coins < 0 {
        0
    } else {
        coins as u64
    };
    match base.checked_add(gained) {
        Some(v) => v,
        None => u64::MAX,
    }
}

/// Repairing every rod. Refusals come in this order: missing character, encounter running,
/// not enough coins. Returns the cost to charge.
pub fn repair_plan(character_coins: Option<i64>, active: bool, missing_condition: u32) -> (outcome:
    Result<u32, GameError>)
    ensures
        character_coins is None ==> outcome matches Err(GameError::CharacterMissing),
        character_coins is Some && active ==> outcome matches Err(GameError::EncounterActive),
        character_coins matches Some(coins) && !active && coins < repair_cost_spec(missing_condition)
            ==> outcome matches Err(GameError::NotEnoughCoins),
        outcome is Ok <==> (character_coins is Some && !active && character_coins->0
            >= repair_cost_spec(missing_condition)),
        outcome matches Ok(cost) ==> cost == repair_cost_spec(missing_condition),
{
    let coins = match character_coins {
        Some(c) => c,
        None => return Err(GameError::CharacterMissing),
    };
    if active {
        return Err(GameError::EncounterActive);
    }
    let cost = repair_cost(missing_condition);
    if coins < cost as i64 {
        return Err(GameError::NotEnoughCoins);
    }
    Ok(cost)
}

/// Condition points missing over owned rods, as `(rod, condition)` pairs: a rod above 100
/// misses nothing.
pub open spec fn missing_sum(rods: Seq<(u32, u32)>, n: int) -> int
    decreases n,
{
    if n <= 0 {
        0
    } else {
        missing_sum(rods, n - 1) + if rods[n - 1].1 >= 100 {
            0
        } else {
            100 - rods[n - 1].1
        }
    }
}

pub fn missing_condition(rods: &[(u32, u32)]) -> (missing: u32)
    requires
        missing_sum(rods@, rods@.len() as int) <= u32::MAX,
    ensures
        missing == missing_sum(rods@, rods@.len() as int),
{
    let mut missing: u32 = 0;
    let mut i: usize = 0;
    while i < rods.len()
        invariant
            i <= rods@.len(),
            missing == missing_sum(rods@, i as int),
            missing_sum(rods@, rods@.len() as int) <= u32::MAX,
        decreases rods@.len() - i,
    {
        proof {
            lemma_missing_sum_grows(rods@, i as int + 1, rods@.len() as int);
        }
        let condition = rods[i].1;
        let gap: u32 = if condition >= 100 {
            0
        } else {
            100 - condition
        };
        missing = missing + gap;
        i = i + 1;
    }
    missing
}

proof fn lemma_missing_sum_grows(rods: Seq<(u32, u32)>, a: int, b: int)
    requires
        a <= b,
    ensures
        missing_sum(rods, a) <= missing_sum(rods, b),
    decreases b - a,
{
    if a < b {
        lemma_missing_sum_grows(rods, a, b - 1);
    }
}

/// The bait row with `id`, if the content has one.
fn find_bait(content: &Content, id: BaitId) -> (found: Option<&Bait>)
    requires
        strictly_sorted_by_key(content.baits@),
    ensures
        found is Some <==> has_key(content.baits@, id.0 as int),
        found matches Some(b) ==> *b == content.bait_spec(id),
{
    if has_bait(content, id) {
        Some(content.bait(id))
    } else {
        None
    }
}

fn has_bait(content: &Content, id: BaitId) -> (found: bool)
    requires
        strictly_sorted_by_key(content.baits@),
    ensures
        found == has_key(content.baits@, id.0 as int),
{
    search_by_key(&content.baits, id.0 as i128).is_some()
}

fn has_rod(content: &Content, id: RodId) -> (found: bool)
    requires
        strictly_sorted_by_key(content.rods@),
    ensures
        found == has_key(content.rods@, id.0 as int),
{
    search_by_key(&content.rods, id.0 as i128).is_some()
}

/// Buying one pack of bait `bait_id`. Refusals come in this order: unknown bait, bait not sold
/// here, missing character, not enough coins. Returns the price and pack size.
pub fn buy_bait_plan(content: &Content, bait_id: BaitId, character_coins: Option<i64>) -> (outcome:
    Result<(u32, u32), GameError>)
    requires
        strictly_sorted_by_key(content.baits@),
    ensures
        !has_key(content.baits@, bait_id.0 as int) ==> outcome matches Err(GameError::NoBait),
        has_key(content.baits@, bait_id.0 as int) && !content.bait_spec(bait_id).buyable
            ==> outcome matches Err(GameError::BaitNotForSale),
        has_key(content.baits@, bait_id.0 as int) && content.bait_spec(bait_id).buyable
            && character_coins is None ==> outcome matches Err(GameError::CharacterMissing),
        has_key(content.baits@, bait_id.0 as int) && content.bait_spec(bait_id).buyable
            && character_coins is Some && character_coins->0 < content.bait_spec(bait_id).buy_price
            ==> outcome matches Err(GameError::NotEnoughCoins),
        outcome is Ok <==> (has_key(content.baits@, bait_id.0 as int) && content.bait_spec(
            bait_id,
        ).buyable && character_coins is Some && character_coins->0 >= content.bait_spec(
            bait_id,
        ).buy_price),
        outcome matches Ok(terms) ==> terms == (
            content.bait_spec(bait_id).buy_price,
            content.bait_spec(bait_id).pack_size,
        ),
{
    let bait = match find_bait(content, bait_id) {
        Some(b) => b,
        None => return Err(GameError::NoBait),
    };
    if !bait.buyable {
        return Err(GameError::BaitNotForSale);
    }
    let coins = match character_coins {
        Some(c) => c,
        None => return Err(GameError::CharacterMissing),
    };
    if coins < bait.buy_price as i64 {
        return Err(GameError::NotEnoughCoins);
    }
    Ok((bait.buy_price, bait.pack_size))
}

/// A would-be rod buyer: its coins and whether it owns the rod already.
#[derive(Clone, Copy, Debug, PartialEq, Eq, Structural)]
pub struct RodBuyer {
    pub coins: i64,
    pub owns_rod: bool,
}

/// Buying rod `rod_id`. Refusals come in this order: unknown rod, missing character, rod already
/// owned, not enough coins. Returns the price.
pub fn buy_rod_plan(content: &Content, rod_id: RodId, character: Option<RodBuyer>) -> (outcome:
    Result<u32, GameError>)
    requires
        strictly_sorted_by_key(content.rods@),
    ensures
        !has_key(content.rods@, rod_id.0 as int) ==> outcome matches Err(GameError::UnknownRod),
        has_key(content.rods@, rod_id.0 as int) && character is None ==> outcome matches Err(
            GameError::CharacterMissing,
        ),
        has_key(content.rods@, rod_id.0 as int) && character is Some && character->0.owns_rod
            ==> outcome matches Err(GameError::RodAlreadyOwned),
        has_key(content.rods@, rod_id.0 as int) && character is Some && !character->0.owns_rod
            && character->0.coins < content.rod_spec(rod_id).buy_price ==> outcome matches Err(
            GameError::NotEnoughCoins,
        ),
        outcome is Ok <==> (has_key(content.rods@, rod_id.0 as int) && character is Some
            && !character->0.owns_rod && character->0.coins >= content.rod_spec(rod_id).buy_price),
        outcome matches Ok(price) ==> price == content.rod_spec(rod_id).buy_price,
{
    if !has_rod(content, rod_id) {
        return Err(GameError::UnknownRod);
    }
    let rod = content.rod(rod_id);
    let buyer = match character {
        Some(b) => b,
        None => return Err(GameError::CharacterMissing),
    };
    let coins = buyer.coins;
    if buyer.owns_rod {
        return Err(GameError::RodAlreadyOwned);
    }
    if coins < rod.buy_price as i64 {
        return Err(GameError::NotEnoughCoins);
    }
    Ok(rod.buy_price)
}

/// Equipping rod `rod_id`, given whether the character exists and owns it. Refusals come in
/// this order: unknown rod, missing character, rod not owned.
pub fn equip_rod_check(content: &Content, rod_id: RodId, character_owns: Option<bool>) -> (outcome:
    Result<(), GameError>)
    requires
        strictly_sorted_by_key(content.rods@),
    ensures
        outcome == if !has_key(content.rods@, rod_id.0 as int) {
            Err(GameError::UnknownRod)
        } else {
            match character_owns {
                None => Err(GameError::CharacterMissing),
                Some(false) => Err(GameError::RodNotOwned),
                Some(true) => Ok(()),
            }
        },
{
    if !has_rod(content, rod_id) {
        return Err(GameError::UnknownRod);
    }
    match character_owns {
        None => Err(GameError::CharacterMissing),
        Some(false) => Err(GameError::RodNotOwned),
        Some(true) => Ok(()),
    }
}

/// Selecting bait `bait_id`, given how much of it the character holds if it exists. Refusals
/// come in this order: unknown bait, missing character, none held.
pub fn select_bait_check(content: &Content, bait_id: BaitId, character_quantity: Option<u32>) -> (outcome:
    Result<(), GameError>)
    requires
        strictly_sorted_by_key(content.baits@),
    ensures
        outcome == if !has_key(content.baits@, bait_id.0 as int) {
            Err(GameError::NoBait)
        } else {
            match character_quantity {
                None => Err(GameError::CharacterMissing),
                Some(q) => if q == 0 {
                    Err(GameError::NoBait)
                } else {
                    Ok(())
                },
            }
        },
{
    if !has_bait(content, bait_id) {
        return Err(GameError::NoBait);
    }
    match character_quantity {
        None => Err(GameError::CharacterMissing),
        Some(q) => if q == 0 {
            Err(GameError::NoBait)
        } else {
            Ok(())
        },
    }
}

/// Emergency worms handed out by foraging, and their bait id.
pub const EMERGENCY_WORMS: u32 = 3;

pub const WORM_BAIT: u32 = 1;

/// Foraging for emergency worms, given the character's stacks if it exists: only a character
/// holding no bait at all may forage.
pub fn forage_check(content: &Content, character_stacks: Option<&[(u32, u32)]>) -> (outcome: Result<
    (),
    GameError,
>)
    ensures
        outcome == match character_stacks {
            None => Err(GameError::CharacterMissing),
            Some(stacks) => if total_bait_spec(content.baits@, stacks@) != 0 {
                Err(GameError::BaitStillAvailable)
            } else {
                Ok(())
            },
        },
{
    match character_stacks {
        None => Err(GameError::CharacterMissing),
        Some(stacks) => if total_bait(content, stacks) != 0 {
            Err(GameError::BaitStillAvailable)
        } else {
            Ok(())
        },
    }
}

/// Coins fetched by the first `n` stored catches, given as `(species, length, weight)`.
pub open spec fn sale_sum(content: Content, catches: Seq<(SpeciesId, u32, u32)>, n: int) -> int
    decreases n,
{
    if n <= 0 {
        0
    } else {
        sale_sum(content, catches, n - 1) + sale_value_spec(
            content.species_spec(catches[n - 1].0),
            Specimen { length_mm: catches[n - 1].1, weight_g: catches[n - 1].2 },
        )
    }
}

proof fn lemma_sale_sum_nonnegative(content: Content, catches: Seq<(SpeciesId, u32, u32)>, n: int)
    ensures
        sale_sum(content, catches, n) >= 0,
    decreases n,
{
    if n > 0 {
        lemma_sale_sum_nonnegative(content, catches, n - 1);
    }
}

/// Selling every stored catch. Refusals: missing character, then nothing stored. Sold counts
/// and coins saturate.
pub fn sale_outcome(content: &Content, character_coins: Option<i64>, catches: &[(SpeciesId, u32, u32)]) -> (outcome:
    Result<SaleView, GameError>)
    requires
        strictly_sorted_by_key(content.species@),
        forall|i: int|
            0 <= i < catches@.len() ==> has_key(content.species@, (#[trigger] catches@[i]).0.0 as int),
    ensures
        character_coins is None ==> outcome matches Err(GameError::CharacterMissing),
        character_coins is Some && catches@.len() == 0 ==> outcome matches Err(
            GameError::NothingToSell,
        ),
        outcome is Ok <==> (character_coins is Some && catches@.len() > 0),
        outcome matches Ok(sale) ==> {
            let sum = sale_sum(*content, catches@, catches@.len() as int);
            let gained: u64 = if sum > u64::MAX {
                u64::MAX
            } else {
                sum as u64
            };
            &&& sale.sold == if catches@.len() > u32::MAX {
                u32::MAX as int
            } else {
                catches@.len() as int
            }
            &&& sale.coins_gained == gained
            &&& sale.coins == coins_with(character_coins->0, gained)
        },
{
    let coins = match character_coins {
        Some(c) => c,
        None => return Err(GameError::CharacterMissing),
    };
    let mut sold: u32 = 0;
    let mut gained: u64 = 0;
    let mut i: usize = 0;
    while i < catches.len()
        invariant
            i <= catches@.len(),
            strictly_sorted_by_key(content.species@),
            forall|j: int|
                0 <= j < catches@.len() ==> has_key(
                    content.species@,
                    (#[trigger] catches@[j]).0.0 as int,
                ),
            sold == if i > u32::MAX {
                u32::MAX as int
            } else {
                i as int
            },
            gained == if sale_sum(*content, catches@, i as int) > u64::MAX {
                u64::MAX as int
            } else {
                sale_sum(*content, catches@, i as int)
            },
        decreases catches@.len() - i,
    {
        proof {
            lemma_sale_sum_nonnegative(*content, catches@, i as int);
        }
        let (species_id, length_mm, weight_g) = catches[i];
        let species = content.species(species_id);
        let value = sale_value(species, Specimen { length_mm, weight_g });
        sold = if sold == u32::MAX {
            u32::MAX
        } else {
            sold + 1
        };
        gained = match gained.checked_add(value) {
            Some(v) => v,
            None => u64::MAX,
        };
        i = i + 1;
    }
    if sold == 0 {
        return Err(GameError::NothingToSell);
    }
    Ok(SaleView { sold, coins_gained: gained, coins: add_to_coins(coins, gained) })
}

/// The stored catch a recipe spends, among `(item, weight)` candidates: the lightest, then the
/// older item.
pub fn craft_material(candidates: &[(i64, u32)]) -> (chosen: Option<i64>)
    ensures
        chosen is None <==> candidates@.len() == 0,
        chosen matches Some(item_id) ==> exists|i: int|
            0 <= i < candidates@.len() && #[trigger] candidates@[i].0 == item_id && forall|j: int|
                0 <= j < candidates@.len() ==> (#[trigger] candidates@[j]).1 > candidates@[i].1 || (
                candidates@[j].1 == candidates@[i].1 && candidates@[j].0 >= candidates@[i].0),
{
    if candidates.len() == 0 {
        return None;
    }
    let mut best: usize = 0;
    let mut k: usize = 1;
    while k < candidates.len()
        invariant
            1 <= k <= candidates@.len(),
            best < k,
            forall|j: int|
                0 <= j < k ==> (#[trigger] candidates@[j]).1 > candidates@[best as int].1 || (
                candidates@[j].1 == candidates@[best as int].1 && candidates@[j].0
                    >= candidates@[best as int].0),
        decreases candidates@.len() - k,
    {
        let (item, weight) = candidates[k];
        let (best_item, best_weight) = candidates[best];
        if weight < best_weight || (weight == best_weight && item < best_item) {
            best = k;
        }
        k = k + 1;
    }
    Some(candidates[best].0)
}

/// Crafting recipe `recipe_id` from `material`, the stored catch the recipe would spend if
/// there is one. Refusals come in this order: unknown recipe, missing character, no material.
pub fn craft_outcome(
    content: &Content,
    recipe_id: u32,
    character_exists: bool,
    material: Option<i64>,
) -> (outcome: Result<(RecipeDefinition, i64, CraftResultView), GameError>)
    requires
        strictly_sorted_by_key(content.baits@),
        1 <= recipe_id <= RECIPE_COUNT ==> has_key(
            content.baits@,
            recipe_terms(recipe_id as int).1.0 as int,
        ),
    ensures
        !(1 <= recipe_id <= RECIPE_COUNT) ==> outcome matches Err(GameError::UnknownRecipe),
        1 <= recipe_id <= RECIPE_COUNT && !character_exists ==> outcome matches Err(
            GameError::CharacterMissing,
        ),
        1 <= recipe_id <= RECIPE_COUNT && character_exists && material is None ==> outcome matches Err(
            GameError::RecipeNotReady,
        ),
        outcome is Ok <==> (1 <= recipe_id <= RECIPE_COUNT && character_exists && material is Some),
        outcome matches Ok((r, item, view)) ==> {
            &&& recipe_matches(r, recipe_id as int)
            &&& item == material->0
            &&& view.recipe_name@ == recipe_texts(recipe_id as int).0
            &&& view.bait_name@ == content.bait_spec(r.output).name@
            &&& view.quantity == r.quantity
        },
{
    let r = match recipe(recipe_id) {
        Some(r) => r,
        None => return Err(GameError::UnknownRecipe),
    };
    if !character_exists {
        return Err(GameError::CharacterMissing);
    }
    let item = match material {
        Some(item) => item,
        None => return Err(GameError::RecipeNotReady),
    };
    let view = CraftResultView {
        recipe_name: r.name,
        bait_name: content.bait(r.output).name.clone(),
        quantity: r.quantity,
    };
    Ok((r, item, view))
}

fn coins_shown(coins: i64) -> (shown: u64)
    ensures
        shown == non_negative(coins),
{
    if coins < 0 {
        0
    } else {
        coins as u64
    }
}

/// `view` lists content bait `bait` with the held quantity and selection.
pub open spec fn bait_stack_matches(view: BaitStackView, bait: Bait, stacks: Seq<(u32, u32)>, selected: BaitId) -> bool {
    &&& view.id == bait.id
    &&& view.name@ == bait.name@
    &&& view.power == bait.fishing_power
    &&& view.quantity == quantity_spec(stacks, bait.id.0)
    &&& view.selected == (bait.id == selected)
}

/// `view` lists content rod `rod` with the owned condition (full when not owned) and whether it
/// is equipped.
pub open spec fn rod_entry_matches(view: RodInventoryView, rod: crate::content::Rod, owned_rods: Seq<(u32, u32)>, equipped: RodId) -> bool {
    let condition = pair_value_spec(owned_rods, rod.id.0);
    &&& view.id == rod.id
    &&& view.name@ == rod.name@
    &&& view.control == rod.control
    &&& view.condition == match condition {
        Some(c) => c,
        None => 100,
    }
    &&& view.owned == condition is Some
    &&& view.equipped == (rod.id == equipped)
}

/// How many recent catches the inventory previews.
pub const RECENT_CATCHES: usize = 8;

/// The inventory: coins, every bait and rod of the content, the newest stored catches and the
/// value of selling all of them.
pub fn inventory_view(
    content: &Content,
    coins: i64,
    selected: BaitId,
    equipped: RodId,
    stacks: &[(u32, u32)],
    owned_rods: &[(u32, u32)],
    stored_newest_first: &[(SpeciesId, u32, u32)],
    has_rusted_key: bool,
) -> (view: InventoryView)
    requires
        strictly_sorted_by_key(content.species@),
        strictly_sorted_by_key(content.rods@),
        has_key(content.rods@, equipped.0 as int),
        forall|i: int|
            0 <= i < stored_newest_first@.len() ==> has_key(
                content.species@,
                (#[trigger] stored_newest_first@[i]).0.0 as int,
            ),
    ensures
        view.coins == non_negative(coins),
        view.rod_name@ == content.rod_spec(equipped).name@,
        view.baits@.len() == content.baits@.len(),
        forall|i: int|
            0 <= i < content.baits@.len() ==> bait_stack_matches(
                #[trigger] view.baits@[i],
                content.baits@[i],
                stacks@,
                selected,
            ),
        view.rods@.len() == content.rods@.len(),
        forall|i: int|
            0 <= i < content.rods@.len() ==> rod_entry_matches(
                #[trigger] view.rods@[i],
                content.rods@[i],
                owned_rods@,
                equipped,
            ),
        view.recent_catches@.len() == if stored_newest_first@.len() < RECENT_CATCHES {
            stored_newest_first@.len() as int
        } else {
            RECENT_CATCHES as int
        },
        forall|i: int|
            0 <= i < view.recent_catches@.len() ==> crate::progression::catch_summary_matches(
                #[trigger] view.recent_catches@[i],
                *content,
                stored_newest_first@[i].0,
                stored_newest_first@[i].1,
                stored_newest_first@[i].2,
            ),
        view.catch_count == if stored_newest_first@.len() > u32::MAX {
            u32::MAX as int
        } else {
            stored_newest_first@.len() as int
        },
        view.sell_value == if sale_sum(*content, stored_newest_first@, stored_newest_first@.len() as int)
            > u64::MAX {
            u64::MAX as int
        } else {
            sale_sum(*content, stored_newest_first@, stored_newest_first@.len() as int)
        },
        view.has_rusted_key == has_rusted_key,
{
    let mut baits: Vec<BaitStackView> = Vec::new();
    let mut i: usize = 0;
    while i < content.baits.len()
        invariant
            i <= content.baits@.len(),
            baits@.len() == i,
            forall|j: int|
                0 <= j < i ==> bait_stack_matches(#[trigger] baits@[j], content.baits@[j], stacks@, selected),
        decreases content.baits@.len() - i,
    {
        let bait = &content.baits[i];
        baits.push(
            BaitStackView {
                id: bait.id,
                name: bait.name.clone(),
                power: bait.fishing_power,
                quantity: quantity(stacks, bait.id.0),
                selected: bait.id == selected,
            },
        );
        i = i + 1;
    }
    let mut rods: Vec<RodInventoryView> = Vec::new();
    let mut k: usize = 0;
    while k < content.rods.len()
        invariant
            k <= content.rods@.len(),
            rods@.len() == k,
            forall|j: int|
                0 <= j < k ==> rod_entry_matches(#[trigger] rods@[j], content.rods@[j], owned_rods@, equipped),
        decreases content.rods@.len() - k,
    {
        let rod = &content.rods[k];
        let condition = pair_value(owned_rods, rod.id.0);
        rods.push(
            RodInventoryView {
                id: rod.id,
                name: rod.name.clone(),
                control: rod.control,
                condition: match condition {
                    Some(c) => c,
                    None => 100,
                },
                owned: condition.is_some(),
                equipped: rod.id == equipped,
            },
        );
        k = k + 1;
    }
    let mut recent: Vec<CatchSummaryView> = Vec::new();
    let mut count: u32 = 0;
    let mut value: u64 = 0;
    let mut n: usize = 0;
    while n < stored_newest_first.len()
        invariant
            n <= stored_newest_first@.len(),
            strictly_sorted_by_key(content.species@),
            forall|j: int|
                0 <= j < stored_newest_first@.len() ==> has_key(
                    content.species@,
                    (#[trigger] stored_newest_first@[j]).0.0 as int,
                ),
            recent@.len() == if n < RECENT_CATCHES {
                n as int
            } else {
                RECENT_CATCHES as int
            },
            forall|j: int|
                0 <= j < recent@.len() ==> crate::progression::catch_summary_matches(
                    #[trigger] recent@[j],
                    *content,
                    stored_newest_first@[j].0,
                    stored_newest_first@[j].1,
                    stored_newest_first@[j].2,
                ),
            count == if n > u32::MAX {
                u32::MAX as int
            } else {
                n as int
            },
            value == if sale_sum(*content, stored_newest_first@, n as int) > u64::MAX {
                u64::MAX as int
            } else {
                sale_sum(*content, stored_newest_first@, n as int)
            },
        decreases stored_newest_first@.len() - n,
    {
        proof {
            lemma_sale_sum_nonnegative(*content, stored_newest_first@, n as int);
        }
        let (species_id, length_mm, weight_g) = stored_newest_first[n];
        let species = content.species(species_id);
        let catch_value = sale_value(species, Specimen { length_mm, weight_g });
        count = if count == u32::MAX {
            u32::MAX
        } else {
            count + 1
        };
        value = match value.checked_add(catch_value) {
            Some(v) => v,
            None => u64::MAX,
        };
        if recent.len() < RECENT_CATCHES {
            recent.push(
                CatchSummaryView { species_name: species.name.clone(), length_mm, weight_g, value: catch_value },
            );
        }
        n = n + 1;
    }
    InventoryView {
        coins: coins_shown(coins),
        rod_name: content.rod(equipped).name.clone(),
        rods,
        baits,
        recent_catches: recent,
        catch_count: count,
        sell_value: value,
        has_rusted_key,
    }
}

/// The baits the shop sells, in content order.
pub open spec fn buyable_baits(baits: Seq<Bait>) -> Seq<Bait>
    decreases baits.len(),
{
    if baits.len() == 0 {
        Seq::empty()
    } else {
        let rest = buyable_baits(baits.drop_last());
        if baits.last().buyable {
            rest.push(baits.last())
        } else {
            rest
        }
    }
}

/// `view` offers bait `bait` with its held quantity, pack and price.
pub open spec fn shop_bait_matches(view: ShopBaitView, bait: Bait, stacks: Seq<(u32, u32)>, selected: BaitId) -> bool {
    &&& view.id == bait.id
    &&& view.name@ == bait.name@
    &&& view.power == bait.fishing_power
    &&& view.quantity == quantity_spec(stacks, bait.id.0)
    &&& view.pack_size == bait.pack_size
    &&& view.price == bait.buy_price
    &&& view.selected == (bait.id == selected)
}

/// `view` offers rod `rod` with its price, owned condition and equipped state.
pub open spec fn shop_rod_matches(view: ShopRodView, rod: crate::content::Rod, owned_rods: Seq<(u32, u32)>, equipped: RodId) -> bool {
    let condition = pair_value_spec(owned_rods, rod.id.0);
    &&& view.id == rod.id
    &&& view.name@ == rod.name@
    &&& view.control == rod.control
    &&& view.condition == match condition {
        Some(c) => c,
        None => 100,
    }
    &&& view.price == rod.buy_price
    &&& view.owned == condition is Some
    &&& view.equipped == (rod.id == equipped)
}

/// The shop: coins, the baits for sale, every rod, whether foraging is open and what repairing
/// every owned rod costs.
pub fn shop_view(
    content: &Content,
    coins: i64,
    selected: BaitId,
    equipped: RodId,
    stacks: &[(u32, u32)],
    owned_rods: &[(u32, u32)],
) -> (view: ShopView)
    requires
        missing_sum(owned_rods@, owned_rods@.len() as int) <= u32::MAX,
    ensures
        view.coins == non_negative(coins),
        view.baits@.len() == buyable_baits(content.baits@).len(),
        forall|i: int|
            0 <= i < view.baits@.len() ==> shop_bait_matches(
                #[trigger] view.baits@[i],
                buyable_baits(content.baits@)[i],
                stacks@,
                selected,
            ),
        view.rods@.len() == content.rods@.len(),
        forall|i: int|
            0 <= i < content.rods@.len() ==> shop_rod_matches(
                #[trigger] view.rods@[i],
                content.rods@[i],
                owned_rods@,
                equipped,
            ),
        view.can_forage == (total_bait_spec(content.baits@, stacks@) == 0),
        view.repair_all_cost == repair_cost_spec(
            missing_sum(owned_rods@, owned_rods@.len() as int) as u32,
        ),
{
    let mut baits: Vec<ShopBaitView> = Vec::new();
    let mut i: usize = 0;
    while i < content.baits.len()
        invariant
            i <= content.baits@.len(),
            baits@.len() == buyable_baits(content.baits@.take(i as int)).len(),
            forall|j: int|
                0 <= j < baits@.len() ==> shop_bait_matches(
                    #[trigger] baits@[j],
                    buyable_baits(content.baits@.take(i as int))[j],
                    stacks@,
                    selected,
                ),
        decreases content.baits@.len() - i,
    {
        let bait = &content.baits[i];
        proof {
            assert(content.baits@.take(i as int + 1).drop_last() =~= content.baits@.take(i as int));
        }
        if bait.buyable {
            baits.push(
                ShopBaitView {
                    id: bait.id,
                    name: bait.name.clone(),
                    power: bait.fishing_power,
                    quantity: quantity(stacks, bait.id.0),
                    pack_size: bait.pack_size,
                    price: bait.buy_price,
                    selected: bait.id == selected,
                },
            );
        }
        i = i + 1;
    }
    proof {
        assert(content.baits@.take(content.baits@.len() as int) =~= content.baits@);
    }
    let mut rods: Vec<ShopRodView> = Vec::new();
    let mut k: usize = 0;
    while k < content.rods.len()
        invariant
            k <= content.rods@.len(),
            rods@.len() == k,
            forall|j: int|
                0 <= j < k ==> shop_rod_matches(#[trigger] rods@[j], content.rods@[j], owned_rods@, equipped),
        decreases content.rods@.len() - k,
    {
        let rod = &content.rods[k];
        let condition = pair_value(owned_rods, rod.id.0);
        rods.push(
            ShopRodView {
                id: rod.id,
                name: rod.name.clone(),
                control: rod.control,
                condition: match condition {
                    Some(c) => c,
                    None => 100,
                },
                price: rod.buy_price,
                owned: condition.is_some(),
                equipped: rod.id == equipped,
            },
        );
        k = k + 1;
    }
    let missing = missing_condition(owned_rods);
    ShopView {
        coins: coins_shown(coins),
        baits,
        rods,
        can_forage: total_bait(content, stacks) == 0,
        repair_all_cost: repair_cost(missing),
    }
}

/// Stored catches over `(species, count)` rows, first `n` rows, uncapped.
pub open spec fn count_sum(counts: Seq<(u32, u32)>, n: int) -> int
    decreases n,
{
    if n <= 0 {
        0
    } else {
        count_sum(counts, n - 1) + counts[n - 1].1
    }
}

proof fn lemma_count_sum_nonnegative(counts: Seq<(u32, u32)>, n: int)
    ensures
        count_sum(counts, n) >= 0,
    decreases n,
{
    if n > 0 {
        lemma_count_sum_nonnegative(counts, n - 1);
    }
}

/// Whether recipe `id` can be crafted from the stored catches.
pub open spec fn recipe_ready(id: int, counts: Seq<(u32, u32)>, stored: int) -> bool {
    match recipe_terms(id).0 {
        None => stored > 0,
        Some(species) => match pair_value_spec(counts, species.0) {
            Some(c) => c > 0,
            None => false,
        },
    }
}

/// The tackle bench: every recipe with whether it is ready, from stored catch counts per
/// species.
pub fn crafting_view(content: &Content, counts: &[(u32, u32)]) -> (view: CraftingView)
    requires
        strictly_sorted_by_key(content.baits@),
        has_key(content.baits@, recipe_terms(1).1.0 as int),
        has_key(content.baits@, recipe_terms(2).1.0 as int),
    ensures
        ({
            let total = count_sum(counts@, counts@.len() as int);
            let stored = if total > u32::MAX {
                u32::MAX as int
            } else {
                total
            };
            &&& view.stored_catches == stored
            &&& view.recipes@.len() == RECIPE_COUNT
            &&& forall|i: int|
                0 <= i < RECIPE_COUNT ==> {
                    let r = #[trigger] view.recipes@[i];
                    &&& r.id == i + 1
                    &&& r.name@ == recipe_texts(i + 1).0
                    &&& r.description@ == recipe_texts(i + 1).1
                    &&& r.output_name@ == content.bait_spec(recipe_terms(i + 1).1).name@
                    &&& r.output_quantity == recipe_terms(i + 1).2
                    &&& r.ready == recipe_ready(i + 1, counts@, stored)
                }
        }),
{
    let mut stored: u32 = 0;
    let mut i: usize = 0;
    while i < counts.len()
        invariant
            i <= counts@.len(),
            stored == if count_sum(counts@, i as int) > u32::MAX {
                u32::MAX as int
            } else {
                count_sum(counts@, i as int)
            },
        decreases counts@.len() - i,
    {
        proof {
            lemma_count_sum_nonnegative(counts@, i as int);
        }
        stored = match stored.checked_add(counts[i].1) {
            Some(v) => v,
            None => u32::MAX,
        };
        i = i + 1;
    }
    let mut recipes: Vec<RecipeView> = Vec::new();
    let mut id: u32 = 1;
    while id <= RECIPE_COUNT
        invariant
            1 <= id <= RECIPE_COUNT + 1,
            recipes@.len() == id - 1,
            strictly_sorted_by_key(content.baits@),
            has_key(content.baits@, recipe_terms(1).1.0 as int),
            has_key(content.baits@, recipe_terms(2).1.0 as int),
            forall|j: int|
                0 <= j < id - 1 ==> {
                    let r = #[trigger] recipes@[j];
                    &&& r.id == j + 1
                    &&& r.name@ == recipe_texts(j + 1).0
                    &&& r.description@ == recipe_texts(j + 1).1
                    &&& r.output_name@ == content.bait_spec(recipe_terms(j + 1).1).name@
                    &&& r.output_quantity == recipe_terms(j + 1).2
                    &&& r.ready == recipe_ready(j + 1, counts@, stored as int)
                },
        decreases RECIPE_COUNT + 1 - id,
    {
        match recipe(id) {
            Some(r) => {
                let ready = match r.material {
                    None => stored > 0,
                    Some(species) => match pair_value(counts, species.0) {
                        Some(c) => c > 0,
                        None => false,
                    },
                };
                recipes.push(
                    RecipeView {
                        id: r.id,
                        name: r.name,
                        description: r.description,
                        output_name: content.bait(r.output).name.clone(),
                        output_quantity: r.quantity,
                        ready,
                    },
                );
            },
            None => {},
        }
        id = id + 1;
    }
    CraftingView { recipes, stored_catches: stored }
}

} // verus!
