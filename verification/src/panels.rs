//! What each panel offers the player: which buttons are live, which are greyed out, and which
//! notices are shown. Rendering the panels is the transport's job.

use vstd::prelude::*;
use crate::callback::Callback;
use crate::fishing::Reaction;
use crate::view::{
    BaitStackView, CharacterView, ObjectiveView, RodInventoryView, ShopBaitView, ShopRodView,
};

verus! {

/// The main action row of the home panel.
#[derive(Clone, Copy, Debug, PartialEq, Eq, Structural)]
pub enum HomeActions {
    /// A line is out: only cutting it is offered.
    CutLine,
    /// Cast with the selected bait, or explore.
    CastOrExplore,
    /// The selected bait ran out but other bait is held: choose bait, or explore.
    ChooseBaitOrExplore,
    /// No bait at all: dig for worms, or explore.
    DigOrExplore,
    /// Nowhere to fish here: explore.
    ExploreOnly,
}

pub open spec fn home_actions_spec(character: CharacterView) -> HomeActions {
    if character.fishing_active {
        HomeActions::CutLine
    } else if character.location.fishable && character.bait_left > 0 {
        HomeActions::CastOrExplore
    } else if character.location.fishable && character.total_bait > 0 {
        HomeActions::ChooseBaitOrExplore
    } else if character.location.fishable {
        HomeActions::DigOrExplore
    } else {
        HomeActions::ExploreOnly
    }
}

pub fn home_actions(character: &CharacterView) -> (actions: HomeActions)
    ensures
        actions == home_actions_spec(*character),
{
    if character.fishing_active {
        HomeActions::CutLine
    } else if character.location.fishable && character.bait_left > 0 {
        HomeActions::CastOrExplore
    } else if character.location.fishable && character.total_bait > 0 {
        HomeActions::ChooseBaitOrExplore
    } else if character.location.fishable {
        HomeActions::DigOrExplore
    } else {
        HomeActions::ExploreOnly
    }
}

/// The notice about bait on the home panel, if one is due at a fishing spot.
pub open spec fn bait_notice_spec(character: CharacterView) -> Option<Seq<char>> {
    if character.bait_left == 0 && character.location.fishable {
        if character.total_bait == 0 {
            Some(
                "Your tackle pouch is empty. The stall can restock you, or you can dig up a few emergency worms."@,
            )
        } else {
            Some("Your selected bait is empty. Another bait in your inventory is still usable."@)
        }
    } else {
        None
    }
}

pub fn bait_notice(character: &CharacterView) -> (notice: Option<&'static str>)
    ensures
        notice is Some == bait_notice_spec(*character) is Some,
        notice matches Some(text) ==> text@ == bait_notice_spec(*character)->0,
{
    if character.bait_left == 0 && character.location.fishable {
        if character.total_bait == 0 {
            Some(
                "Your tackle pouch is empty. The stall can restock you, or you can dig up a few emergency worms.",
            )
        } else {
            Some("Your selected bait is empty. Another bait in your inventory is still usable.")
        }
    } else {
        None
    }
}

/// A row's action in a shop or inventory table: a live button sending `callback`, or a greyed
/// out label.
#[derive(Clone, Copy, Debug, PartialEq, Eq, Structural)]
pub enum RowAction {
    /// A live button.
    Press(Callback),
    /// Already equipped or selected.
    Current,
    /// Owned already.
    Owned,
    /// Too expensive: the price that is needed.
    NeedCoins(u32),
    /// Nothing held, nothing to use.
    Empty,
    /// Not possible yet.
    NotReady,
    /// Already done.
    Done,
}

/// What the stall offers for a rod.
pub open spec fn rod_offer_spec(rod: ShopRodView, coins: u64) -> RowAction {
    if rod.equipped {
        RowAction::Current
    } else if rod.owned {
        RowAction::Owned
    } else if rod.price <= coins {
        RowAction::Press(Callback::BuyRod { rod_id: rod.id })
    } else {
        RowAction::NeedCoins(rod.price)
    }
}

pub fn rod_offer(rod: &ShopRodView, coins: u64) -> (action: RowAction)
    ensures
        action == rod_offer_spec(*rod, coins),
{
    if rod.equipped {
        RowAction::Current
    } else if rod.owned {
        RowAction::Owned
    } else if rod.price as u64 <= coins {
        RowAction::Press(Callback::BuyRod { rod_id: rod.id })
    } else {
        RowAction::NeedCoins(rod.price)
    }
}

/// What the stall offers for a bait.
pub open spec fn bait_offer_spec(bait: ShopBaitView, coins: u64) -> RowAction {
    if bait.price <= coins {
        RowAction::Press(Callback::BuyBait { bait_id: bait.id })
    } else {
        RowAction::NeedCoins(bait.price)
    }
}

pub fn bait_offer(bait: &ShopBaitView, coins: u64) -> (action: RowAction)
    ensures
        action == bait_offer_spec(*bait, coins),
{
    if bait.price as u64 <= coins {
        RowAction::Press(Callback::BuyBait { bait_id: bait.id })
    } else {
        RowAction::NeedCoins(bait.price)
    }
}

/// The repair offer: none when nothing is worn.
pub open spec fn repair_offer_spec(cost: u32, coins: u64) -> Option<RowAction> {
    if cost == 0 {
        None
    } else if cost <= coins {
        Some(RowAction::Press(Callback::RepairRods))
    } else {
        Some(RowAction::NeedCoins(cost))
    }
}

pub fn repair_offer(cost: u32, coins: u64) -> (action: Option<RowAction>)
    ensures
        action == repair_offer_spec(cost, coins),
{
    if cost == 0 {
        None
    } else if cost as u64 <= coins {
        Some(RowAction::Press(Callback::RepairRods))
    } else {
        Some(RowAction::NeedCoins(cost))
    }
}

/// What the inventory offers for an owned rod.
pub open spec fn rod_choice_spec(rod: RodInventoryView) -> RowAction {
    if rod.equipped {
        RowAction::Current
    } else {
        RowAction::Press(Callback::EquipRod { rod_id: rod.id })
    }
}

pub fn rod_choice(rod: &RodInventoryView) -> (action: RowAction)
    ensures
        action == rod_choice_spec(*rod),
{
    if rod.equipped {
        RowAction::Current
    } else {
        RowAction::Press(Callback::EquipRod { rod_id: rod.id })
    }
}

/// What the inventory offers for a bait stack.
pub open spec fn bait_choice_spec(bait: BaitStackView) -> RowAction {
    if bait.selected {
        RowAction::Current
    } else if bait.quantity > 0 {
        RowAction::Press(Callback::SelectBait { bait_id: bait.id })
    } else {
        RowAction::Empty
    }
}

pub fn bait_choice(bait: &BaitStackView) -> (action: RowAction)
    ensures
        action == bait_choice_spec(*bait),
{
    if bait.selected {
        RowAction::Current
    } else if bait.quantity > 0 {
        RowAction::Press(Callback::SelectBait { bait_id: bait.id })
    } else {
        RowAction::Empty
    }
}

/// What the board offers for a milestone.
pub open spec fn milestone_action_spec(objective: ObjectiveView) -> RowAction {
    if objective.claimed {
        RowAction::Done
    } else if objective.completed {
        RowAction::Press(Callback::ClaimObjective { objective_id: objective.id })
    } else {
        RowAction::NotReady
    }
}

pub fn milestone_action(objective: &ObjectiveView) -> (action: RowAction)
    ensures
        action == milestone_action_spec(*objective),
{
    if objective.claimed {
        RowAction::Done
    } else if objective.completed {
        RowAction::Press(Callback::ClaimObjective { objective_id: objective.id })
    } else {
        RowAction::NotReady
    }
}

/// What the board offers for today's contract.
pub open spec fn contract_action_spec(claimed: bool, ready: bool) -> RowAction {
    if claimed {
        RowAction::Done
    } else if ready {
        RowAction::Press(Callback::TurnInContract)
    } else {
        RowAction::NotReady
    }
}

pub fn contract_action(claimed: bool, ready: bool) -> (action: RowAction)
    ensures
        action == contract_action_spec(claimed, ready),
{
    if claimed {
        RowAction::Done
    } else if ready {
        RowAction::Press(Callback::TurnInContract)
    } else {
        RowAction::NotReady
    }
}

/// A greyed-out button is never offered for something the player can already do, and a live
/// buy button is never offered beyond the player's coins.
pub proof fn lemma_offers_are_affordable(rod: ShopRodView, bait: ShopBaitView, cost: u32, coins: u64)
    ensures
        rod_offer_spec(rod, coins) matches RowAction::Press(_) ==> rod.price <= coins && !rod.owned,
        bait_offer_spec(bait, coins) matches RowAction::Press(_) ==> bait.price <= coins,
        repair_offer_spec(cost, coins) matches Some(RowAction::Press(_)) ==> 0 < cost <= coins,
{
}

/// Shown at a shop row: the marker of the equipped or selected entry.
pub open spec fn marker_spec(current: bool) -> Seq<char> {
    if current {
        "\u{25CF}"@
    } else {
        "\u{25CB}"@
    }
}

pub fn marker(current: bool) -> (mark: &'static str)
    ensures
        mark@ == marker_spec(current),
{
    if current {
        "\u{25CF}"
    } else {
        "\u{25CB}"
    }
}

/// How a reaction grade is named on the catch card.
pub fn reaction_label(reaction: Reaction) -> (label: &'static str)
    ensures
        label@ == match reaction {
            Reaction::Excellent => "Excellent"@,
            Reaction::Good => "Good"@,
            Reaction::Late => "Late"@,
            Reaction::Missed => "Missed"@,
        },
{
    match reaction {
        Reaction::Excellent => "Excellent",
        Reaction::Good => "Good",
        Reaction::Late => "Late",
        Reaction::Missed => "Missed",
    }
}

/// The minutes and seconds a countdown of `ms` milliseconds shows: whole seconds, never
/// negative; under a minute, no minutes and at least one second.
pub open spec fn duration_parts_spec(ms: i64) -> (int, int) {
    let seconds = if ms < 0 {
        0
    } else {
        ms / 1000
    };
    if seconds < 60 {
        (0, if seconds < 1 {
            1
        } else {
            seconds
        })
    } else {
        (seconds / 60, seconds % 60)
    }
}

/// The `(minutes, seconds)` shown for a countdown of `ms` milliseconds: `"{s}s"` when there are
/// no minutes, else `"{m}m"`, followed by `" {s}s"` when seconds remain.
pub fn duration_parts(ms: i64) -> (parts: (i64, i64))
    ensures
        parts.0 == duration_parts_spec(ms).0,
        parts.1 == duration_parts_spec(ms).1,
{
    let seconds = if ms < 0 {
        0
    } else {
        ms / 1000
    };
    if seconds < 60 {
        (0, if seconds < 1 {
            1
        } else {
            seconds
        })
    } else {
        (seconds / 60, seconds % 60)
    }
}

/// The hour and minute of a game minute of the day, shown as `"HH:MM"`.
pub fn clock_parts(game_minute: u16) -> (parts: (u16, u16))
    ensures
        parts.0 == game_minute / 60,
        parts.1 == game_minute % 60,
{
    (game_minute / 60, game_minute % 60)
}

/// A weight total as shown: `None` below a kilogram (shown in grams), else whole kilograms and
/// hundredths, the rest cut off.
pub fn weight_parts(weight_g: u64) -> (parts: Option<(u64, u64)>)
    ensures
        weight_g < 1000 ==> parts is None,
        weight_g >= 1000 ==> parts == Some((weight_g / 1000, (weight_g % 1000) / 10)),
{
    if weight_g < 1000 {
        None
    } else {
        Some((weight_g / 1000, (weight_g % 1000) / 10))
    }
}

} // verus!
