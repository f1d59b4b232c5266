//! Gameplay refusals and how each one is explained to players.

use vstd::prelude::*;

verus! {

/// Why a gameplay action was refused.
#[derive(Clone, Copy, Debug, PartialEq, Eq, Structural)]
pub enum GameError {
    CharacterMissing,
    NoBait,
    EncounterActive,
    StaleEncounter,
    WrongPlayer,
    NotEnoughCoins,
    NothingToSell,
    UnknownLocation,
    LocationLocked,
    NotFishable,
    UnknownRod,
    RodNotOwned,
    RodAlreadyOwned,
    BaitStillAvailable,
    UnknownObjective,
    ObjectiveIncomplete,
    ObjectiveClaimed,
    ContractNotReady,
    ContractClaimed,
    NoNpcHere,
    BaitNotForSale,
    UnknownRecipe,
    RecipeNotReady,
    UnknownTitle,
    TitleLocked,
    GroupEventExpired,
    GroupEventClaimed,
}

impl GameError {
    pub open spec fn description_spec(self) -> Seq<char> {
        match self {
            GameError::CharacterMissing => "character does not exist"@,
            GameError::NoBait => "no bait remaining"@,
            GameError::EncounterActive => "a fishing encounter is already active"@,
            GameError::StaleEncounter => "fishing encounter is no longer active"@,
            GameError::WrongPlayer => "callback belongs to a different player"@,
            GameError::NotEnoughCoins => "not enough coins"@,
            GameError::NothingToSell => "there is nothing to sell"@,
            GameError::UnknownLocation => "unknown location"@,
            GameError::LocationLocked => "that location has not been discovered"@,
            GameError::NotFishable => "there is nowhere to fish here"@,
            GameError::UnknownRod => "unknown rod"@,
            GameError::RodNotOwned => "you do not own that rod"@,
            GameError::RodAlreadyOwned => "you already own that rod"@,
            GameError::BaitStillAvailable => "you still have usable bait"@,
            GameError::UnknownObjective => "unknown objective"@,
            GameError::ObjectiveIncomplete => "that objective is not complete yet"@,
            GameError::ObjectiveClaimed => "that objective reward was already claimed"@,
            GameError::ContractNotReady => "the current harbor contract is not ready to turn in"@,
            GameError::ContractClaimed => "the current harbor contract has already been completed"@,
            GameError::NoNpcHere => "there is nobody to talk to here"@,
            GameError::BaitNotForSale => "that bait is not sold by this shop"@,
            GameError::UnknownRecipe => "unknown crafting recipe"@,
            GameError::RecipeNotReady => "you do not have the required specimen"@,
            GameError::UnknownTitle => "unknown title"@,
            GameError::TitleLocked => "that title is still locked"@,
            GameError::GroupEventExpired => "that group shoal has already moved on"@,
            GameError::GroupEventClaimed => "you already joined this group shoal"@,
        }
    }

    /// The short technical description of the refusal.
    pub fn description(self) -> (text: &'static str)
        ensures
            text@ == self.description_spec(),
    {
        match self {
            GameError::CharacterMissing => "character does not exist",
            GameError::NoBait => "no bait remaining",
            GameError::EncounterActive => "a fishing encounter is already active",
            GameError::StaleEncounter => "fishing encounter is no longer active",
            GameError::WrongPlayer => "callback belongs to a different player",
            GameError::NotEnoughCoins => "not enough coins",
            GameError::NothingToSell => "there is nothing to sell",
            GameError::UnknownLocation => "unknown location",
            GameError::LocationLocked => "that location has not been discovered",
            GameError::NotFishable => "there is nowhere to fish here",
            GameError::UnknownRod => "unknown rod",
            GameError::RodNotOwned => "you do not own that rod",
            GameError::RodAlreadyOwned => "you already own that rod",
            GameError::BaitStillAvailable => "you still have usable bait",
            GameError::UnknownObjective => "unknown objective",
            GameError::ObjectiveIncomplete => "that objective is not complete yet",
            GameError::ObjectiveClaimed => "that objective reward was already claimed",
            GameError::ContractNotReady => "the current harbor contract is not ready to turn in",
            GameError::ContractClaimed => "the current harbor contract has already been completed",
            GameError::NoNpcHere => "there is nobody to talk to here",
            GameError::BaitNotForSale => "that bait is not sold by this shop",
            GameError::UnknownRecipe => "unknown crafting recipe",
            GameError::RecipeNotReady => "you do not have the required specimen",
            GameError::UnknownTitle => "unknown title",
            GameError::TitleLocked => "that title is still locked",
            GameError::GroupEventExpired => "that group shoal has already moved on",
            GameError::GroupEventClaimed => "you already joined this group shoal",
        }
    }

    pub open spec fn player_text_spec(self) -> Seq<char> {
        match self {
            GameError::CharacterMissing => "Use /start first."@,
            GameError::NoBait => "You're out of usable bait. Open the shop or select another bait from your inventory."@,
            GameError::EncounterActive => "You already have a line in the water. Return to that encounter or cut the active line from Home."@,
            GameError::StaleEncounter => "That opportunity has already passed."@,
            GameError::WrongPlayer => "That fishing interaction belongs to somebody else."@,
            GameError::NotEnoughCoins => "You don't have enough coins. Sell stored catches from Inventory, or choose a cheaper bait."@,
            GameError::NothingToSell => "You don't have any stored catches to sell."@,
            GameError::UnknownLocation => "That location isn’t available right now. Open Locations and choose another place."@,
            GameError::LocationLocked => "You haven't discovered that location yet. Explore the places you already know."@,
            GameError::NotFishable => "There is nowhere to cast here. Explore the location instead."@,
            GameError::UnknownRod => "That rod isn’t available right now. Open Inventory and choose another rod."@,
            GameError::RodNotOwned => "You don't own that rod."@,
            GameError::RodAlreadyOwned => "You already own that rod. Equip it from Inventory."@,
            GameError::BaitStillAvailable => "You still have usable bait. Select it from Inventory before digging for emergency worms."@,
            GameError::UnknownObjective => "That Harbor Board milestone isn’t available anymore. Reopen the Board."@,
            GameError::ObjectiveIncomplete => "That milestone is not complete yet."@,
            GameError::ObjectiveClaimed => "You already claimed that milestone reward."@,
            GameError::ContractNotReady => "You do not have a stored specimen matching the current harbor contract."@,
            GameError::ContractClaimed => "You already completed the current harbor contract."@,
            GameError::NoNpcHere => "There is nobody to talk to at this location. Mara is usually at Old Harbor."@,
            GameError::BaitNotForSale => "That bait is crafted rather than sold. Open Tackle preparation from Home or Inventory."@,
            GameError::UnknownRecipe => "That preparation isn’t available anymore. Reopen Tackle Preparation."@,
            GameError::RecipeNotReady => "You do not have the specimen required for that preparation."@,
            GameError::UnknownTitle => "That title isn’t available anymore. Reopen Titles."@,
            GameError::TitleLocked => "That title is still locked. Its requirement is shown on the Titles panel."@,
            GameError::GroupEventExpired => "That shared shoal has already moved on. Use /fish to see the current one."@,
            GameError::GroupEventClaimed => "You already joined this chat's current shoal."@,
        }
    }

    /// Only the refusals that a shop visit can fix offer the shop recovery buttons.
    pub open spec fn offers_shop_recovery(self) -> bool {
        self == GameError::NoBait || self == GameError::NotEnoughCoins
    }

    /// The text shown to the player, and whether the panel offers shop recovery buttons.
    pub fn player_message(self) -> (message: (&'static str, bool))
        ensures
            message.0@ == self.player_text_spec(),
            message.1 == self.offers_shop_recovery(),
    {
        match self {
            GameError::CharacterMissing => ("Use /start first.", false),
            GameError::NoBait => ("You're out of usable bait. Open the shop or select another bait from your inventory.", true),
            GameError::EncounterActive => ("You already have a line in the water. Return to that encounter or cut the active line from Home.", false),
            GameError::StaleEncounter => ("That opportunity has already passed.", false),
            GameError::WrongPlayer => ("That fishing interaction belongs to somebody else.", false),
            GameError::NotEnoughCoins => ("You don't have enough coins. Sell stored catches from Inventory, or choose a cheaper bait.", true),
            GameError::NothingToSell => ("You don't have any stored catches to sell.", false),
            GameError::UnknownLocation => ("That location isn’t available right now. Open Locations and choose another place.", false),
            GameError::LocationLocked => ("You haven't discovered that location yet. Explore the places you already know.", false),
            GameError::NotFishable => ("There is nowhere to cast here. Explore the location instead.", false),
            GameError::UnknownRod => ("That rod isn’t available right now. Open Inventory and choose another rod.", false),
            GameError::RodNotOwned => ("You don't own that rod.", false),
            GameError::RodAlreadyOwned => ("You already own that rod. Equip it from Inventory.", false),
            GameError::BaitStillAvailable => ("You still have usable bait. Select it from Inventory before digging for emergency worms.", false),
            GameError::UnknownObjective => ("That Harbor Board milestone isn’t available anymore. Reopen the Board.", false),
            GameError::ObjectiveIncomplete => ("That milestone is not complete yet.", false),
            GameError::ObjectiveClaimed => ("You already claimed that milestone reward.", false),
            GameError::ContractNotReady => ("You do not have a stored specimen matching the current harbor contract.", false),
            GameError::ContractClaimed => ("You already completed the current harbor contract.", false),
            GameError::NoNpcHere => ("There is nobody to talk to at this location. Mara is usually at Old Harbor.", false),
            GameError::BaitNotForSale => ("That bait is crafted rather than sold. Open Tackle preparation from Home or Inventory.", false),
            GameError::UnknownRecipe => ("That preparation isn’t available anymore. Reopen Tackle Preparation.", false),
            GameError::RecipeNotReady => ("You do not have the specimen required for that preparation.", false),
            GameError::UnknownTitle => ("That title isn’t available anymore. Reopen Titles.", false),
            GameError::TitleLocked => ("That title is still locked. Its requirement is shown on the Titles panel.", false),
            GameError::GroupEventExpired => ("That shared shoal has already moved on. Use /fish to see the current one.", false),
            GameError::GroupEventClaimed => ("You already joined this chat's current shoal.", false),
        }
    }
}

} // verus!
