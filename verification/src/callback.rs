//! Stable binary payloads stored in Telegram buttons.
//!
//! Messages can outlive a bot process, so version/kind bytes are a wire protocol: append new kinds,
//! but never silently renumber existing ones. Unknown versions decode to `None`.

use vstd::prelude::*;
use vstd::bytes::{
    lemma_auto_spec_u32_to_from_le_bytes, lemma_auto_spec_u64_to_from_le_bytes, spec_u32_from_le_bytes,
    spec_u32_to_le_bytes, spec_u64_from_le_bytes, spec_u64_to_le_bytes, u32_from_le_bytes,
    u32_to_le_bytes, u64_from_le_bytes, u64_to_le_bytes,
};
use vstd::slice::slice_subrange;
use crate::ids::{BaitId, EncounterId, LocationId, RodId};

verus! {

pub const VERSION: u8 = 1;
pub const CAST: u8 = 1;
pub const REEL: u8 = 2;
pub const HOME: u8 = 3;
pub const INVENTORY: u8 = 4;
pub const JOURNAL: u8 = 5;
pub const LOCATIONS: u8 = 6;
pub const SHOP: u8 = 7;
pub const HELP: u8 = 8;
pub const BUY_BAIT: u8 = 9;
pub const SELECT_BAIT: u8 = 10;
pub const SELL_ALL: u8 = 11;
pub const TRAVEL: u8 = 12;
pub const CANCEL_FISHING: u8 = 13;
pub const FORAGE_BAIT: u8 = 14;
pub const EXPLORE: u8 = 15;
pub const BUY_ROD: u8 = 16;
pub const EQUIP_ROD: u8 = 17;
pub const PULL: u8 = 18;
pub const GIVE_LINE: u8 = 19;
pub const TASKS: u8 = 20;
pub const CLAIM_OBJECTIVE: u8 = 21;
pub const TURN_IN_CONTRACT: u8 = 22;
pub const TALK: u8 = 23;
pub const CONDITIONS: u8 = 24;
pub const REPAIR_RODS: u8 = 25;
pub const RECORDS: u8 = 26;
pub const TITLES: u8 = 27;
pub const EQUIP_TITLE: u8 = 28;
pub const CRAFTING: u8 = 29;
pub const CRAFT: u8 = 30;
pub const GROUP_CAST: u8 = 31;
pub const GROUP_JOURNAL: u8 = 32;
pub const GROUP_RECORDS: u8 = 33;
pub const GROUP_HELP: u8 = 34;

#[derive(Clone, Copy, Debug, PartialEq, Eq, Structural)]
pub enum Callback {
    Cast,
    Reel { encounter_id: EncounterId, step: u32 },
    Home,
    Inventory,
    Journal,
    Locations,
    Shop,
    Help,
    BuyBait { bait_id: BaitId },
    SelectBait { bait_id: BaitId },
    SellAll,
    Travel { location_id: LocationId },
    CancelFishing,
    ForageBait,
    Explore,
    BuyRod { rod_id: RodId },
    EquipRod { rod_id: RodId },
    Pull { encounter_id: EncounterId, step: u32 },
    GiveLine { encounter_id: EncounterId, step: u32 },
    Tasks,
    ClaimObjective { objective_id: u32 },
    TurnInContract,
    Talk,
    Conditions,
    RepairRods,
    Records,
    Titles,
    EquipTitle { title_id: u32 },
    Crafting,
    Craft { recipe_id: u32 },
    GroupCast { cycle: i64 },
    GroupJournal,
    GroupRecords,
    GroupHelp,
}

/// The kind byte of a callback.
pub open spec fn kind_spec(callback: Callback) -> u8 {
    match callback {
        Callback::Cast => CAST,
        Callback::Reel { .. } => REEL,
        Callback::Home => HOME,
        Callback::Inventory => INVENTORY,
        Callback::Journal => JOURNAL,
        Callback::Locations => LOCATIONS,
        Callback::Shop => SHOP,
        Callback::Help => HELP,
        Callback::BuyBait { .. } => BUY_BAIT,
        Callback::SelectBait { .. } => SELECT_BAIT,
        Callback::SellAll => SELL_ALL,
        Callback::Travel { .. } => TRAVEL,
        Callback::CancelFishing => CANCEL_FISHING,
        Callback::ForageBait => FORAGE_BAIT,
        Callback::Explore => EXPLORE,
        Callback::BuyRod { .. } => BUY_ROD,
        Callback::EquipRod { .. } => EQUIP_ROD,
        Callback::Pull { .. } => PULL,
        Callback::GiveLine { .. } => GIVE_LINE,
        Callback::Tasks => TASKS,
        Callback::ClaimObjective { .. } => CLAIM_OBJECTIVE,
        Callback::TurnInContract => TURN_IN_CONTRACT,
        Callback::Talk => TALK,
        Callback::Conditions => CONDITIONS,
        Callback::RepairRods => REPAIR_RODS,
        Callback::Records => RECORDS,
        Callback::Titles => TITLES,
        Callback::EquipTitle { .. } => EQUIP_TITLE,
        Callback::Crafting => CRAFTING,
        Callback::Craft { .. } => CRAFT,
        Callback::GroupCast { .. } => GROUP_CAST,
        Callback::GroupJournal => GROUP_JOURNAL,
        Callback::GroupRecords => GROUP_RECORDS,
        Callback::GroupHelp => GROUP_HELP,
    }
}

/// The little-endian encoding of an `i64`, as its two's-complement bits.
pub open spec fn i64_le(value: i64) -> Seq<u8> {
    spec_u64_to_le_bytes(value as u64)
}

/// The bytes after the version and kind.
pub open spec fn payload_spec(callback: Callback) -> Seq<u8> {
    match callback {
        Callback::Reel { encounter_id, step } => i64_le(encounter_id.0) + spec_u32_to_le_bytes(step),
        Callback::BuyBait { bait_id } => spec_u32_to_le_bytes(bait_id.0),
        Callback::SelectBait { bait_id } => spec_u32_to_le_bytes(bait_id.0),
        Callback::Travel { location_id } => spec_u32_to_le_bytes(location_id.0),
        Callback::BuyRod { rod_id } => spec_u32_to_le_bytes(rod_id.0),
        Callback::EquipRod { rod_id } => spec_u32_to_le_bytes(rod_id.0),
        Callback::Pull { encounter_id, step } => i64_le(encounter_id.0) + spec_u32_to_le_bytes(step),
        Callback::GiveLine { encounter_id, step } => i64_le(encounter_id.0) + spec_u32_to_le_bytes(step),
        Callback::ClaimObjective { objective_id } => spec_u32_to_le_bytes(objective_id),
        Callback::EquipTitle { title_id } => spec_u32_to_le_bytes(title_id),
        Callback::Craft { recipe_id } => spec_u32_to_le_bytes(recipe_id),
        Callback::GroupCast { cycle } => i64_le(cycle),
        _ => Seq::empty(),
    }
}

/// The wire form of a callback: version byte, kind byte, then the payload.
pub open spec fn encode_spec(callback: Callback) -> Seq<u8> {
    seq![VERSION, kind_spec(callback)] + payload_spec(callback)
}

/// The callback of a kind that carries no payload.
pub open spec fn unit_callback_spec(kind: u8) -> Option<Callback> {
    if kind == CAST {
        Some(Callback::Cast)
    } else if kind == HOME {
        Some(Callback::Home)
    } else if kind == INVENTORY {
        Some(Callback::Inventory)
    } else if kind == JOURNAL {
        Some(Callback::Journal)
    } else if kind == LOCATIONS {
        Some(Callback::Locations)
    } else if kind == SHOP {
        Some(Callback::Shop)
    } else if kind == HELP {
        Some(Callback::Help)
    } else if kind == SELL_ALL {
        Some(Callback::SellAll)
    } else if kind == CANCEL_FISHING {
        Some(Callback::CancelFishing)
    } else if kind == FORAGE_BAIT {
        Some(Callback::ForageBait)
    } else if kind == EXPLORE {
        Some(Callback::Explore)
    } else if kind == TASKS {
        Some(Callback::Tasks)
    } else if kind == TURN_IN_CONTRACT {
        Some(Callback::TurnInContract)
    } else if kind == TALK {
        Some(Callback::Talk)
    } else if kind == CONDITIONS {
        Some(Callback::Conditions)
    } else if kind == REPAIR_RODS {
        Some(Callback::RepairRods)
    } else if kind == RECORDS {
        Some(Callback::Records)
    } else if kind == TITLES {
        Some(Callback::Titles)
    } else if kind == CRAFTING {
        Some(Callback::Crafting)
    } else if kind == GROUP_JOURNAL {
        Some(Callback::GroupJournal)
    } else if kind == GROUP_RECORDS {
        Some(Callback::GroupRecords)
    } else if kind == GROUP_HELP {
        Some(Callback::GroupHelp)
    } else {
        None
    }
}

/// The callback of a kind that carries one 32-bit value.
pub open spec fn u32_callback_spec(kind: u8, value: u32) -> Option<Callback> {
    if kind == BUY_BAIT {
        Some(Callback::BuyBait { bait_id: BaitId(value) })
    } else if kind == SELECT_BAIT {
        Some(Callback::SelectBait { bait_id: BaitId(value) })
    } else if kind == TRAVEL {
        Some(Callback::Travel { location_id: LocationId(value) })
    } else if kind == BUY_ROD {
        Some(Callback::BuyRod { rod_id: RodId(value) })
    } else if kind == EQUIP_ROD {
        Some(Callback::EquipRod { rod_id: RodId(value) })
    } else if kind == CLAIM_OBJECTIVE {
        Some(Callback::ClaimObjective { objective_id: value })
    } else if kind == EQUIP_TITLE {
        Some(Callback::EquipTitle { title_id: value })
    } else if kind == CRAFT {
        Some(Callback::Craft { recipe_id: value })
    } else {
        None
    }
}

/// The callback of a kind that names an encounter step.
pub open spec fn encounter_callback_spec(kind: u8, encounter_id: EncounterId, step: u32) -> Option<Callback> {
    if kind == REEL {
        Some(Callback::Reel { encounter_id, step })
    } else if kind == PULL {
        Some(Callback::Pull { encounter_id, step })
    } else if kind == GIVE_LINE {
        Some(Callback::GiveLine { encounter_id, step })
    } else {
        None
    }
}

/// What a button payload decodes to; anything but a well-formed current-version payload is `None`.
pub open spec fn decode_spec(bytes: Seq<u8>) -> Option<Callback> {
    if bytes.len() < 2 || bytes[0] != VERSION {
        None
    } else {
        let kind = bytes[1];
        let rest = bytes.subrange(2, bytes.len() as int);
        if rest.len() == 0 {
            unit_callback_spec(kind)
        } else if rest.len() == 4 {
            u32_callback_spec(kind, spec_u32_from_le_bytes(rest))
        } else if rest.len() == 8 {
            if kind == GROUP_CAST {
                Some(Callback::GroupCast { cycle: spec_u64_from_le_bytes(rest) as i64 })
            } else {
                None
            }
        } else if rest.len() == 12 {
            encounter_callback_spec(
                kind,
                EncounterId(spec_u64_from_le_bytes(rest.subrange(0, 8)) as i64),
                spec_u32_from_le_bytes(rest.subrange(8, 12)),
            )
        } else {
            None
        }
    }
}

fn unit_callback(kind: u8) -> (callback: Option<Callback>)
    ensures
        callback == unit_callback_spec(kind),
{
    if kind == CAST {
        Some(Callback::Cast)
    } else if kind == HOME {
        Some(Callback::Home)
    } else if kind == INVENTORY {
        Some(Callback::Inventory)
    } else if kind == JOURNAL {
        Some(Callback::Journal)
    } else if kind == LOCATIONS {
        Some(Callback::Locations)
    } else if kind == SHOP {
        Some(Callback::Shop)
    } else if kind == HELP {
        Some(Callback::Help)
    } else if kind == SELL_ALL {
        Some(Callback::SellAll)
    } else if kind == CANCEL_FISHING {
        Some(Callback::CancelFishing)
    } else if kind == FORAGE_BAIT {
        Some(Callback::ForageBait)
    } else if kind == EXPLORE {
        Some(Callback::Explore)
    } else if kind == TASKS {
        Some(Callback::Tasks)
    } else if kind == TURN_IN_CONTRACT {
        Some(Callback::TurnInContract)
    } else if kind == TALK {
        Some(Callback::Talk)
    } else if kind == CONDITIONS {
        Some(Callback::Conditions)
    } else if kind == REPAIR_RODS {
        Some(Callback::RepairRods)
    } else if kind == RECORDS {
        Some(Callback::Records)
    } else if kind == TITLES {
        Some(Callback::Titles)
    } else if kind == CRAFTING {
        Some(Callback::Crafting)
    } else if kind == GROUP_JOURNAL {
        Some(Callback::GroupJournal)
    } else if kind == GROUP_RECORDS {
        Some(Callback::GroupRecords)
    } else if kind == GROUP_HELP {
        Some(Callback::GroupHelp)
    } else {
        None
    }
}

fn u32_callback(kind: u8, value: u32) -> (callback: Option<Callback>)
    ensures
        callback == u32_callback_spec(kind, value),
{
    if kind == BUY_BAIT {
        Some(Callback::BuyBait { bait_id: BaitId(value) })
    } else if kind == SELECT_BAIT {
        Some(Callback::SelectBait { bait_id: BaitId(value) })
    } else if kind == TRAVEL {
        Some(Callback::Travel { location_id: LocationId(value) })
    } else if kind == BUY_ROD {
        Some(Callback::BuyRod { rod_id: RodId(value) })
    } else if kind == EQUIP_ROD {
        Some(Callback::EquipRod { rod_id: RodId(value) })
    } else if kind == CLAIM_OBJECTIVE {
        Some(Callback::ClaimObjective { objective_id: value })
    } else if kind == EQUIP_TITLE {
        Some(Callback::EquipTitle { title_id: value })
    } else if kind == CRAFT {
        Some(Callback::Craft { recipe_id: value })
    } else {
        None
    }
}

fn encounter_callback(kind: u8, encounter_id: EncounterId, step: u32) -> (callback: Option<Callback>)
    ensures
        callback == encounter_callback_spec(kind, encounter_id, step),
{
    if kind == REEL {
        Some(Callback::Reel { encounter_id, step })
    } else if kind == PULL {
        Some(Callback::Pull { encounter_id, step })
    } else if kind == GIVE_LINE {
        Some(Callback::GiveLine { encounter_id, step })
    } else {
        None
    }
}

fn encode_unit(kind: u8) -> (bytes: Vec<u8>)
    ensures
        bytes@ == seq![VERSION, kind],
{
    let bytes = vec![VERSION, kind];
    assert(bytes@ == seq![VERSION, kind]);
    bytes
}

fn encode_u32(kind: u8, value: u32) -> (bytes: Vec<u8>)
    ensures
        bytes@ == seq![VERSION, kind] + spec_u32_to_le_bytes(value),
{
    let mut bytes = encode_unit(kind);
    let mut tail = u32_to_le_bytes(value);
    bytes.append(&mut tail);
    bytes
}

fn encode_i64(kind: u8, value: i64) -> (bytes: Vec<u8>)
    ensures
        bytes@ == seq![VERSION, kind] + i64_le(value),
{
    let mut bytes = encode_unit(kind);
    let mut tail = u64_to_le_bytes(value as u64);
    bytes.append(&mut tail);
    bytes
}

fn encode_encounter(kind: u8, encounter_id: EncounterId, step: u32) -> (bytes: Vec<u8>)
    ensures
        bytes@ == seq![VERSION, kind] + (i64_le(encounter_id.0) + spec_u32_to_le_bytes(step)),
{
    let mut bytes = encode_i64(kind, encounter_id.0);
    let mut tail = u32_to_le_bytes(step);
    bytes.append(&mut tail);
    assert(bytes@ == seq![VERSION, kind] + (i64_le(encounter_id.0) + spec_u32_to_le_bytes(step)));
    bytes
}

fn decode_u32(bytes: &[u8]) -> (value: u32)
    requires
        bytes@.len() == 4,
    ensures
        value == spec_u32_from_le_bytes(bytes@),
{
    u32_from_le_bytes(bytes)
}

fn decode_i64(bytes: &[u8]) -> (value: i64)
    requires
        bytes@.len() == 8,
    ensures
        value == spec_u64_from_le_bytes(bytes@) as i64,
{
    u64_from_le_bytes(bytes) as i64
}

impl Callback {
    pub fn encode(self) -> (bytes: Vec<u8>)
        ensures
            bytes@ == encode_spec(self),
    {
        match self {
            Callback::Cast => encode_unit(CAST),
            Callback::Reel { encounter_id, step } => encode_encounter(REEL, encounter_id, step),
            Callback::Home => encode_unit(HOME),
            Callback::Inventory => encode_unit(INVENTORY),
            Callback::Journal => encode_unit(JOURNAL),
            Callback::Locations => encode_unit(LOCATIONS),
            Callback::Shop => encode_unit(SHOP),
            Callback::Help => encode_unit(HELP),
            Callback::BuyBait { bait_id } => encode_u32(BUY_BAIT, bait_id.0),
            Callback::SelectBait { bait_id } => encode_u32(SELECT_BAIT, bait_id.0),
            Callback::SellAll => encode_unit(SELL_ALL),
            Callback::Travel { location_id } => encode_u32(TRAVEL, location_id.0),
            Callback::CancelFishing => encode_unit(CANCEL_FISHING),
            Callback::ForageBait => encode_unit(FORAGE_BAIT),
            Callback::Explore => encode_unit(EXPLORE),
            Callback::BuyRod { rod_id } => encode_u32(BUY_ROD, rod_id.0),
            Callback::EquipRod { rod_id } => encode_u32(EQUIP_ROD, rod_id.0),
            Callback::Pull { encounter_id, step } => encode_encounter(PULL, encounter_id, step),
            Callback::GiveLine { encounter_id, step } => encode_encounter(GIVE_LINE, encounter_id, step),
            Callback::Tasks => encode_unit(TASKS),
            Callback::ClaimObjective { objective_id } => encode_u32(CLAIM_OBJECTIVE, objective_id),
            Callback::TurnInContract => encode_unit(TURN_IN_CONTRACT),
            Callback::Talk => encode_unit(TALK),
            Callback::Conditions => encode_unit(CONDITIONS),
            Callback::RepairRods => encode_unit(REPAIR_RODS),
            Callback::Records => encode_unit(RECORDS),
            Callback::Titles => encode_unit(TITLES),
            Callback::EquipTitle { title_id } => encode_u32(EQUIP_TITLE, title_id),
            Callback::Crafting => encode_unit(CRAFTING),
            Callback::Craft { recipe_id } => encode_u32(CRAFT, recipe_id),
            Callback::GroupCast { cycle } => encode_i64(GROUP_CAST, cycle),
            Callback::GroupJournal => encode_unit(GROUP_JOURNAL),
            Callback::GroupRecords => encode_unit(GROUP_RECORDS),
            Callback::GroupHelp => encode_unit(GROUP_HELP),
        }
    }

    pub fn decode(bytes: &[u8]) -> (callback: Option<Callback>)
        ensures
            callback == decode_spec(bytes@),
    {
        if bytes.len() < 2 || bytes[0] != VERSION {
            return None;
        }
        let kind = bytes[1];
        let len = bytes.len();
        let rest = slice_subrange(bytes, 2, len);
        assert(rest@ == bytes@.subrange(2, bytes@.len() as int));
        if len == 2 {
            unit_callback(kind)
        } else if len == 6 {
            u32_callback(kind, decode_u32(rest))
        } else if len == 10 {
            if kind == GROUP_CAST {
                Some(Callback::GroupCast { cycle: decode_i64(rest) })
            } else {
                None
            }
        } else if len == 14 {
            let encounter = decode_i64(slice_subrange(rest, 0, 8));
            let step = decode_u32(slice_subrange(rest, 8, 12));
            encounter_callback(kind, EncounterId(encounter), step)
        } else {
            None
        }
    }
}

/// Every callback decodes back from its own encoding.
pub proof fn lemma_decode_encode(callback: Callback)
    ensures
        decode_spec(encode_spec(callback)) == Some(callback),
{
    lemma_auto_spec_u32_to_from_le_bytes();
    lemma_auto_spec_u64_to_from_le_bytes();
    let bytes = encode_spec(callback);
    let rest = bytes.subrange(2, bytes.len() as int);
    assert(rest == payload_spec(callback));
    match callback {
        Callback::GroupCast { cycle } => {
            assert(((cycle as u64) as i64) == cycle) by (bit_vector);
        },
        Callback::Reel { encounter_id, step } => {
            let id = encounter_id.0;
            assert(((id as u64) as i64) == id) by (bit_vector);
            assert(rest.subrange(0, 8) == i64_le(id));
            assert(rest.subrange(8, 12) == spec_u32_to_le_bytes(step));
        },
        Callback::Pull { encounter_id, step } => {
            let id = encounter_id.0;
            assert(((id as u64) as i64) == id) by (bit_vector);
            assert(rest.subrange(0, 8) == i64_le(id));
            assert(rest.subrange(8, 12) == spec_u32_to_le_bytes(step));
        },
        Callback::GiveLine { encounter_id, step } => {
            let id = encounter_id.0;
            assert(((id as u64) as i64) == id) by (bit_vector);
            assert(rest.subrange(0, 8) == i64_le(id));
            assert(rest.subrange(8, 12) == spec_u32_to_le_bytes(step));
        },
        _ => {},
    }
}

/// Only encodings decode: a payload that decodes is exactly the encoding of its callback.
pub proof fn lemma_encode_decode(bytes: Seq<u8>)
    ensures
        decode_spec(bytes) matches Some(callback) ==> encode_spec(callback) == bytes,
{
    lemma_auto_spec_u32_to_from_le_bytes();
    lemma_auto_spec_u64_to_from_le_bytes();
    if let Some(callback) = decode_spec(bytes) {
        let rest = bytes.subrange(2, bytes.len() as int);
        assert(bytes == seq![VERSION, bytes[1]] + rest);
        assert(kind_spec(callback) == bytes[1]);
        if rest.len() == 8 {
            let raw = spec_u64_from_le_bytes(rest);
            assert(((raw as i64) as u64) == raw) by (bit_vector);
        } else if rest.len() == 12 {
            let raw = spec_u64_from_le_bytes(rest.subrange(0, 8));
            assert(((raw as i64) as u64) == raw) by (bit_vector);
            assert(rest == rest.subrange(0, 8) + rest.subrange(8, 12));
        }
    }
}

/// The part of the game that handles a button press.
#[derive(Clone, Copy, Debug, PartialEq, Eq, Structural)]
pub enum CallbackRoute {
    /// Casting, reeling, fighting and cutting the line.
    Fishing,
    /// Buying, selling, equipping, repairing and crafting.
    Economy,
    /// Milestones, contracts and titles.
    Progression,
    /// Group shoal buttons. These answer the press themselves, since their reply may fall back
    /// to a toast; every other press is acknowledged before it is handled.
    Group,
    /// Panels and travel.
    Panel,
}

/// The route of each button.
pub open spec fn route_spec(callback: Callback) -> CallbackRoute {
    match callback {
        Callback::Cast | Callback::Reel { .. } | Callback::CancelFishing | Callback::Pull { .. }
        | Callback::GiveLine { .. } => CallbackRoute::Fishing,
        Callback::BuyBait { .. } | Callback::SelectBait { .. } | Callback::SellAll
        | Callback::ForageBait | Callback::BuyRod { .. } | Callback::EquipRod { .. }
        | Callback::RepairRods | Callback::Craft { .. } => CallbackRoute::Economy,
        Callback::ClaimObjective { .. } | Callback::TurnInContract | Callback::EquipTitle {
            ..
        } => CallbackRoute::Progression,
        Callback::GroupCast { .. } | Callback::GroupJournal | Callback::GroupRecords
        | Callback::GroupHelp => CallbackRoute::Group,
        _ => CallbackRoute::Panel,
    }
}

/// The part of the game that handles `callback`.
pub fn route(callback: &Callback) -> (r: CallbackRoute)
    ensures
        r == route_spec(*callback),
{
    match callback {
        Callback::Cast | Callback::Reel { .. } | Callback::CancelFishing | Callback::Pull { .. }
        | Callback::GiveLine { .. } => CallbackRoute::Fishing,
        Callback::BuyBait { .. } | Callback::SelectBait { .. } | Callback::SellAll
        | Callback::ForageBait | Callback::BuyRod { .. } | Callback::EquipRod { .. }
        | Callback::RepairRods | Callback::Craft { .. } => CallbackRoute::Economy,
        Callback::ClaimObjective { .. } | Callback::TurnInContract | Callback::EquipTitle {
            ..
        } => CallbackRoute::Progression,
        Callback::GroupCast { .. } | Callback::GroupJournal | Callback::GroupRecords
        | Callback::GroupHelp => CallbackRoute::Group,
        _ => CallbackRoute::Panel,
    }
}

} // verus!
