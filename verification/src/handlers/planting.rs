//! Planting: seeds on planting spots, pinwheels and fairies on plants, and
//! fruit picking.
//!
//! A basic seed (item 9) grows for 240 minutes per stage and a blue seed
//! (item 24) for 360; a pinwheel shortens that to 80 % (blue, 11), 65 %
//! (red, 12) or 50 % (glow, 13). A plant takes at most five fairies.

use vstd::prelude::*;

use crate::db::runtime_state::PlantState;
use crate::handlers::items::{get_item_message, write_get_item};
use crate::handlers::shop::{first_empty_from, first_empty_slot};
use crate::protocol::{le16, MessageWriter};

verus! {

/// Pinwheel added to a plant (server broadcast).
pub const MSG_PLANT_ADD_PINWHEEL: u16 = 68;

/// Fairy added to a plant (server broadcast).
pub const MSG_PLANT_ADD_FAIRY: u16 = 69;

/// Fruit taken from a plant (server broadcast).
pub const MSG_PLANT_TAKE_FRUIT: u16 = 71;

/// The basic seed.
pub const SEED_BASIC: u16 = 9;

/// The blue seed.
pub const SEED_BLUE: u16 = 24;

/// The fairy item.
pub const FAIRY_ID: u16 = 10;

/// Fairies a plant can hold.
pub const MAX_FAIRIES: u8 = 5;

/// Minutes per growth stage: 240 for a basic seed (and anything unknown),
/// 360 for a blue seed, times 80/65/50 % for pinwheel 11/12/13.
pub open spec fn growth_minutes(seed_id: u16, pinwheel: u8) -> u32 {
    let base: int = if seed_id == SEED_BLUE { 360 } else { 240 };
    let percent: int = if pinwheel == 11 {
        80
    } else if pinwheel == 12 {
        65
    } else if pinwheel == 13 {
        50
    } else {
        100
    };
    (base * percent / 100) as u32
}

/// The growth time of a plant stage, in minutes (fairies do not change it).
pub fn get_growth_time(seed_id: u16, fairies: u8, pinwheel: u8) -> (r: u32)
    ensures
        r == growth_minutes(seed_id, pinwheel),
{
    let base: u32 = if seed_id == SEED_BLUE { 360 } else { 240 };
    let percent: u32 = match pinwheel {
        11 => 80,
        12 => 65,
        13 => 50,
        _ => 100,
    };
    base * percent / 100
}

/// The fruit in slot `slot` (1 to 3) of a plant grown from `seed_id`: a
/// basic seed gives basic seeds; a blue seed gives a blue seed in slot 2
/// and Juicy Bango (25) in the others. A plant with no seed counts as basic.
pub open spec fn fruit_of(seed_id: Option<i64>, slot: u8) -> u16 {
    let seed = match seed_id {
        Some(s) => s as u16,
        None => SEED_BASIC,
    };
    if seed == SEED_BLUE {
        if slot == 2 { 24 } else { 25 }
    } else {
        SEED_BASIC
    }
}

/// The fruit a plant bears in a slot.
pub fn get_fruit_for_plant(plant: &PlantState, slot: u8) -> (r: u16)
    ensures
        r == fruit_of(plant.seed_id, slot),
{
    let seed = match plant.seed_id {
        Some(s) => s as u16,
        None => SEED_BASIC,
    };
    if seed == SEED_BLUE {
        if slot == 2 { 24 } else { 25 }
    } else {
        SEED_BASIC
    }
}

/// The three fruits of a plant.
pub fn get_all_fruits_for_plant(plant: &PlantState) -> (r: (u16, u16, u16))
    ensures
        r == (fruit_of(plant.seed_id, 1), fruit_of(plant.seed_id, 2), fruit_of(plant.seed_id, 3)),
{
    (get_fruit_for_plant(plant, 1), get_fruit_for_plant(plant, 2), get_fruit_for_plant(plant, 3))
}

/// What a planting request comes to.
#[derive(Debug, Clone, PartialEq, Eq)]
pub enum PlantSetOutcome {
    /// Refused without an answer: bad slot, empty slot, or not a seed.
    Ignored,
    /// The spot is taken: the seed is handed back with this message.
    ReturnSeed { message: Vec<u8> },
    /// The seed leaves `slot` and grows for `growth_minutes`.
    Plant { slot: u8, seed_id: u16, growth_minutes: u32 },
}

/// The outcome of planting the item of `seed_slot` on a spot.
pub open spec fn plant_set_spec(r: PlantSetOutcome, seed_slot: u8, items: Seq<u16>, spot_occupied: bool) -> bool {
    if !(1 <= seed_slot <= 9) {
        r == PlantSetOutcome::Ignored
    } else {
        let id = items[seed_slot - 1];
        if id == 0 || (id != SEED_BASIC && id != SEED_BLUE) {
            r == PlantSetOutcome::Ignored
        } else if spot_occupied {
            r matches PlantSetOutcome::ReturnSeed { message } && message@ == get_item_message(seed_slot, id)
        } else {
            r == PlantSetOutcome::Plant { slot: seed_slot, seed_id: id, growth_minutes: growth_minutes(id, 0) }
        }
    }
}

/// Decides a planting request.
pub fn decide_plant_set(seed_slot: u8, items: &[u16; 9], spot_occupied: bool) -> (r: PlantSetOutcome)
    ensures
        plant_set_spec(r, seed_slot, items@, spot_occupied),
{
    if seed_slot < 1 || seed_slot > 9 {
        return PlantSetOutcome::Ignored;
    }
    let id = items[(seed_slot - 1) as usize];
    if id == 0 || (id != SEED_BASIC && id != SEED_BLUE) {
        return PlantSetOutcome::Ignored;
    }
    if spot_occupied {
        return PlantSetOutcome::ReturnSeed { message: write_get_item(seed_slot, id) };
    }
    PlantSetOutcome::Plant { slot: seed_slot, seed_id: id, growth_minutes: get_growth_time(id, 0, 0) }
}

/// What adding a pinwheel or a fairy comes to.
#[derive(Debug, Clone, Copy, PartialEq, Eq, Structural)]
pub enum PlantBoostOutcome {
    /// Refused: bad slot, wrong item, no plant, not the owner, or (fairies)
    /// the plant is full.
    Ignored,
    /// The item leaves `slot`; a pinwheel also resets the stage timer to
    /// `growth_minutes`.
    Added { slot: u8, item_id: u16, growth_minutes: u32 },
}

/// Whether `plant` belongs to `char_id`.
pub open spec fn owns(plant: Option<PlantState>, char_id: i64) -> bool {
    plant matches Some(p) && p.owner_id == Some(char_id)
}

/// The outcome of adding the item of `item_slot` as a pinwheel.
pub open spec fn add_pinwheel_outcome(item_slot: u8, items: Seq<u16>, plant: Option<PlantState>, char_id: i64) -> PlantBoostOutcome {
    if !(1 <= item_slot <= 9) {
        PlantBoostOutcome::Ignored
    } else {
        let id = items[item_slot - 1];
        if !(id == 11 || id == 12 || id == 13) || !owns(plant, char_id) {
            PlantBoostOutcome::Ignored
        } else {
            let p = plant->0;
            let seed = match p.seed_id {
                Some(s) => s as u16,
                None => SEED_BASIC,
            };
            PlantBoostOutcome::Added { slot: item_slot, item_id: id, growth_minutes: growth_minutes(seed, id as u8) }
        }
    }
}

fn owner_is(plant: Option<&PlantState>, char_id: i64) -> (r: bool)
    ensures
        r == owns(
            match plant {
                Some(p) => Some(*p),
                None => None,
            },
            char_id,
        ),
{
    match plant {
        Some(p) => match p.owner_id {
            Some(o) => o == char_id,
            None => false,
        },
        None => false,
    }
}

/// Decides adding a pinwheel to a plant.
pub fn decide_add_pinwheel(item_slot: u8, items: &[u16; 9], plant: Option<&PlantState>, char_id: i64) -> (r: PlantBoostOutcome)
    ensures
        r == add_pinwheel_outcome(
            item_slot,
            items@,
            match plant {
                Some(p) => Some(*p),
                None => None,
            },
            char_id,
        ),
{
    if item_slot < 1 || item_slot > 9 {
        return PlantBoostOutcome::Ignored;
    }
    let id = items[(item_slot - 1) as usize];
    if !(id == 11 || id == 12 || id == 13) || !owner_is(plant, char_id) {
        return PlantBoostOutcome::Ignored;
    }
    match plant {
        Some(p) => {
            let seed = match p.seed_id {
                Some(s) => s as u16,
                None => SEED_BASIC,
            };
            PlantBoostOutcome::Added {
                slot: item_slot,
                item_id: id,
                growth_minutes: get_growth_time(seed, p.fairy_count as u8, id as u8),
            }
        },
        None => PlantBoostOutcome::Ignored,
    }
}

/// The outcome of adding the item of `item_slot` as a fairy.
pub open spec fn add_fairy_outcome(item_slot: u8, items: Seq<u16>, plant: Option<PlantState>, char_id: i64) -> PlantBoostOutcome {
    if !(1 <= item_slot <= 9) {
        PlantBoostOutcome::Ignored
    } else {
        let id = items[item_slot - 1];
        if id != FAIRY_ID || !owns(plant, char_id) || plant->0.fairy_count >= MAX_FAIRIES {
            PlantBoostOutcome::Ignored
        } else {
            PlantBoostOutcome::Added { slot: item_slot, item_id: id, growth_minutes: 0 }
        }
    }
}

/// Decides adding a fairy to a plant (the stage timer is left alone; the
/// outcome's `growth_minutes` is 0).
pub fn decide_add_fairy(item_slot: u8, items: &[u16; 9], plant: Option<&PlantState>, char_id: i64) -> (r: PlantBoostOutcome)
    ensures
        r == add_fairy_outcome(
            item_slot,
            items@,
            match plant {
                Some(p) => Some(*p),
                None => None,
            },
            char_id,
        ),
{
    if item_slot < 1 || item_slot > 9 {
        return PlantBoostOutcome::Ignored;
    }
    let id = items[(item_slot - 1) as usize];
    if id != FAIRY_ID || !owner_is(plant, char_id) {
        return PlantBoostOutcome::Ignored;
    }
    match plant {
        Some(p) => {
            if p.fairy_count >= MAX_FAIRIES as i64 {
                PlantBoostOutcome::Ignored
            } else {
                PlantBoostOutcome::Added { slot: item_slot, item_id: id, growth_minutes: 0 }
            }
        },
        None => PlantBoostOutcome::Ignored,
    }
}

/// What picking a fruit comes to.
#[derive(Debug, Clone, Copy, PartialEq, Eq, Structural)]
pub enum FruitOutcome {
    /// Refused: bad fruit slot, full inventory, no plant, not the owner, or
    /// no fruit.
    Ignored,
    /// The fruit goes to item slot `slot` (1-based).
    Picked { slot: u8, fruit: u16 },
}

/// The outcome of picking fruit `fruit_slot` (1 to 3) of a plant into the
/// first empty item slot.
pub open spec fn take_fruit_outcome(fruit_slot: u8, items: Seq<u16>, plant: Option<PlantState>, char_id: i64) -> FruitOutcome {
    if !(1 <= fruit_slot <= 3) {
        FruitOutcome::Ignored
    } else {
        match first_empty_from(items.map_values(|v: u16| v as int), 0) {
            None => FruitOutcome::Ignored,
            Some(slot) => if !owns(plant, char_id) || plant->0.has_fruit == 0 {
                FruitOutcome::Ignored
            } else {
                let fruit = fruit_of(plant->0.seed_id, fruit_slot);
                if fruit == 0 {
                    FruitOutcome::Ignored
                } else {
                    FruitOutcome::Picked { slot, fruit }
                }
            },
        }
    }
}

/// Decides picking a fruit.
pub fn decide_take_fruit(fruit_slot: u8, items: &[u16; 9], plant: Option<&PlantState>, char_id: i64) -> (r: FruitOutcome)
    ensures
        r == take_fruit_outcome(
            fruit_slot,
            items@,
            match plant {
                Some(p) => Some(*p),
                None => None,
            },
            char_id,
        ),
{
    if fruit_slot < 1 || fruit_slot > 3 {
        return FruitOutcome::Ignored;
    }
    let slot = match first_empty_slot(*items) {
        Some(s) => s,
        None => return FruitOutcome::Ignored,
    };
    if !owner_is(plant, char_id) {
        return FruitOutcome::Ignored;
    }
    match plant {
        Some(p) => {
            if p.has_fruit == 0 {
                return FruitOutcome::Ignored;
            }
            let fruit = get_fruit_for_plant(p, fruit_slot);
            if fruit == 0 {
                FruitOutcome::Ignored
            } else {
                FruitOutcome::Picked { slot, fruit }
            }
        },
        None => FruitOutcome::Ignored,
    }
}

/// The broadcast of a pinwheel added to a spot (the pinwheel's low byte).
pub open spec fn add_pinwheel_message(spot: u8, item_id: u16) -> Seq<u8> {
    le16(MSG_PLANT_ADD_PINWHEEL) + seq![spot, item_id as u8]
}

/// Builds the broadcast of an added pinwheel.
pub fn build_add_pinwheel(spot: u8, item_id: u16) -> (r: Vec<u8>)
    ensures
        r@ == add_pinwheel_message(spot, item_id),
{
    let mut w = MessageWriter::new();
    w.write_u16(MSG_PLANT_ADD_PINWHEEL);
    w.write_u8(spot);
    w.write_u8(item_id as u8);
    let r = w.into_bytes();
    assert(r@ =~= add_pinwheel_message(spot, item_id));
    r
}

/// The broadcast of a fairy added to a spot.
pub open spec fn add_fairy_message(spot: u8) -> Seq<u8> {
    le16(MSG_PLANT_ADD_FAIRY) + seq![spot]
}

/// Builds the broadcast of an added fairy.
pub fn build_add_fairy(spot: u8) -> (r: Vec<u8>)
    ensures
        r@ == add_fairy_message(spot),
{
    let mut w = MessageWriter::new();
    w.write_u16(MSG_PLANT_ADD_FAIRY);
    w.write_u8(spot);
    let r = w.into_bytes();
    assert(r@ =~= add_fairy_message(spot));
    r
}

/// The broadcast of a fruit taken from a spot.
pub open spec fn take_fruit_message(spot: u8, fruit_slot: u8) -> Seq<u8> {
    le16(MSG_PLANT_TAKE_FRUIT) + seq![spot, fruit_slot]
}

/// Builds the broadcast of a taken fruit.
pub fn build_take_fruit(spot: u8, fruit_slot: u8) -> (r: Vec<u8>)
    ensures
        r@ == take_fruit_message(spot, fruit_slot),
{
    let mut w = MessageWriter::new();
    w.write_u16(MSG_PLANT_TAKE_FRUIT);
    w.write_u8(spot);
    w.write_u8(fruit_slot);
    let r = w.into_bytes();
    assert(r@ =~= take_fruit_message(spot, fruit_slot));
    r
}

/// Pinwheels only ever shorten growth, and a better pinwheel never makes it
/// longer.
pub proof fn lemma_pinwheels_speed_up(seed_id: u16)
    ensures
        growth_minutes(seed_id, 13) <= growth_minutes(seed_id, 12),
        growth_minutes(seed_id, 12) <= growth_minutes(seed_id, 11),
        growth_minutes(seed_id, 11) <= growth_minutes(seed_id, 0),
{
}

/// A blue seed (24) bears a blue seed in fruit slot 2 and Juicy Bango (25)
/// in every other slot; any other seed, and a spot with no seed recorded,
/// bears basic seeds (9).
pub proof fn lemma_fruits_by_seed(seed_id: Option<i64>, slot: u8)
    ensures
        seed_id matches Some(s) && s as u16 == 24 && slot == 2 ==> fruit_of(seed_id, slot) == 24,
        seed_id matches Some(s) && s as u16 == 24 && slot != 2 ==> fruit_of(seed_id, slot) == 25,
        seed_id matches Some(s) && s as u16 != 24 ==> fruit_of(seed_id, slot) == 9,
        seed_id is None ==> fruit_of(seed_id, slot) == 9,
{
}

} // verus!
