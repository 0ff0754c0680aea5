//! Items on the ground and buildings on building spots.
//!
//! A dropped item leaves its inventory slot and lies in the room until
//! someone picks it up into their first empty item slot. A buildable item
//! placed on a free building spot of the room becomes a building; on an
//! occupied spot the item is handed back.

use vstd::prelude::*;

use crate::anticheat::movement::validate_position_bounds;
use crate::constants::{MAX_ROOM_X, MAX_ROOM_Y};
use crate::db::runtime_state::GroundItem;
use crate::handlers::items::{can_discard_item, discardable, get_item_message, write_get_item};
use crate::handlers::shop::first_empty_from;
use crate::protocol::{le16, le16_at, read_u16_le, MessageWriter, MSG_DISCARD_ITEM};

verus! {

/// Placing a building (client to server).
pub const MSG_BUILD_OBJECT: u16 = 105;

/// A parsed drop request: slot and position.
#[derive(Debug, Clone, Copy, PartialEq, Eq, Structural)]
pub struct DiscardRequest {
    pub slot: u8,
    pub x: u16,
    pub y: u16,
}

/// The drop request a body encodes: at least 5 bytes, a slot from 1 to 9 and
/// a position inside the largest room.
pub open spec fn discard_request(payload: Seq<u8>) -> Option<DiscardRequest> {
    if payload.len() < 5 {
        None
    } else {
        let slot = payload[0];
        let x = le16_at(payload, 1);
        let y = le16_at(payload, 3);
        if !(1 <= slot <= 9) || !(x <= MAX_ROOM_X && y <= MAX_ROOM_Y) {
            None
        } else {
            Some(DiscardRequest { slot, x, y })
        }
    }
}

/// Reads and checks a drop request; `None` when it is refused.
pub fn parse_discard(payload: &[u8]) -> (r: Option<DiscardRequest>)
    ensures
        r == discard_request(payload@),
{
    if payload.len() < 5 {
        return None;
    }
    let slot = payload[0];
    let x = match read_u16_le(payload, 1) {
        Some(v) => v,
        None => return None,
    };
    let y = match read_u16_le(payload, 3) {
        Some(v) => v,
        None => return None,
    };
    if slot < 1 || slot > 9 {
        return None;
    }
    if !validate_position_bounds(x, y) {
        return None;
    }
    Some(DiscardRequest { slot, x, y })
}

/// The item a checked drop request drops: the one in its slot, when the slot
/// is filled and the item may be dropped.
pub open spec fn dropped_item(req: DiscardRequest, items: Seq<u16>) -> Option<u16> {
    let id = items[req.slot - 1];
    if id != 0 && discardable(id) { Some(id) } else { None }
}

/// Decides which item a drop request drops from the item slots.
pub fn decide_discard(req: &DiscardRequest, items: &[u16; 9]) -> (r: Option<u16>)
    requires
        1 <= req.slot <= 9,
    ensures
        r == dropped_item(*req, items@),
{
    let id = items[(req.slot - 1) as usize];
    if id != 0 && can_discard_item(id) { Some(id) } else { None }
}

/// The broadcast of a dropped item: position, item and instance id.
pub open spec fn discard_message(x: u16, y: u16, item_id: u16, instance_id: u16) -> Seq<u8> {
    le16(MSG_DISCARD_ITEM) + le16(x) + le16(y) + le16(item_id) + le16(instance_id)
}

/// Builds the broadcast of a dropped item.
pub fn build_discard_message(x: u16, y: u16, item_id: u16, instance_id: u16) -> (r: Vec<u8>)
    ensures
        r@ == discard_message(x, y, item_id, instance_id),
{
    let mut w = MessageWriter::new();
    w.write_u16(MSG_DISCARD_ITEM);
    w.write_u16(x);
    w.write_u16(y);
    w.write_u16(item_id);
    w.write_u16(instance_id);
    let r = w.into_bytes();
    assert(r@ =~= discard_message(x, y, item_id, instance_id));
    r
}

/// The first ground item of the list whose row id is `instance_id`.
pub open spec fn find_ground(items: Seq<GroundItem>, instance_id: u16, from: nat) -> Option<int>
    decreases items.len() - from,
{
    if from >= items.len() {
        None
    } else if items[from as int].id == instance_id as i64 {
        Some(from as int)
    } else {
        find_ground(items, instance_id, from + 1)
    }
}

/// What a pickup comes to.
#[derive(Debug, Clone, Copy, PartialEq, Eq, Structural)]
pub enum PickupOutcome {
    /// No such item in the room, or no free item slot: nothing happens.
    Nothing,
    /// The ground row `db_id` is removed and the item (its id read as a
    /// `u16`) goes to item slot `slot`.
    Take { db_id: i64, slot: u8, item_id: u16 },
}

/// The outcome of picking up `instance_id` among the room's ground items.
pub open spec fn pickup_outcome(ground: Seq<GroundItem>, instance_id: u16, items: Seq<u16>) -> PickupOutcome {
    match find_ground(ground, instance_id, 0) {
        None => PickupOutcome::Nothing,
        Some(k) => match first_empty_from(items.map_values(|v: u16| v as int), 0) {
            None => PickupOutcome::Nothing,
            Some(slot) => PickupOutcome::Take {
                db_id: ground[k].id,
                slot,
                item_id: ground[k].item_id as u16,
            },
        },
    }
}

fn find_ground_index(ground: &Vec<GroundItem>, instance_id: u16) -> (r: Option<usize>)
    ensures
        match r {
            Some(k) => k < ground@.len() && find_ground(ground@, instance_id, 0) == Some(k as int),
            None => find_ground(ground@, instance_id, 0) is None,
        },
{
    let db_id = instance_id as i64;
    let mut k: usize = 0;
    while k < ground.len()
        invariant
            k <= ground@.len(),
            db_id == instance_id as i64,
            find_ground(ground@, instance_id, 0) == find_ground(ground@, instance_id, k as nat),
        decreases ground@.len() - k,
    {
        if ground[k].id == db_id {
            return Some(k);
        }
        k += 1;
    }
    None
}

/// Decides a pickup of the ground item with instance id `instance_id`.
pub fn decide_pickup(ground: &Vec<GroundItem>, instance_id: u16, items: &[u16; 9]) -> (r: PickupOutcome)
    ensures
        r == pickup_outcome(ground@, instance_id, items@),
{
    let k = match find_ground_index(ground, instance_id) {
        Some(k) => k,
        None => return PickupOutcome::Nothing,
    };
    let ghost s = items@.map_values(|v: u16| v as int);
    let mut i: usize = 0;
    while i < 9
        invariant
            i <= 9,
            k < ground@.len(),
            find_ground(ground@, instance_id, 0) == Some(k as int),
            s == items@.map_values(|v: u16| v as int),
            first_empty_from(s, 0) == first_empty_from(s, i as nat),
        decreases 9 - i,
    {
        if items[i] == 0 {
            #[verifier::truncate]
            let item_id = ground[k].item_id as u16;
            return PickupOutcome::Take { db_id: ground[k].id, slot: (i + 1) as u8, item_id };
        }
        i += 1;
    }
    PickupOutcome::Nothing
}

/// What a building request comes to.
#[derive(Debug, Clone, PartialEq, Eq)]
pub enum BuildOutcome {
    /// Refused without an answer: bad slot, unknown spot, empty slot, or an
    /// item that cannot be built.
    Ignored,
    /// The spot is taken: the item is handed back with this message.
    ReturnItem { message: Vec<u8> },
    /// The building goes up for `duration_hours`; the item leaves `slot`.
    Build { slot: u8, item_id: u16, duration_hours: u32 },
}

/// The outcome of placing the item of `item_slot` on a spot. `spot_exists`
/// says whether the room has the spot, `build_hours` is the build duration
/// of the slot's item when it is buildable, `spot_occupied` whether a
/// building stands there.
pub open spec fn build_spec(
    r: BuildOutcome,
    item_slot: u8,
    spot_exists: bool,
    items: Seq<u16>,
    build_hours: Option<u32>,
    spot_occupied: bool,
) -> bool {
    if !(1 <= item_slot <= 9) || !spot_exists {
        r == BuildOutcome::Ignored
    } else {
        let id = items[item_slot - 1];
        if id == 0 {
            r == BuildOutcome::Ignored
        } else {
            match build_hours {
                None => r == BuildOutcome::Ignored,
                Some(h) => if spot_occupied {
                    r matches BuildOutcome::ReturnItem { message } && message@ == get_item_message(item_slot, id)
                } else {
                    r == BuildOutcome::Build { slot: item_slot, item_id: id, duration_hours: h }
                },
            }
        }
    }
}

/// Decides a building request.
pub fn decide_build(
    item_slot: u8,
    spot_exists: bool,
    items: &[u16; 9],
    build_hours: Option<u32>,
    spot_occupied: bool,
) -> (r: BuildOutcome)
    ensures
        build_spec(r, item_slot, spot_exists, items@, build_hours, spot_occupied),
{
    if item_slot < 1 || item_slot > 9 || !spot_exists {
        return BuildOutcome::Ignored;
    }
    let id = items[(item_slot - 1) as usize];
    if id == 0 {
        return BuildOutcome::Ignored;
    }
    match build_hours {
        None => BuildOutcome::Ignored,
        Some(h) => {
            if spot_occupied {
                BuildOutcome::ReturnItem { message: write_get_item(item_slot, id) }
            } else {
                BuildOutcome::Build { slot: item_slot, item_id: id, duration_hours: h }
            }
        },
    }
}

} // verus!
