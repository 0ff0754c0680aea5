//! Using an item from the inventory.
//!
//! The request is a slot (1 byte), optionally followed by a position (two
//! `u16`) and, for bubbles, a direction byte. What happens depends on the
//! item's kind: effects shown to the whole room, points, a warp to the save
//! point, or nothing at all; most kinds are used up.

use vstd::prelude::*;

use crate::anticheat::movement::validate_position_bounds;
use crate::constants::{MAX_ROOM_X, MAX_ROOM_Y};
use crate::handlers::items::{get_item_info, is_known_item, item_type_of, ItemType};
use crate::protocol::{le16, le16_at, read_u16_le, read_u8_at, MessageWriter, MSG_USE_ITEM};

verus! {

/// A parsed use request.
#[derive(Debug, Clone, Copy, PartialEq, Eq)]
pub struct UseItemRequest {
    pub slot: u8,
    /// The position sent with the request, when the body has one.
    pub position: Option<(u16, u16)>,
    /// The byte after the fields read so far (0 when there is none); only
    /// bubbles use it, as their direction.
    pub direction: u8,
}

/// The request a body encodes: the slot, a position when the body has at
/// least 5 bytes, and the next byte after what was read as the direction.
pub open spec fn use_item_request(payload: Seq<u8>) -> Option<UseItemRequest> {
    if payload.len() == 0 {
        None
    } else {
        let has_pos = payload.len() >= 5;
        let next = if has_pos { 5int } else { 1int };
        Some(UseItemRequest {
            slot: payload[0],
            position: if has_pos { Some((le16_at(payload, 1), le16_at(payload, 3))) } else { None },
            direction: if next < payload.len() { payload[next] } else { 0 },
        })
    }
}

/// Reads a use request; `None` for an empty body.
pub fn parse_use_item(payload: &[u8]) -> (r: Option<UseItemRequest>)
    ensures
        r == use_item_request(payload@),
{
    let slot = match read_u8_at(payload, 0) {
        Some(s) => s,
        None => return None,
    };
    if payload.len() >= 5 {
        let x = read_u16_le(payload, 1);
        let y = read_u16_le(payload, 3);
        let direction = match read_u8_at(payload, 5) {
            Some(d) => d,
            None => 0,
        };
        match (x, y) {
            (Some(x), Some(y)) => Some(UseItemRequest { slot, position: Some((x, y)), direction }),
            _ => None,
        }
    } else {
        let direction = match read_u8_at(payload, 1) {
            Some(d) => d,
            None => 0,
        };
        Some(UseItemRequest { slot, position: None, direction })
    }
}

/// Where an effect is shown: the requested position when it lies inside the
/// largest room, else the player's own position.
pub open spec fn effect_position(requested: Option<(u16, u16)>, own_x: u16, own_y: u16) -> (u16, u16) {
    match requested {
        Some((x, y)) => if x <= MAX_ROOM_X && y <= MAX_ROOM_Y { (x, y) } else { (own_x, own_y) },
        None => (own_x, own_y),
    }
}

/// Picks the position an item effect is shown at.
pub fn resolve_effect_position(requested: Option<(u16, u16)>, own_x: u16, own_y: u16) -> (r: (u16, u16))
    ensures
        r == effect_position(requested, own_x, own_y),
{
    match requested {
        Some((x, y)) => if validate_position_bounds(x, y) { (x, y) } else { (own_x, own_y) },
        None => (own_x, own_y),
    }
}

/// What using an item comes to. Every variant with a `slot` empties that
/// slot; `Keep` leaves the item where it is.
#[derive(Debug, Clone, PartialEq, Eq)]
pub enum UseItemAction {
    /// The slot is empty: a hack is reported and nothing happens.
    ReportEmptySlot,
    /// The slot holds an id the table does not know: nothing happens.
    UnknownItem,
    /// A Warp-Wing: the player goes to the save point (see `warp_wing_messages`).
    WarpWing { slot: u8 },
    /// An effect sent to everyone in the room, the user included.
    Broadcast { slot: u8, message: Vec<u8> },
    /// A confirmation sent to the user only.
    Reply { slot: u8, message: Vec<u8> },
    /// A slimebag: the points are credited (see `handle_points_overflow`).
    AddPoints { slot: u8, amount: u32 },
    /// Used up with no message from the server.
    Consume { slot: u8 },
    /// The item has no use here and stays in the inventory.
    Keep,
}

/// A visual effect at a position (smokebombs, applebombs, gum).
pub open spec fn effect_message(item_id: u16, x: u16, y: u16) -> Seq<u8> {
    le16(MSG_USE_ITEM) + le16(item_id) + le16(x) + le16(y)
}

/// Bubbles at a position, blown in a direction, five of them.
pub open spec fn bubbles_message(item_id: u16, x: u16, y: u16, direction: u8) -> Seq<u8> {
    effect_message(item_id, x, y) + seq![direction, 5u8]
}

/// A sound played for a player.
pub open spec fn sound_message(item_id: u16, player_id: u16) -> Seq<u8> {
    le16(MSG_USE_ITEM) + le16(item_id) + le16(player_id)
}

/// The bare confirmation of an item's use.
pub open spec fn used_message(item_id: u16) -> Seq<u8> {
    le16(MSG_USE_ITEM) + le16(item_id)
}

/// Whether an action carries this message for the room.
pub open spec fn broadcasts(a: UseItemAction, slot: u8, m: Seq<u8>) -> bool {
    a matches UseItemAction::Broadcast { slot: s, message } && s == slot && message@ == m
}

/// Whether an action carries this reply for the user.
pub open spec fn replies(a: UseItemAction, slot: u8, m: Seq<u8>) -> bool {
    a matches UseItemAction::Reply { slot: s, message } && s == slot && message@ == m
}

/// What using `item_id` from `slot` does, for a player `player_id` at
/// `(own_x, own_y)`.
pub open spec fn use_item_spec(
    a: UseItemAction,
    item_id: u16,
    req: UseItemRequest,
    player_id: u16,
    own_x: u16,
    own_y: u16,
) -> bool {
    let slot = req.slot;
    let (x, y) = effect_position(req.position, own_x, own_y);
    if item_id == 0 {
        a == UseItemAction::ReportEmptySlot
    } else if !is_known_item(item_id) {
        a == UseItemAction::UnknownItem
    } else {
        match item_type_of(item_id) {
            ItemType::WarpWing => a == UseItemAction::WarpWing { slot },
            ItemType::Smokebomb | ItemType::Applebomb | ItemType::Gum => broadcasts(a, slot, effect_message(item_id, x, y)),
            ItemType::Bubbles => broadcasts(a, slot, bubbles_message(item_id, x, y, req.direction)),
            ItemType::Slimebag50 => a == UseItemAction::AddPoints { slot, amount: 50 },
            ItemType::Slimebag200 => a == UseItemAction::AddPoints { slot, amount: 200 },
            ItemType::Slimebag500 => a == UseItemAction::AddPoints { slot, amount: 500 },
            ItemType::ChickenMine => replies(a, slot, used_message(item_id)),
            ItemType::Soundmaker => broadcasts(a, slot, sound_message(item_id, player_id)),
            ItemType::Soda | ItemType::SpeedSoda | ItemType::JumpSoda | ItemType::SimpleSeed | ItemType::BlueSeed
            | ItemType::WeakCannonKit => a == UseItemAction::Consume { slot },
            _ => a == UseItemAction::Keep,
        }
    }
}

/// Decides what using the item `item_id`, found in the requested slot, does.
pub fn decide_use_item(item_id: u16, req: &UseItemRequest, player_id: u16, own_x: u16, own_y: u16) -> (r: UseItemAction)
    ensures
        use_item_spec(r, item_id, *req, player_id, own_x, own_y),
{
    if item_id == 0 {
        return UseItemAction::ReportEmptySlot;
    }
    let info = match get_item_info(item_id) {
        Some(i) => i,
        None => return UseItemAction::UnknownItem,
    };
    let slot = req.slot;
    let (x, y) = resolve_effect_position(req.position, own_x, own_y);
    match info.item_type {
        ItemType::WarpWing => UseItemAction::WarpWing { slot },
        ItemType::Smokebomb | ItemType::Applebomb | ItemType::Gum => {
            let mut w = MessageWriter::new();
            w.write_u16(MSG_USE_ITEM);
            w.write_u16(item_id);
            w.write_u16(x);
            w.write_u16(y);
            let message = w.into_bytes();
            assert(message@ =~= effect_message(item_id, x, y));
            UseItemAction::Broadcast { slot, message }
        },
        ItemType::Bubbles => {
            let mut w = MessageWriter::new();
            w.write_u16(MSG_USE_ITEM);
            w.write_u16(item_id);
            w.write_u16(x);
            w.write_u16(y);
            w.write_u8(req.direction);
            w.write_u8(5);
            let message = w.into_bytes();
            assert(message@ =~= bubbles_message(item_id, x, y, req.direction));
            UseItemAction::Broadcast { slot, message }
        },
        ItemType::Slimebag50 => UseItemAction::AddPoints { slot, amount: 50 },
        ItemType::Slimebag200 => UseItemAction::AddPoints { slot, amount: 200 },
        ItemType::Slimebag500 => UseItemAction::AddPoints { slot, amount: 500 },
        ItemType::ChickenMine => {
            let mut w = MessageWriter::new();
            w.write_u16(MSG_USE_ITEM);
            w.write_u16(item_id);
            let message = w.into_bytes();
            assert(message@ =~= used_message(item_id));
            UseItemAction::Reply { slot, message }
        },
        ItemType::Soundmaker => {
            let mut w = MessageWriter::new();
            w.write_u16(MSG_USE_ITEM);
            w.write_u16(item_id);
            w.write_u16(player_id);
            let message = w.into_bytes();
            assert(message@ =~= sound_message(item_id, player_id));
            UseItemAction::Broadcast { slot, message }
        },
        ItemType::Soda | ItemType::SpeedSoda | ItemType::JumpSoda | ItemType::SimpleSeed | ItemType::BlueSeed
        | ItemType::WeakCannonKit => UseItemAction::Consume { slot },
        _ => UseItemAction::Keep,
    }
}

/// The save point of a Warp-Wing: the character's stored position (each
/// coordinate read as unsigned), or the session's when there is no row.
pub open spec fn warp_target(stored: Option<(i16, i16, i16)>, session: (u16, u16, u16)) -> (u16, u16, u16) {
    match stored {
        Some((x, y, room)) => (x as u16, y as u16, room as u16),
        None => session,
    }
}

/// Picks the save point a Warp-Wing takes its user to, as `(x, y, room)`.
pub fn warp_wing_target(stored: Option<(i16, i16, i16)>, session: (u16, u16, u16)) -> (r: (u16, u16, u16))
    ensures
        r == warp_target(stored, session),
{
    match stored {
        Some((x, y, room)) => (x as u16, y as u16, room as u16),
        None => session,
    }
}

/// The warp told to its user: item 1, flag 1, then room and position.
pub open spec fn warp_self_message(room: u16, x: u16, y: u16) -> Seq<u8> {
    le16(MSG_USE_ITEM) + le16(1) + seq![1u8] + le16(room) + le16(x) + le16(y)
}

/// The warp shown to the others in the room: item 1, flag 0, and where the
/// user stood.
pub open spec fn warp_others_message(x: u16, y: u16) -> Seq<u8> {
    le16(MSG_USE_ITEM) + le16(1) + seq![0u8] + le16(x) + le16(y)
}

/// The two Warp-Wing messages: to the user (with the target) and to the
/// rest of the room (with the starting position).
pub fn warp_wing_messages(room: u16, x: u16, y: u16, from_x: u16, from_y: u16) -> (r: (Vec<u8>, Vec<u8>))
    ensures
        r.0@ == warp_self_message(room, x, y),
        r.1@ == warp_others_message(from_x, from_y),
{
    let mut w = MessageWriter::new();
    w.write_u16(MSG_USE_ITEM);
    w.write_u16(1);
    w.write_u8(1);
    w.write_u16(room);
    w.write_u16(x);
    w.write_u16(y);
    let own = w.into_bytes();
    assert(own@ =~= warp_self_message(room, x, y));
    let mut b = MessageWriter::new();
    b.write_u16(MSG_USE_ITEM);
    b.write_u16(1);
    b.write_u8(0);
    b.write_u16(from_x);
    b.write_u16(from_y);
    let others = b.into_bytes();
    assert(others@ =~= warp_others_message(from_x, from_y));
    (own, others)
}

} // verus!
