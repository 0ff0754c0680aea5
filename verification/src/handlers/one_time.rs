//! One-time items: placed in rooms, each can be taken once per character.

use vstd::prelude::*;

use crate::db::characters::Inventory;
use crate::db::runtime_state::OneTimeItem;
use crate::handlers::shop::{category_slots, first_empty_from, first_empty_slot, ShopCategory};
use crate::protocol::{le16, MessageWriter};

verus! {

/// A one-time item lying in the room (server to client).
pub const MSG_ONE_TIME_INFO: u16 = 35;

/// A one-time item no longer offered at this hour (server to client).
pub const MSG_ONE_TIME_DISAPPEAR: u16 = 36;

/// Taking a one-time item (both directions).
pub const MSG_ONE_TIME_GET: u16 = 37;

/// The inventory category of a one-time item's category code (outfits,
/// items and accessories only).
pub open spec fn one_time_category(code: u8) -> Option<ShopCategory> {
    if code == 1 {
        Some(ShopCategory::Outfit)
    } else if code == 2 {
        Some(ShopCategory::Item)
    } else if code == 3 {
        Some(ShopCategory::Accessory)
    } else {
        None
    }
}

/// Where a one-time item goes: the first empty slot of its category, when
/// the item exists, was not taken yet by the character, and has a category
/// of 1 to 3.
pub open spec fn one_time_slot(item: Option<OneTimeItem>, taken: bool, inventory: Inventory) -> Option<u8> {
    match item {
        None => None,
        Some(it) => if taken {
            None
        } else {
            match one_time_category(it.category) {
                None => None,
                Some(c) => first_empty_from(category_slots(inventory, c), 0),
            }
        },
    }
}

/// Decides taking a one-time item; `Some(slot)`: it goes to that slot.
pub fn decide_one_time(item: Option<OneTimeItem>, taken: bool, inventory: &Inventory) -> (r: Option<u8>)
    ensures
        r == one_time_slot(item, taken, *inventory),
{
    let it = match item {
        Some(i) => i,
        None => return None,
    };
    if taken {
        return None;
    }
    match it.category {
        1 => first_empty_slot(inventory.outfits()),
        2 => first_empty_slot(inventory.items()),
        3 => first_empty_slot(inventory.accessories()),
        _ => None,
    }
}

/// The confirmation of a taken one-time item: category, slot, item.
pub open spec fn one_time_get_message(category: u8, slot: u8, item_id: u16) -> Seq<u8> {
    le16(MSG_ONE_TIME_GET) + seq![category, slot] + le16(item_id)
}

/// Builds the confirmation of a taken one-time item.
pub fn build_one_time_get(category: u8, slot: u8, item_id: u16) -> (r: Vec<u8>)
    ensures
        r@ == one_time_get_message(category, slot, item_id),
{
    let mut w = MessageWriter::new();
    w.write_u16(MSG_ONE_TIME_GET);
    w.write_u8(category);
    w.write_u8(slot);
    w.write_u16(item_id);
    let r = w.into_bytes();
    assert(r@ =~= one_time_get_message(category, slot, item_id));
    r
}

/// A one-time item shown in the room: position, id, item and category.
pub open spec fn one_time_info_message(x: u16, y: u16, real_id: u8, item_id: u16, category: u8) -> Seq<u8> {
    le16(MSG_ONE_TIME_INFO) + le16(x) + le16(y) + seq![real_id] + le16(item_id) + seq![category]
}

/// Builds the message showing a one-time item.
pub fn build_one_time_info(x: u16, y: u16, real_id: u8, item_id: u16, category: u8) -> (r: Vec<u8>)
    ensures
        r@ == one_time_info_message(x, y, real_id, item_id, category),
{
    let mut w = MessageWriter::new();
    w.write_u16(MSG_ONE_TIME_INFO);
    w.write_u16(x);
    w.write_u16(y);
    w.write_u8(real_id);
    w.write_u16(item_id);
    w.write_u8(category);
    let r = w.into_bytes();
    assert(r@ =~= one_time_info_message(x, y, real_id, item_id, category));
    r
}

/// A one-time item that is no longer offered.
pub open spec fn one_time_disappear_message(real_id: u8) -> Seq<u8> {
    le16(MSG_ONE_TIME_DISAPPEAR) + seq![real_id]
}

/// Builds the message removing a one-time item.
pub fn build_one_time_disappear(real_id: u8) -> (r: Vec<u8>)
    ensures
        r@ == one_time_disappear_message(real_id),
{
    let mut w = MessageWriter::new();
    w.write_u16(MSG_ONE_TIME_DISAPPEAR);
    w.write_u8(real_id);
    let r = w.into_bytes();
    assert(r@ =~= one_time_disappear_message(real_id));
    r
}

} // verus!
