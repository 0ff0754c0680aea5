//! Character rows and their inventories.

use vstd::prelude::*;

verus! {

/// A character as stored: position, appearance, points, progress.
#[derive(Debug, Clone)]
pub struct Character {
    pub id: i64,
    pub account_id: i64,
    pub username: String,
    pub x: i16,
    pub y: i16,
    pub room_id: i16,
    pub body_id: i16,
    pub acs1_id: i16,
    pub acs2_id: i16,
    pub points: i64,
    pub bank_balance: i64,
    pub trees_planted: i16,
    pub objects_built: i16,
    pub quest_id: i16,
    pub quest_step: i16,
    pub quest_var: i16,
    pub has_signature: bool,
    pub is_moderator: bool,
    pub clan_id: Option<i64>,
}

/// The inventory of a character: 5 emote slots and 9 slots each of outfits,
/// accessories, items and tools, as stored (signed 16-bit columns).
#[derive(Debug, Clone)]
pub struct Inventory {
    pub character_id: i64,
    pub emote_1: i16,
    pub emote_2: i16,
    pub emote_3: i16,
    pub emote_4: i16,
    pub emote_5: i16,
    pub outfit_1: i16,
    pub outfit_2: i16,
    pub outfit_3: i16,
    pub outfit_4: i16,
    pub outfit_5: i16,
    pub outfit_6: i16,
    pub outfit_7: i16,
    pub outfit_8: i16,
    pub outfit_9: i16,
    pub accessory_1: i16,
    pub accessory_2: i16,
    pub accessory_3: i16,
    pub accessory_4: i16,
    pub accessory_5: i16,
    pub accessory_6: i16,
    pub accessory_7: i16,
    pub accessory_8: i16,
    pub accessory_9: i16,
    pub item_1: i16,
    pub item_2: i16,
    pub item_3: i16,
    pub item_4: i16,
    pub item_5: i16,
    pub item_6: i16,
    pub item_7: i16,
    pub item_8: i16,
    pub item_9: i16,
    pub tool_1: i16,
    pub tool_2: i16,
    pub tool_3: i16,
    pub tool_4: i16,
    pub tool_5: i16,
    pub tool_6: i16,
    pub tool_7: i16,
    pub tool_8: i16,
    pub tool_9: i16,
    pub equipped_tool: i16,
}

impl Inventory {
    /// The emote slots, each stored value truncated to `u8`.
    pub open spec fn emote_slots(&self) -> Seq<u8> {
        seq![self.emote_1 as u8, self.emote_2 as u8, self.emote_3 as u8, self.emote_4 as u8, self.emote_5 as u8]
    }

    /// The outfit slots, each stored value truncated to `u16`.
    pub open spec fn outfit_slots(&self) -> Seq<u16> {
        seq![self.outfit_1 as u16, self.outfit_2 as u16, self.outfit_3 as u16, self.outfit_4 as u16, self.outfit_5 as u16, self.outfit_6 as u16, self.outfit_7 as u16, self.outfit_8 as u16, self.outfit_9 as u16]
    }

    /// The accessory slots, each stored value truncated to `u16`.
    pub open spec fn accessory_slots(&self) -> Seq<u16> {
        seq![self.accessory_1 as u16, self.accessory_2 as u16, self.accessory_3 as u16, self.accessory_4 as u16, self.accessory_5 as u16, self.accessory_6 as u16, self.accessory_7 as u16, self.accessory_8 as u16, self.accessory_9 as u16]
    }

    /// The item slots, each stored value truncated to `u16`.
    pub open spec fn item_slots(&self) -> Seq<u16> {
        seq![self.item_1 as u16, self.item_2 as u16, self.item_3 as u16, self.item_4 as u16, self.item_5 as u16, self.item_6 as u16, self.item_7 as u16, self.item_8 as u16, self.item_9 as u16]
    }

    /// The tool slots, each stored value truncated to `u8`.
    pub open spec fn tool_slots(&self) -> Seq<u8> {
        seq![self.tool_1 as u8, self.tool_2 as u8, self.tool_3 as u8, self.tool_4 as u8, self.tool_5 as u8, self.tool_6 as u8, self.tool_7 as u8, self.tool_8 as u8, self.tool_9 as u8]
    }


    /// The emote slots, each stored value truncated to `u8` (0 is an empty slot).
    pub fn emotes(&self) -> (r: [u8; 5])
        ensures
            r@ == self.emote_slots(),
    {
        let r = [self.emote_1 as u8, self.emote_2 as u8, self.emote_3 as u8, self.emote_4 as u8, self.emote_5 as u8];
        assert(r@ =~= self.emote_slots());
        r
    }

    /// The outfit slots, each stored value truncated to `u16` (0 is an empty slot).
    pub fn outfits(&self) -> (r: [u16; 9])
        ensures
            r@ == self.outfit_slots(),
    {
        let r = [self.outfit_1 as u16, self.outfit_2 as u16, self.outfit_3 as u16, self.outfit_4 as u16, self.outfit_5 as u16, self.outfit_6 as u16, self.outfit_7 as u16, self.outfit_8 as u16, self.outfit_9 as u16];
        assert(r@ =~= self.outfit_slots());
        r
    }

    /// The accessory slots, each stored value truncated to `u16` (0 is an empty slot).
    pub fn accessories(&self) -> (r: [u16; 9])
        ensures
            r@ == self.accessory_slots(),
    {
        let r = [self.accessory_1 as u16, self.accessory_2 as u16, self.accessory_3 as u16, self.accessory_4 as u16, self.accessory_5 as u16, self.accessory_6 as u16, self.accessory_7 as u16, self.accessory_8 as u16, self.accessory_9 as u16];
        assert(r@ =~= self.accessory_slots());
        r
    }

    /// The item slots, each stored value truncated to `u16` (0 is an empty slot).
    pub fn items(&self) -> (r: [u16; 9])
        ensures
            r@ == self.item_slots(),
    {
        let r = [self.item_1 as u16, self.item_2 as u16, self.item_3 as u16, self.item_4 as u16, self.item_5 as u16, self.item_6 as u16, self.item_7 as u16, self.item_8 as u16, self.item_9 as u16];
        assert(r@ =~= self.item_slots());
        r
    }

    /// The tool slots, each stored value truncated to `u8` (0 is an empty slot).
    pub fn tools(&self) -> (r: [u8; 9])
        ensures
            r@ == self.tool_slots(),
    {
        let r = [self.tool_1 as u8, self.tool_2 as u8, self.tool_3 as u8, self.tool_4 as u8, self.tool_5 as u8, self.tool_6 as u8, self.tool_7 as u8, self.tool_8 as u8, self.tool_9 as u8];
        assert(r@ =~= self.tool_slots());
        r
    }
}

} // verus!
