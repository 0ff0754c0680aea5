//! The item table of the client and the item messages.
//!
//! Item ids run from 1 to 61; each has a name, a kind that decides what using
//! it does, whether it is used up, and whether it may be dropped.

use vstd::prelude::*;

use crate::protocol::{le16, MessageWriter, MSG_GET_ITEM};

verus! {

/// Inventory categories, with their wire codes 1 to 4.
#[derive(Debug, Clone, Copy, PartialEq, Eq, Structural)]
pub enum ItemCategory {
    Outfit,
    Item,
    Accessory,
    Tool,
}

/// The wire code of a category.
pub open spec fn item_category_code(c: ItemCategory) -> u8 {
    match c {
        ItemCategory::Outfit => 1,
        ItemCategory::Item => 2,
        ItemCategory::Accessory => 3,
        ItemCategory::Tool => 4,
    }
}

impl ItemCategory {
    /// Decodes a category code; codes outside 1..=4 have none.
    pub fn from_u8(v: u8) -> (r: Option<Self>)
        ensures
            r is Some <==> 1 <= v <= 4,
            r matches Some(c) ==> item_category_code(c) == v,
    {
        match v {
            1 => Some(ItemCategory::Outfit),
            2 => Some(ItemCategory::Item),
            3 => Some(ItemCategory::Accessory),
            4 => Some(ItemCategory::Tool),
            _ => None,
        }
    }
}

/// What kind of item an id is, which decides what using it does.
#[derive(Debug, Clone, Copy, PartialEq, Eq, Structural)]
pub enum ItemType {
    WarpWing,
    Smokebomb,
    Applebomb,
    Bubbles,
    Slimebag50,
    Slimebag200,
    Slimebag500,
    ChickenMine,
    SimpleSeed,
    Fairy,
    BluePinwheel,
    RedPinwheel,
    GlowPinwheel,
    Soundmaker,
    Material,
    WeakCannonKit,
    Gum,
    LuckyCoin,
    Soda,
    SpeedSoda,
    JumpSoda,
    BlueSeed,
    ProofStone,
    Generic,
}

/// Everything the server knows about an item id.
#[derive(Debug, Clone)]
pub struct ItemInfo {
    pub id: u16,
    pub name: &'static str,
    pub item_type: ItemType,
    pub is_consumable: bool,
    pub is_discardable: bool,
}

/// Whether `id` is an item of the table.
pub open spec fn is_known_item(id: u16) -> bool {
    1 <= id <= 61
}

/// The kind of a known item.
pub open spec fn item_type_of(id: u16) -> ItemType {
    if id == 1 { ItemType::WarpWing }
    else if id == 2 { ItemType::Smokebomb }
    else if id == 3 { ItemType::Applebomb }
    else if id == 4 { ItemType::Bubbles }
    else if id == 5 { ItemType::Slimebag50 }
    else if id == 6 { ItemType::Slimebag200 }
    else if id == 7 { ItemType::Slimebag500 }
    else if id == 8 { ItemType::ChickenMine }
    else if id == 9 { ItemType::SimpleSeed }
    else if id == 10 { ItemType::Fairy }
    else if id == 11 { ItemType::BluePinwheel }
    else if id == 12 { ItemType::RedPinwheel }
    else if id == 13 { ItemType::GlowPinwheel }
    else if 14 <= id <= 19 { ItemType::Soundmaker }
    else if id == 23 { ItemType::Generic }
    else if id == 24 { ItemType::BlueSeed }
    else if id == 26 { ItemType::WeakCannonKit }
    else if 27 <= id <= 32 { ItemType::Gum }
    else if id == 33 { ItemType::LuckyCoin }
    else if 34 <= id <= 36 { ItemType::Soda }
    else if id == 37 { ItemType::SpeedSoda }
    else if id == 38 { ItemType::JumpSoda }
    else if 51 <= id <= 56 { ItemType::ProofStone }
    else { ItemType::Material }
}

/// Materials, lucky coins and proof stones are kept when used; every other
/// kind is used up.
pub open spec fn type_is_consumable(t: ItemType) -> bool {
    !(t == ItemType::Material || t == ItemType::LuckyCoin || t == ItemType::ProofStone)
}

/// Every known item but the Bug Leg (48) may be dropped.
pub open spec fn discardable(id: u16) -> bool {
    (1 <= id <= 47) || (49 <= id <= 61)
}

/// The display name of a known item.
pub open spec fn item_name(id: u16) -> Seq<char> {
    match id {
        1 => "Warp-Wing"@,
        2 => "Smokebomb"@,
        3 => "Applebomb"@,
        4 => "Bubbles"@,
        5 => "Slimebag [50]"@,
        6 => "Slimebag [200]"@,
        7 => "Slimebag [500]"@,
        8 => "Chicken Mine"@,
        9 => "Simple Seed"@,
        10 => "Fairy"@,
        11 => "Blue Pinwheel"@,
        12 => "Red Pinwheel"@,
        13 => "Glow Pinwheel"@,
        14 => "Rockman Sound"@,
        15 => "Kirby Sound"@,
        16 => "Link Sound"@,
        17 => "Pipe Sound"@,
        18 => "DK Sound"@,
        19 => "Metroid Sound"@,
        20 => "Red Mushroom"@,
        21 => "Tailphire"@,
        22 => "Magmanis"@,
        23 => "Bright Drink"@,
        24 => "Blue Seed"@,
        25 => "Juicy Bango"@,
        26 => "Weak Cannon Kit"@,
        27 => "Red Gum"@,
        28 => "Orange Gum"@,
        29 => "Green Gum"@,
        30 => "Blue Gum"@,
        31 => "Pink Gum"@,
        32 => "White Gum"@,
        33 => "Lucky Coin"@,
        34 => "Bunny Soda"@,
        35 => "Slime Soda"@,
        36 => "Penguin Soda"@,
        37 => "Speed Soda"@,
        38 => "Jump Soda"@,
        39 => "Sleenmium"@,
        40 => "Sledmium"@,
        41 => "Sluemium"@,
        42 => "Slinkmium"@,
        43 => "Slelloymium"@,
        44 => "Slaymium"@,
        45 => "Slackmium"@,
        46 => "Screw"@,
        47 => "Rusty Screw"@,
        48 => "Bug Leg"@,
        49 => "Weird Coin"@,
        50 => "Firestone"@,
        51 => "Proof of Nature"@,
        52 => "Proof of Earth"@,
        53 => "Proof of Water"@,
        54 => "Proof of Fire"@,
        55 => "Proof of Stone"@,
        56 => "Proof of Wind"@,
        57 => "Blazing Bubble"@,
        58 => "Squishy Mushroom"@,
        59 => "Stinky Mushroom"@,
        60 => "Bell Twig"@,
        61 => "Irrlicht"@,
        _ => Seq::empty(),
    }
}

fn item_type_for(id: u16) -> (t: ItemType)
    requires
        is_known_item(id),
    ensures
        t == item_type_of(id),
{
    if id == 1 { ItemType::WarpWing }
    else if id == 2 { ItemType::Smokebomb }
    else if id == 3 { ItemType::Applebomb }
    else if id == 4 { ItemType::Bubbles }
    else if id == 5 { ItemType::Slimebag50 }
    else if id == 6 { ItemType::Slimebag200 }
    else if id == 7 { ItemType::Slimebag500 }
    else if id == 8 { ItemType::ChickenMine }
    else if id == 9 { ItemType::SimpleSeed }
    else if id == 10 { ItemType::Fairy }
    else if id == 11 { ItemType::BluePinwheel }
    else if id == 12 { ItemType::RedPinwheel }
    else if id == 13 { ItemType::GlowPinwheel }
    else if 14 <= id && id <= 19 { ItemType::Soundmaker }
    else if id == 23 { ItemType::Generic }
    else if id == 24 { ItemType::BlueSeed }
    else if id == 26 { ItemType::WeakCannonKit }
    else if 27 <= id && id <= 32 { ItemType::Gum }
    else if id == 33 { ItemType::LuckyCoin }
    else if 34 <= id && id <= 36 { ItemType::Soda }
    else if id == 37 { ItemType::SpeedSoda }
    else if id == 38 { ItemType::JumpSoda }
    else if 51 <= id && id <= 56 { ItemType::ProofStone }
    else { ItemType::Material }
}

fn item_name_for(id: u16) -> (s: &'static str)
    requires
        is_known_item(id),
    ensures
        s@ == item_name(id),
{
    match id {
        1 => "Warp-Wing",
        2 => "Smokebomb",
        3 => "Applebomb",
        4 => "Bubbles",
        5 => "Slimebag [50]",
        6 => "Slimebag [200]",
        7 => "Slimebag [500]",
        8 => "Chicken Mine",
        9 => "Simple Seed",
        10 => "Fairy",
        11 => "Blue Pinwheel",
        12 => "Red Pinwheel",
        13 => "Glow Pinwheel",
        14 => "Rockman Sound",
        15 => "Kirby Sound",
        16 => "Link Sound",
        17 => "Pipe Sound",
        18 => "DK Sound",
        19 => "Metroid Sound",
        20 => "Red Mushroom",
        21 => "Tailphire",
        22 => "Magmanis",
        23 => "Bright Drink",
        24 => "Blue Seed",
        25 => "Juicy Bango",
        26 => "Weak Cannon Kit",
        27 => "Red Gum",
        28 => "Orange Gum",
        29 => "Green Gum",
        30 => "Blue Gum",
        31 => "Pink Gum",
        32 => "White Gum",
        33 => "Lucky Coin",
        34 => "Bunny Soda",
        35 => "Slime Soda",
        36 => "Penguin Soda",
        37 => "Speed Soda",
        38 => "Jump Soda",
        39 => "Sleenmium",
        40 => "Sledmium",
        41 => "Sluemium",
        42 => "Slinkmium",
        43 => "Slelloymium",
        44 => "Slaymium",
        45 => "Slackmium",
        46 => "Screw",
        47 => "Rusty Screw",
        48 => "Bug Leg",
        49 => "Weird Coin",
        50 => "Firestone",
        51 => "Proof of Nature",
        52 => "Proof of Earth",
        53 => "Proof of Water",
        54 => "Proof of Fire",
        55 => "Proof of Stone",
        56 => "Proof of Wind",
        57 => "Blazing Bubble",
        58 => "Squishy Mushroom",
        59 => "Stinky Mushroom",
        60 => "Bell Twig",
        _ => "Irrlicht",
    }
}

/// Looks an item up in the table; ids outside 1..=61 are unknown.
pub fn get_item_info(item_id: u16) -> (r: Option<ItemInfo>)
    ensures
        r is Some <==> is_known_item(item_id),
        r matches Some(info) ==> {
            &&& info.id == item_id
            &&& info.name@ == item_name(item_id)
            &&& info.item_type == item_type_of(item_id)
            &&& info.is_consumable == type_is_consumable(item_type_of(item_id))
            &&& info.is_discardable == discardable(item_id)
        },
{
    if item_id < 1 || item_id > 61 {
        return None;
    }
    let item_type = item_type_for(item_id);
    let is_consumable = match item_type {
        ItemType::Material | ItemType::LuckyCoin | ItemType::ProofStone => false,
        _ => true,
    };
    Some(ItemInfo {
        id: item_id,
        name: item_name_for(item_id),
        item_type,
        is_consumable,
        is_discardable: can_discard_item(item_id),
    })
}

/// Whether an item may be dropped on the ground.
pub fn can_discard_item(item_id: u16) -> (r: bool)
    ensures
        r == discardable(item_id),
{
    (1 <= item_id && item_id <= 47) || (49 <= item_id && item_id <= 61)
}

/// The body of an "item received" message: type, inventory slot, item id.
pub open spec fn get_item_message(slot: u8, item_id: u16) -> Seq<u8> {
    le16(MSG_GET_ITEM) + seq![slot] + le16(item_id)
}

/// Builds the message telling a client that `item_id` landed in `slot`.
pub fn write_get_item(slot: u8, item_id: u16) -> (r: Vec<u8>)
    ensures
        r@ == get_item_message(slot, item_id),
{
    let mut w = MessageWriter::new();
    w.write_u16(MSG_GET_ITEM);
    w.write_u8(slot);
    w.write_u16(item_id);
    let r = w.into_bytes();
    assert(r@ =~= get_item_message(slot, item_id));
    r
}

/// Everything that may be dropped is in the table, and the table's own
/// flag agrees with the drop rule.
pub proof fn lemma_discardable_items_are_known(id: u16)
    ensures
        discardable(id) ==> is_known_item(id),
        id == 48 ==> is_known_item(id) && !discardable(id),
{
}

/// The tool slot to record as equipped: the requested slot (1 to 9) when it
/// holds a tool; `None` for a slot outside 1..=9 or an empty one.
pub open spec fn tool_equip_slot(slot: u8, tools: Seq<u8>) -> Option<i16> {
    if !(1 <= slot <= 9) || tools[slot - 1] == 0 {
        None
    } else {
        Some(slot as i16)
    }
}

/// Checks a tool equip request against the tool slots.
pub fn tool_to_equip(slot: u8, tools: &[u8; 9]) -> (r: Option<i16>)
    ensures
        r == tool_equip_slot(slot, tools@),
{
    if slot < 1 || slot > 9 {
        return None;
    }
    if tools[(slot - 1) as usize] == 0 {
        return None;
    }
    Some(slot as i16)
}

} // verus!
