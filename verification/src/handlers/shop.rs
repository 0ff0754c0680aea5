//! Room shops: what a slot offers, whether a purchase goes through, and the
//! shop messages.
//!
//! A slot's item and stock come from the shop configuration, its price from
//! the price tables. The upgrader may override whether a slot is on offer,
//! and it raises the stock of limited slots by a per-room bonus. The current
//! stock of a slot is kept in the database; a slot with no stock entry has
//! its full stock.

use vstd::prelude::*;

use crate::config::{lookup, GameConfig, PriceConfig, ShopSlotConfig};
use crate::db::characters::Inventory;
use crate::protocol::{le16, MessageWriter, MSG_ROOM_SHOP_INFO, MSG_SHOP_BUY, MSG_SHOP_BUY_FAIL};

verus! {

/// Shop categories, with their wire codes 1 to 4.
#[derive(Debug, Clone, Copy, PartialEq, Eq, Structural)]
pub enum ShopCategory {
    Outfit,
    Item,
    Accessory,
    Tool,
}

/// The wire code of a shop category.
pub open spec fn shop_category_code(c: ShopCategory) -> u8 {
    match c {
        ShopCategory::Outfit => 1,
        ShopCategory::Item => 2,
        ShopCategory::Accessory => 3,
        ShopCategory::Tool => 4,
    }
}

impl ShopCategory {
    /// Decodes a category code; codes outside 1..=4 have none.
    pub fn from_u8(value: u8) -> (r: Option<Self>)
        ensures
            r is Some <==> 1 <= value <= 4,
            r matches Some(c) ==> shop_category_code(c) == value,
    {
        match value {
            1 => Some(ShopCategory::Outfit),
            2 => Some(ShopCategory::Item),
            3 => Some(ShopCategory::Accessory),
            4 => Some(ShopCategory::Tool),
            _ => None,
        }
    }
}

/// A shop slot with everything needed to show or sell it.
#[derive(Debug, Clone, Copy, PartialEq, Eq, Structural)]
pub struct ResolvedShopItem {
    pub slot_id: u8,
    pub category: u8,
    pub item_id: u16,
    pub price: u32,
    /// Current stock (0 = sold out when the slot is limited).
    pub stock: u16,
    /// Stock the slot is filled to; 0 means unlimited.
    pub max_stock: u16,
    /// Whether the slot is on offer.
    pub is_available: bool,
}

/// The price of an item of a shop category: the category's price table, with
/// tools looked up by the id's low byte.
pub open spec fn shop_price(prices: PriceConfig, category: u8, item_id: u16) -> Option<u32> {
    if category == 1 {
        lookup(prices.outfits@, item_id)
    } else if category == 2 {
        match lookup(prices.items@, item_id) {
            Some(e) => Some(e.price),
            None => None,
        }
    } else if category == 3 {
        lookup(prices.accessories@, item_id)
    } else if category == 4 {
        match lookup(prices.tools@, item_id as u8) {
            Some(e) => Some(e.price),
            None => None,
        }
    } else {
        None
    }
}

/// Looks up the price of a shop item by category.
pub fn get_item_price(config: &GameConfig, category: u8, item_id: u16) -> (r: Option<u32>)
    ensures
        r == shop_price(config.prices, category, item_id),
{
    match category {
        1 => config.prices.get_outfit_price(item_id),
        2 => config.prices.get_item_price(item_id),
        3 => config.prices.get_accessory_price(item_id),
        4 => config.prices.get_tool_price(item_id as u8),
        _ => None,
    }
}

/// The stock a slot is filled to: unlimited stays unlimited (0), a limited
/// stock grows by the room's bonus, saturating at `u16::MAX`.
pub open spec fn max_stock_of(config_stock: u16, stock_bonus: u16) -> u16 {
    if config_stock == 0 {
        0
    } else if config_stock + stock_bonus > u16::MAX {
        u16::MAX
    } else {
        (config_stock + stock_bonus) as u16
    }
}

/// A slot resolved from its configuration, its price, the upgrader's
/// override of its availability and its stored stock (capped at the maximum).
pub open spec fn resolved_slot(
    prices: PriceConfig,
    slot_id: u8,
    slot: ShopSlotConfig,
    stock_bonus: u16,
    unlocked: Option<bool>,
    current_stock: Option<u16>,
) -> Option<ResolvedShopItem> {
    match shop_price(prices, slot.cat, slot.item) {
        None => None,
        Some(price) => {
            let max_stock = max_stock_of(slot.stock, stock_bonus);
            let stock = match current_stock {
                Some(c) => if c < max_stock { c } else { max_stock },
                None => max_stock,
            };
            Some(ResolvedShopItem {
                slot_id,
                category: slot.cat,
                item_id: slot.item,
                price,
                stock,
                max_stock,
                is_available: match unlocked {
                    Some(u) => u,
                    None => slot.avail,
                },
            })
        },
    }
}

/// Resolves one shop slot; `None` when its item has no price.
/// `unlocked` is the upgrader's override of the slot's availability and
/// `current_stock` its stored stock, both as read from the database.
pub fn resolve_shop_slot(
    config: &GameConfig,
    slot_id: u8,
    slot_config: &ShopSlotConfig,
    stock_bonus: u16,
    unlocked: Option<bool>,
    current_stock: Option<u16>,
) -> (r: Option<ResolvedShopItem>)
    ensures
        r == resolved_slot(config.prices, slot_id, *slot_config, stock_bonus, unlocked, current_stock),
{
    let price = match get_item_price(config, slot_config.cat, slot_config.item) {
        Some(p) => p,
        None => return None,
    };
    let is_available = match unlocked {
        Some(u) => u,
        None => slot_config.avail,
    };
    let config_max = slot_config.stock;
    let max_stock = if config_max == 0 {
        0
    } else {
        config_max.saturating_add(stock_bonus)
    };
    let stock = match current_stock {
        Some(current) => if current < max_stock { current } else { max_stock },
        None => max_stock,
    };
    Some(ResolvedShopItem {
        slot_id,
        category: slot_config.cat,
        item_id: slot_config.item,
        price,
        stock,
        max_stock,
        is_available,
    })
}

/// The slots of a room's shop that are on offer, in slot order. Slot `i`
/// (from 0) has id `i + 1`, truncated to a byte.
pub open spec fn offered_slots(
    prices: PriceConfig,
    slots: Seq<ShopSlotConfig>,
    stock_bonus: u16,
    unlocked: Seq<Option<bool>>,
    stocks: Seq<Option<u16>>,
    n: nat,
) -> Seq<ResolvedShopItem>
    decreases n,
{
    if n == 0 {
        Seq::empty()
    } else {
        let i = (n - 1) as int;
        let before = offered_slots(prices, slots, stock_bonus, unlocked, stocks, (n - 1) as nat);
        match resolved_slot(prices, (i + 1) as u8, slots[i], stock_bonus, unlocked[i], stocks[i]) {
            Some(item) => if item.is_available { before.push(item) } else { before },
            None => before,
        }
    }
}

/// The items a room's shop offers (none when the room has no shop).
/// `unlocked[i]` and `stocks[i]` are the stored override and stock of slot
/// `i + 1`.
pub fn get_room_shop_items(
    config: &GameConfig,
    room_id: u16,
    stock_bonus: u16,
    unlocked: &Vec<Option<bool>>,
    stocks: &Vec<Option<u16>>,
) -> (r: Vec<ResolvedShopItem>)
    ensures
        !config.shops.rooms@.contains_key(room_id) ==> r@ == Seq::<ResolvedShopItem>::empty(),
        config.shops.rooms@.contains_key(room_id) ==> {
            let slots = config.shops.rooms@[room_id].slots@;
            unlocked@.len() >= slots.len() && stocks@.len() >= slots.len() ==> r@ == offered_slots(
                config.prices,
                slots,
                stock_bonus,
                unlocked@,
                stocks@,
                slots.len(),
            )
        },
{
    let room = match config.shops.get_room(room_id) {
        Some(rc) => rc,
        None => return Vec::new(),
    };
    let mut items: Vec<ResolvedShopItem> = Vec::new();
    if unlocked.len() < room.slots.len() || stocks.len() < room.slots.len() {
        return items;
    }
    let n = room.slots.len();
    let mut i: usize = 0;
    while i < n
        invariant
            n == room.slots@.len(),
            i <= n,
            unlocked@.len() >= n,
            stocks@.len() >= n,
            items@ == offered_slots(config.prices, room.slots@, stock_bonus, unlocked@, stocks@, i as nat),
        decreases n - i,
    {
        #[verifier::truncate]
        let slot_id = (i + 1) as u8;
        let resolved = resolve_shop_slot(config, slot_id, &room.slots[i], stock_bonus, unlocked[i], stocks[i]);
        match resolved {
            Some(item) => {
                if item.is_available {
                    items.push(item);
                }
            },
            None => {},
        }
        i += 1;
    }
    items
}

/// One slot of a room's shop, on offer or not; `None` when the room has no
/// shop, the slot does not exist or its item has no price. Slot ids start at
/// 1.
pub fn get_shop_item(
    config: &GameConfig,
    room_id: u16,
    slot_id: u8,
    stock_bonus: u16,
    unlocked: Option<bool>,
    current_stock: Option<u16>,
) -> (r: Option<ResolvedShopItem>)
    requires
        slot_id >= 1,
    ensures
        r == (if config.shops.rooms@.contains_key(room_id) && slot_id - 1 < config.shops.rooms@[room_id].slots@.len() {
            resolved_slot(
                config.prices,
                slot_id,
                config.shops.rooms@[room_id].slots@[slot_id - 1],
                stock_bonus,
                unlocked,
                current_stock,
            )
        } else {
            None
        }),
{
    let room = match config.shops.get_room(room_id) {
        Some(rc) => rc,
        None => return None,
    };
    let idx = (slot_id - 1) as usize;
    if idx >= room.slots.len() {
        return None;
    }
    resolve_shop_slot(config, slot_id, &room.slots[idx], stock_bonus, unlocked, current_stock)
}

/// The slots of a category in an inventory, as numbers.
pub open spec fn category_slots(inv: Inventory, category: ShopCategory) -> Seq<int> {
    match category {
        ShopCategory::Outfit => inv.outfit_slots().map_values(|v: u16| v as int),
        ShopCategory::Item => inv.item_slots().map_values(|v: u16| v as int),
        ShopCategory::Accessory => inv.accessory_slots().map_values(|v: u16| v as int),
        ShopCategory::Tool => inv.tool_slots().map_values(|v: u8| v as int),
    }
}

/// The 1-based position of the first empty (0) entry of `s` at or after
/// index `i`, or `None` when there is none.
pub open spec fn first_empty_from(s: Seq<int>, i: nat) -> Option<u8>
    decreases s.len() - i,
{
    if i >= s.len() {
        None
    } else if s[i as int] == 0 {
        Some((i + 1) as u8)
    } else {
        first_empty_from(s, i + 1)
    }
}

/// The first empty (0) slot of nine, 1-based.
pub fn first_empty_slot(slots: [u16; 9]) -> (r: Option<u8>)
    ensures
        r == first_empty_from(slots@.map_values(|v: u16| v as int), 0),
{
    let ghost s = slots@.map_values(|v: u16| v as int);
    let mut i: usize = 0;
    while i < 9
        invariant
            i <= 9,
            s == slots@.map_values(|v: u16| v as int),
            first_empty_from(s, 0) == first_empty_from(s, i as nat),
        decreases 9 - i,
    {
        if slots[i] == 0 {
            return Some((i + 1) as u8);
        }
        i += 1;
    }
    None
}

fn first_empty_u8(slots: [u8; 9]) -> (r: Option<u8>)
    ensures
        r == first_empty_from(slots@.map_values(|v: u8| v as int), 0),
{
    let ghost s = slots@.map_values(|v: u8| v as int);
    let mut i: usize = 0;
    while i < 9
        invariant
            i <= 9,
            s == slots@.map_values(|v: u8| v as int),
            first_empty_from(s, 0) == first_empty_from(s, i as nat),
        decreases 9 - i,
    {
        if slots[i] == 0 {
            return Some((i + 1) as u8);
        }
        i += 1;
    }
    None
}

/// The first empty inventory slot (1 to 9) of a category, or `None` when the
/// category is full.
pub fn find_empty_slot(inventory: &Inventory, category: ShopCategory) -> (r: Option<u8>)
    ensures
        r == first_empty_from(category_slots(*inventory, category), 0),
{
    match category {
        ShopCategory::Outfit => first_empty_slot(inventory.outfits()),
        ShopCategory::Item => first_empty_slot(inventory.items()),
        ShopCategory::Accessory => first_empty_slot(inventory.accessories()),
        ShopCategory::Tool => first_empty_u8(inventory.tools()),
    }
}

/// The slot `first_empty_from` finds is empty, every slot before it is
/// taken, and `None` means every slot is taken.
pub proof fn lemma_first_empty(s: Seq<int>, i: nat)
    requires
        s.len() < 256,
    ensures
        match first_empty_from(s, i) {
            Some(k) => i + 1 <= k <= s.len() && s[k - 1] == 0 && forall|j: int| i <= j < k - 1 ==> s[j] != 0,
            None => forall|j: int| i <= j < s.len() ==> s[j] != 0,
        },
    decreases s.len() - i,
{
    if i < s.len() && s[i as int] != 0 {
        lemma_first_empty(s, i + 1);
    }
}

/// What a purchase request comes to.
#[derive(Debug, Clone, Copy, PartialEq, Eq, Structural)]
pub enum ShopBuyOutcome {
    /// The slot is not on offer or its category is unknown: no answer.
    Ignored,
    /// A limited slot with no stock left.
    OutOfStock,
    /// The player cannot pay the price.
    NotEnoughPoints,
    /// No free inventory slot of the item's category.
    InventoryFull,
    /// The item goes to `inv_slot`, the player keeps `new_points`, and a
    /// limited slot's stock becomes `new_stock`.
    Bought { category: ShopCategory, inv_slot: u8, new_points: u32, new_stock: Option<u16> },
}

/// The outcome of buying `item` with `points` into `inventory`, checked in
/// this order: on offer, in stock, affordable, known category, free slot.
pub open spec fn shop_buy_outcome(item: ResolvedShopItem, points: u32, inventory: Inventory) -> ShopBuyOutcome {
    let unlimited = item.max_stock == 0;
    if !item.is_available {
        ShopBuyOutcome::Ignored
    } else if !unlimited && item.stock == 0 {
        ShopBuyOutcome::OutOfStock
    } else if points < item.price {
        ShopBuyOutcome::NotEnoughPoints
    } else if !(1 <= item.category <= 4) {
        ShopBuyOutcome::Ignored
    } else {
        let category = category_of_code(item.category);
        match first_empty_from(category_slots(inventory, category), 0) {
            None => ShopBuyOutcome::InventoryFull,
            Some(s) => ShopBuyOutcome::Bought {
                category,
                inv_slot: s,
                new_points: (points - item.price) as u32,
                new_stock: if unlimited { None } else { Some((item.stock - 1) as u16) },
            },
        }
    }
}

/// The category of a code in 1..=4.
pub open spec fn category_of_code(code: u8) -> ShopCategory {
    if code == 1 {
        ShopCategory::Outfit
    } else if code == 2 {
        ShopCategory::Item
    } else if code == 3 {
        ShopCategory::Accessory
    } else {
        ShopCategory::Tool
    }
}

/// Decides a purchase of `item` by a player holding `points`.
pub fn decide_shop_buy(item: &ResolvedShopItem, points: u32, inventory: &Inventory) -> (r: ShopBuyOutcome)
    ensures
        r == shop_buy_outcome(*item, points, *inventory),
{
    let unlimited = item.max_stock == 0;
    if !item.is_available {
        return ShopBuyOutcome::Ignored;
    }
    if !unlimited && item.stock == 0 {
        return ShopBuyOutcome::OutOfStock;
    }
    if points < item.price {
        return ShopBuyOutcome::NotEnoughPoints;
    }
    let category = match ShopCategory::from_u8(item.category) {
        Some(c) => c,
        None => return ShopBuyOutcome::Ignored,
    };
    match find_empty_slot(inventory, category) {
        None => ShopBuyOutcome::InventoryFull,
        Some(inv_slot) => {
            let new_stock = if unlimited { None } else { Some(item.stock - 1) };
            ShopBuyOutcome::Bought { category, inv_slot, new_points: points - item.price, new_stock }
        },
    }
}

/// The body of a refused purchase: case 1 (out of stock) carries the slot,
/// other cases (2: not enough points or no room) carry nothing more.
pub open spec fn shop_buy_fail_message(case: u8, pos_id: u8) -> Seq<u8> {
    if case == 1 {
        le16(MSG_SHOP_BUY_FAIL) + seq![case, pos_id]
    } else {
        le16(MSG_SHOP_BUY_FAIL) + seq![case]
    }
}

/// Builds the message refusing a purchase.
pub fn write_shop_buy_fail(case: u8, pos_id: u8) -> (r: Vec<u8>)
    ensures
        r@ == shop_buy_fail_message(case, pos_id),
{
    let mut w = MessageWriter::new();
    w.write_u16(MSG_SHOP_BUY_FAIL);
    w.write_u8(case);
    if case == 1 {
        w.write_u8(pos_id);
    }
    let r = w.into_bytes();
    assert(r@ =~= shop_buy_fail_message(case, pos_id));
    r
}

/// The body of a completed purchase: category, inventory slot, item id and
/// the price truncated to 16 bits.
pub open spec fn shop_buy_message(category: u8, inv_slot: u8, item_id: u16, price: u32) -> Seq<u8> {
    le16(MSG_SHOP_BUY) + seq![category, inv_slot] + le16(item_id) + le16(price as u16)
}

/// Builds the message confirming a purchase.
pub fn write_shop_buy(category: u8, inv_slot: u8, item_id: u16, price: u32) -> (r: Vec<u8>)
    ensures
        r@ == shop_buy_message(category, inv_slot, item_id, price),
{
    let mut w = MessageWriter::new();
    w.write_u16(MSG_SHOP_BUY);
    w.write_u8(category);
    w.write_u8(inv_slot);
    w.write_u16(item_id);
    w.write_u16(price as u16);
    let r = w.into_bytes();
    assert(r@ =~= shop_buy_message(category, inv_slot, item_id, price));
    r
}

/// The stock byte shown for a slot: 0 when a limited slot is sold out, else 1.
pub open spec fn stock_flag(item: ResolvedShopItem) -> u8 {
    if item.max_stock == 0 {
        1
    } else if item.stock == 0 {
        0
    } else {
        1
    }
}

/// One slot in the shop listing: category, price (16 bits), stock flag, item.
pub open spec fn shop_entry(item: ResolvedShopItem) -> Seq<u8> {
    seq![item.category] + le16(item.price as u16) + seq![stock_flag(item)] + le16(item.item_id)
}

/// The listing entries of the first `n` items.
pub open spec fn shop_entries(items: Seq<ResolvedShopItem>, n: nat) -> Seq<u8>
    decreases n,
{
    if n == 0 {
        Seq::empty()
    } else {
        shop_entries(items, (n - 1) as nat) + shop_entry(items[n - 1])
    }
}

/// The shop listing of a room: the item count (truncated to a byte); a
/// single item is preceded by its slot id, several items are listed in slot
/// order without ids. An empty shop has no listing.
pub open spec fn room_shop_info_message(items: Seq<ResolvedShopItem>) -> Option<Seq<u8>> {
    if items.len() == 0 {
        None
    } else {
        let count = items.len() as u8;
        if count == 1 {
            Some(le16(MSG_ROOM_SHOP_INFO) + seq![count, items[0].slot_id] + shop_entry(items[0]))
        } else {
            Some(le16(MSG_ROOM_SHOP_INFO) + seq![count] + shop_entries(items, items.len()))
        }
    }
}

/// Builds the shop listing for the items a room offers.
pub fn build_room_shop_info(shop_items: &Vec<ResolvedShopItem>) -> (r: Option<Vec<u8>>)
    ensures
        match r {
            Some(v) => room_shop_info_message(shop_items@) == Some(v@),
            None => room_shop_info_message(shop_items@) is None,
        },
{
    if shop_items.len() == 0 {
        return None;
    }
    #[verifier::truncate]
    let count = shop_items.len() as u8;
    let mut w = MessageWriter::new();
    w.write_u16(MSG_ROOM_SHOP_INFO);
    w.write_u8(count);
    if count == 1 {
        let item = shop_items[0];
        w.write_u8(item.slot_id);
        write_shop_entry(&mut w, &item);
        let r = w.into_bytes();
        assert(r@ =~= le16(MSG_ROOM_SHOP_INFO) + seq![count, item.slot_id] + shop_entry(item));
        Some(r)
    } else {
        let ghost head = le16(MSG_ROOM_SHOP_INFO) + seq![count];
        assert(w@ =~= head + shop_entries(shop_items@, 0));
        let mut i: usize = 0;
        while i < shop_items.len()
            invariant
                i <= shop_items@.len(),
                w@ == head + shop_entries(shop_items@, i as nat),
            decreases shop_items@.len() - i,
        {
            let item = shop_items[i];
            write_shop_entry(&mut w, &item);
            i += 1;
            assert(w@ =~= head + shop_entries(shop_items@, i as nat));
        }
        Some(w.into_bytes())
    }
}

fn write_shop_entry(w: &mut MessageWriter, item: &ResolvedShopItem)
    ensures
        final(w)@ == old(w)@ + shop_entry(*item),
{
    let stock_value: u8 = if item.max_stock == 0 {
        1
    } else if item.stock == 0 {
        0
    } else {
        1
    };
    w.write_u8(item.category);
    w.write_u16(item.price as u16);
    w.write_u8(stock_value);
    w.write_u16(item.item_id);
    assert(w@ =~= old(w)@ + shop_entry(*item));
}

/// A resolved slot never holds more than it is filled to. With a stored
/// stock `c` it holds `c`, or the maximum when `c` is above it (so a slot
/// stored as sold out stays sold out); only without a stored stock is it
/// full. The maximum is 0 (unlimited) for an unlimited slot, else the
/// configured stock plus the room's bonus, capped at 65535. The slot exists
/// exactly when its item has a price, and keeps its id, item and price.
pub proof fn lemma_resolved_stock(
    prices: PriceConfig,
    slot_id: u8,
    slot: ShopSlotConfig,
    stock_bonus: u16,
    unlocked: Option<bool>,
    current_stock: Option<u16>,
)
    ensures
        resolved_slot(prices, slot_id, slot, stock_bonus, unlocked, current_stock) is Some
            <==> shop_price(prices, slot.cat, slot.item) is Some,
        resolved_slot(prices, slot_id, slot, stock_bonus, unlocked, current_stock) matches Some(r) ==> {
            &&& r.stock <= r.max_stock
            &&& (current_stock is None ==> r.stock == r.max_stock)
            &&& (current_stock matches Some(c) ==> (c <= r.max_stock ==> r.stock == c))
            &&& (current_stock matches Some(c) ==> (c > r.max_stock ==> r.stock == r.max_stock))
            &&& (slot.stock == 0 ==> r.max_stock == 0)
            &&& (slot.stock != 0 && slot.stock + stock_bonus <= 65535 ==> r.max_stock == slot.stock
                + stock_bonus)
            &&& (slot.stock != 0 && slot.stock + stock_bonus > 65535 ==> r.max_stock == 65535)
            &&& r.slot_id == slot_id && r.category == slot.cat && r.item_id == slot.item
            &&& Some(r.price) == shop_price(prices, slot.cat, slot.item)
        },
{
}

/// The nine slot ids of inventory category `code` (1 outfits, 2 items,
/// 3 accessories, 4 tools), read field by field.
pub open spec fn inventory_ids(inv: Inventory, code: u8) -> Seq<int> {
    if code == 1 {
        seq![inv.outfit_1 as u16 as int, inv.outfit_2 as u16 as int, inv.outfit_3 as u16 as int,
            inv.outfit_4 as u16 as int, inv.outfit_5 as u16 as int, inv.outfit_6 as u16 as int,
            inv.outfit_7 as u16 as int, inv.outfit_8 as u16 as int, inv.outfit_9 as u16 as int]
    } else if code == 2 {
        seq![inv.item_1 as u16 as int, inv.item_2 as u16 as int, inv.item_3 as u16 as int,
            inv.item_4 as u16 as int, inv.item_5 as u16 as int, inv.item_6 as u16 as int,
            inv.item_7 as u16 as int, inv.item_8 as u16 as int, inv.item_9 as u16 as int]
    } else if code == 3 {
        seq![inv.accessory_1 as u16 as int, inv.accessory_2 as u16 as int, inv.accessory_3 as u16 as int,
            inv.accessory_4 as u16 as int, inv.accessory_5 as u16 as int, inv.accessory_6 as u16 as int,
            inv.accessory_7 as u16 as int, inv.accessory_8 as u16 as int, inv.accessory_9 as u16 as int]
    } else {
        seq![inv.tool_1 as u8 as int, inv.tool_2 as u8 as int, inv.tool_3 as u8 as int,
            inv.tool_4 as u8 as int, inv.tool_5 as u8 as int, inv.tool_6 as u8 as int,
            inv.tool_7 as u8 as int, inv.tool_8 as u8 as int, inv.tool_9 as u8 as int]
    }
}

/// Category codes 1 to 4 name the outfits, items, accessories and tools of
/// an inventory, and decode to the category that encodes back to them.
pub proof fn lemma_category_codes(inv: Inventory, code: u8)
    requires
        1 <= code <= 4,
    ensures
        category_slots(inv, category_of_code(code)) == inventory_ids(inv, code),
        shop_category_code(category_of_code(code)) == code,
{
    assert(category_slots(inv, category_of_code(code)) =~= inventory_ids(inv, code));
}

/// A purchase that goes through takes the price from the points, puts the
/// item in the lowest empty slot of its category, and lowers a limited
/// stock by one; a limited slot with no stock left (and only such a slot)
/// is answered as sold out.
pub proof fn lemma_shop_buy(item: ResolvedShopItem, points: u32, inv: Inventory)
    ensures
        shop_buy_outcome(item, points, inv) is OutOfStock <==> item.is_available && item.max_stock != 0
            && item.stock == 0,
        shop_buy_outcome(item, points, inv) matches ShopBuyOutcome::Bought {
            category,
            inv_slot,
            new_points,
            new_stock,
        } ==> {
            &&& new_points + item.price == points
            &&& shop_category_code(category) == item.category
            &&& 1 <= inv_slot <= 9
            &&& inventory_ids(inv, item.category)[inv_slot - 1] == 0
            &&& forall|j: int| 0 <= j < inv_slot - 1 ==> #[trigger] inventory_ids(inv, item.category)[j] != 0
            &&& (item.max_stock == 0 ==> new_stock is None)
            &&& (item.max_stock != 0 ==> item.stock >= 1 && new_stock == Some((item.stock - 1) as u16))
        },
{
    if item.is_available && !(item.max_stock != 0 && item.stock == 0) && points >= item.price && 1
        <= item.category <= 4 {
        lemma_category_codes(inv, item.category);
        lemma_first_empty(inventory_ids(inv, item.category), 0);
    }
}

} // verus!
