//! Selling inventory back to the shop at a third of the buy price.
//!
//! A sell request names a category (1 outfits, 2 items, 3 accessories,
//! 4 tools), a count and that many slot numbers. Filled slots whose sell
//! price is not zero are emptied and paid for; the payment goes to the
//! wallet up to its ceiling and the rest to the bank.

use vstd::prelude::*;

use crate::config::{lookup, PriceConfig};
use crate::db::characters::Inventory;
use crate::handlers::shop::{category_of_code, category_slots};
use crate::protocol::{le16, le32, MessageWriter, MSG_SELL, MSG_SELL_REQ_PRICES};

verus! {

/// The sell price of an id in a category, truncated to 16 bits; 0 when the
/// id has no price (or the category is unknown).
pub open spec fn sell_price(prices: PriceConfig, category: u8, id: u16) -> u16 {
    let p: Option<u32> = if category == 1 {
        match lookup(prices.outfits@, id) {
            Some(v) => Some((v / 3) as u32),
            None => None,
        }
    } else if category == 2 {
        match lookup(prices.items@, id) {
            Some(e) => Some((e.price / 3) as u32),
            None => None,
        }
    } else if category == 3 {
        match lookup(prices.accessories@, id) {
            Some(v) => Some((v / 3) as u32),
            None => None,
        }
    } else if category == 4 {
        match lookup(prices.tools@, id as u8) {
            Some(e) => Some((e.price / 3) as u32),
            None => None,
        }
    } else {
        None
    };
    match p {
        Some(v) => v as u16,
        None => 0,
    }
}

/// Looks up the sell price of an id of a category.
pub fn get_sell_price(prices: &PriceConfig, category: u8, id: u16) -> (r: u16)
    ensures
        r == sell_price(*prices, category, id),
{
    let p = match category {
        1 => prices.get_outfit_sell_price(id),
        2 => prices.get_item_sell_price(id),
        3 => prices.get_accessory_sell_price(id),
        4 => match prices.get_tool_price(id as u8) {
            Some(t) => Some(t / 3),
            None => None,
        },
        _ => None,
    };
    match p {
        Some(v) => v as u16,
        None => 0,
    }
}

/// The sell prices of the filled slots among the first `n` of `slots`, in
/// slot order, as little-endian `u16`s.
pub open spec fn filled_prices(prices: PriceConfig, category: u8, slots: Seq<int>, n: nat) -> Seq<u8>
    decreases n,
{
    if n == 0 {
        Seq::empty()
    } else {
        let before = filled_prices(prices, category, slots, (n - 1) as nat);
        let id = slots[n - 1];
        if id == 0 {
            before
        } else {
            before + le16(sell_price(prices, category, id as u16))
        }
    }
}

/// The answer to a price request for a category: the sell price of each
/// filled slot; `None` for an unknown category.
pub open spec fn sell_prices_message(prices: PriceConfig, inventory: Inventory, category: u8) -> Option<Seq<u8>> {
    if 1 <= category <= 4 {
        let slots = category_slots(inventory, category_of_code(category));
        Some(le16(MSG_SELL_REQ_PRICES) + filled_prices(prices, category, slots, slots.len()))
    } else {
        None
    }
}

fn category_ids(inventory: &Inventory, category: u8) -> (r: [u16; 9])
    requires
        1 <= category <= 4,
    ensures
        r@.map_values(|v: u16| v as int) == category_slots(*inventory, category_of_code(category)),
{
    if category == 1 {
        let a = inventory.outfits();
        assert(a@.map_values(|v: u16| v as int) =~= category_slots(*inventory, category_of_code(category)));
        a
    } else if category == 2 {
        let a = inventory.items();
        assert(a@.map_values(|v: u16| v as int) =~= category_slots(*inventory, category_of_code(category)));
        a
    } else if category == 3 {
        let a = inventory.accessories();
        assert(a@.map_values(|v: u16| v as int) =~= category_slots(*inventory, category_of_code(category)));
        a
    } else {
        let t = inventory.tools();
        let a: [u16; 9] = [
            t[0] as u16, t[1] as u16, t[2] as u16, t[3] as u16, t[4] as u16,
            t[5] as u16, t[6] as u16, t[7] as u16, t[8] as u16,
        ];
        assert(a@.map_values(|v: u16| v as int) =~= category_slots(*inventory, category_of_code(category)));
        a
    }
}

/// Builds the answer to a price request.
pub fn build_sell_prices(prices: &PriceConfig, inventory: &Inventory, category: u8) -> (r: Option<Vec<u8>>)
    ensures
        match r {
            Some(v) => sell_prices_message(*prices, *inventory, category) == Some(v@),
            None => sell_prices_message(*prices, *inventory, category) is None,
        },
{
    if category < 1 || category > 4 {
        return None;
    }
    let ids = category_ids(inventory, category);
    let ghost slots = ids@.map_values(|v: u16| v as int);
    let mut w = MessageWriter::new();
    w.write_u16(MSG_SELL_REQ_PRICES);
    let ghost head = le16(MSG_SELL_REQ_PRICES);
    let mut i: usize = 0;
    while i < 9
        invariant
            i <= 9,
            slots == ids@.map_values(|v: u16| v as int),
            w@ == head + filled_prices(*prices, category, slots, i as nat),
        decreases 9 - i,
    {
        let id = ids[i];
        if id != 0 {
            w.write_u16(get_sell_price(prices, category, id));
        }
        i += 1;
        assert(w@ =~= head + filled_prices(*prices, category, slots, i as nat));
    }
    Some(w.into_bytes())
}

/// The slot numbers of a sell request: `count` bytes after the category and
/// the count, of which those in 1..=9 are kept, in order. `None` when the
/// body is shorter than 2 bytes.
pub open spec fn sell_request_slots(payload: Seq<u8>) -> Option<(u8, Seq<u8>)> {
    if payload.len() < 2 {
        None
    } else {
        let count = payload[1] as int;
        let end = if 2 + count <= payload.len() { 2 + count } else { payload.len() as int };
        Some((payload[0], payload.subrange(2, end).filter(|s: u8| 1 <= s <= 9)))
    }
}

/// Reads a sell request: the category and the valid slot numbers.
pub fn parse_sell_request(payload: &[u8]) -> (r: Option<(u8, Vec<u8>)>)
    ensures
        match r {
            Some((c, v)) => sell_request_slots(payload@) == Some((c, v@)),
            None => sell_request_slots(payload@) is None,
        },
{
    if payload.len() < 2 {
        return None;
    }
    let category = payload[0];
    let count = payload[1] as usize;
    let end = if count <= payload.len() - 2 { 2 + count } else { payload.len() };
    let ghost pred = |s: u8| 1 <= s <= 9;
    let mut slots: Vec<u8> = Vec::new();
    let mut i: usize = 2;
    while i < end
        invariant
            2 <= i <= end <= payload@.len(),
            pred == (|s: u8| 1 <= s <= 9),
            slots@ == payload@.subrange(2, i as int).filter(pred),
        decreases end - i,
    {
        let s = payload[i];
        if 1 <= s && s <= 9 {
            slots.push(s);
        }
        i += 1;
        proof {
            let b = payload@.subrange(2, i as int);
            let a = payload@.subrange(2, i as int - 1);
            assert(b.drop_last() =~= a);
            assert(b.last() == s);
            reveal(Seq::filter);
            assert(b.filter(pred) == (if pred(s) { a.filter(pred).push(s) } else { a.filter(pred) }));
        }
    }
    Some((category, slots))
}

/// The total paid for the first `n` requested slots: each filled slot with a
/// non-zero price is paid for, by the inventory as it was before the sale
/// (a slot named twice is paid twice).
pub open spec fn sale_total(prices: PriceConfig, category: u8, slots: Seq<int>, requested: Seq<u8>, n: nat) -> nat
    decreases n,
{
    if n == 0 {
        0
    } else {
        let before = sale_total(prices, category, slots, requested, (n - 1) as nat);
        let id = slots[requested[n - 1] - 1];
        if id != 0 && sell_price(prices, category, id as u16) > 0 {
            before + sell_price(prices, category, id as u16) as nat
        } else {
            before
        }
    }
}

/// The slots emptied by the sale of the first `n` requested slots, in request
/// order.
pub open spec fn sold_slots(prices: PriceConfig, category: u8, slots: Seq<int>, requested: Seq<u8>, n: nat) -> Seq<u8>
    decreases n,
{
    if n == 0 {
        Seq::empty()
    } else {
        let before = sold_slots(prices, category, slots, requested, (n - 1) as nat);
        let id = slots[requested[n - 1] - 1];
        if id != 0 && sell_price(prices, category, id as u16) > 0 {
            before.push(requested[n - 1])
        } else {
            before
        }
    }
}

/// What a sale comes to: the slots to empty and the points earned.
#[derive(Debug, Clone, PartialEq, Eq)]
pub struct SalePlan {
    pub sold: Vec<u8>,
    pub total_earned: u64,
}

/// Prices a sale of the requested slots (each in 1..=9) of a category;
/// `None` for an unknown category.
pub fn plan_sale(prices: &PriceConfig, inventory: &Inventory, category: u8, requested: &Vec<u8>) -> (r: Option<SalePlan>)
    requires
        forall|i: int| 0 <= i < requested@.len() ==> 1 <= #[trigger] requested@[i] <= 9,
        requested@.len() <= 255,
    ensures
        r is Some <==> 1 <= category <= 4,
        r matches Some(plan) ==> {
            let slots = category_slots(*inventory, category_of_code(category));
            &&& plan.total_earned == sale_total(*prices, category, slots, requested@, requested@.len())
            &&& plan.sold@ == sold_slots(*prices, category, slots, requested@, requested@.len())
        },
{
    if category < 1 || category > 4 {
        return None;
    }
    let ids = category_ids(inventory, category);
    let ghost slots = ids@.map_values(|v: u16| v as int);
    let mut total: u64 = 0;
    let mut sold: Vec<u8> = Vec::new();
    let mut i: usize = 0;
    while i < requested.len()
        invariant
            i <= requested@.len() <= 255,
            forall|j: int| 0 <= j < requested@.len() ==> 1 <= #[trigger] requested@[j] <= 9,
            slots == ids@.map_values(|v: u16| v as int),
            slots.len() == 9,
            total == sale_total(*prices, category, slots, requested@, i as nat),
            total <= i * 65535,
            sold@ == sold_slots(*prices, category, slots, requested@, i as nat),
        decreases requested@.len() - i,
    {
        let slot = requested[i];
        let id = ids[(slot - 1) as usize];
        if id != 0 {
            let price = get_sell_price(prices, category, id);
            if price > 0 {
                total = total + price as u64;
                sold.push(slot);
            }
        }
        i += 1;
    }
    Some(SalePlan { sold, total_earned: total })
}

/// The answer to a sale: the points earned, truncated to 32 bits.
pub open spec fn sell_message(total_earned: u64) -> Seq<u8> {
    le16(MSG_SELL) + le32(total_earned as u32)
}

/// Builds the answer to a sale.
pub fn write_sell(total_earned: u64) -> (r: Vec<u8>)
    ensures
        r@ == sell_message(total_earned),
{
    let mut w = MessageWriter::new();
    w.write_u16(MSG_SELL);
    w.write_u32(total_earned as u32);
    let r = w.into_bytes();
    assert(r@ =~= sell_message(total_earned));
    r
}

/// The bank balance after a sale's overflow: capped at `max_bank`.
pub open spec fn bank_after_overflow(current_bank: i64, overflow: u64, max_bank: u32) -> i64 {
    let sum = current_bank as u64 + overflow;
    if sum > max_bank { max_bank as i64 } else { sum as i64 }
}

/// Adds a sale's overflow to a bank balance (read as unsigned), capped at
/// `max_bank`.
pub fn deposit_overflow(current_bank: i64, overflow: u64, max_bank: u32) -> (r: i64)
    requires
        (current_bank as u64) + overflow <= u64::MAX,
    ensures
        r == bank_after_overflow(current_bank, overflow, max_bank),
{
    let sum = current_bank as u64 + overflow;
    if sum > max_bank as u64 { max_bank as i64 } else { sum as i64 }
}

/// Selling gives a third of the buy price, rounded down and truncated to 16
/// bits: for outfits (1), items (2), accessories (3) and tools (4, looked up
/// by the id's low byte) with a configured price `p`, the sell price is
/// `p / 3`; an id without a price, or another category, sells for 0.
pub proof fn lemma_sell_price_is_third(prices: PriceConfig, category: u8, id: u16)
    ensures
        category == 1 && prices.outfits@.contains_key(id) ==> sell_price(prices, category, id)
            == (prices.outfits@[id] / 3) as u16,
        category == 2 && prices.items@.contains_key(id) ==> sell_price(prices, category, id)
            == (prices.items@[id].price / 3) as u16,
        category == 3 && prices.accessories@.contains_key(id) ==> sell_price(prices, category, id)
            == (prices.accessories@[id] / 3) as u16,
        category == 4 && prices.tools@.contains_key(id as u8) ==> sell_price(prices, category, id)
            == (prices.tools@[id as u8].price / 3) as u16,
        category == 1 && !prices.outfits@.contains_key(id) ==> sell_price(prices, category, id) == 0,
        category == 2 && !prices.items@.contains_key(id) ==> sell_price(prices, category, id) == 0,
        category == 3 && !prices.accessories@.contains_key(id) ==> sell_price(prices, category, id) == 0,
        category == 4 && !prices.tools@.contains_key(id as u8) ==> sell_price(prices, category, id) == 0,
        !(1 <= category <= 4) ==> sell_price(prices, category, id) == 0,
{
}

/// A sale of one slot `s` pays the sell price of the id in that slot (a
/// third of its buy price) and empties it, when the slot is filled and the
/// price is not zero; otherwise it pays nothing and empties nothing.
pub proof fn lemma_sale_of_one_slot(prices: PriceConfig, category: u8, slots: Seq<int>, s: u8)
    requires
        1 <= s <= 9,
        slots.len() == 9,
    ensures
        ({
            let id = slots[s - 1];
            let paid = id != 0 && sell_price(prices, category, id as u16) > 0;
            &&& sale_total(prices, category, slots, seq![s], 1) == (if paid {
                sell_price(prices, category, id as u16) as nat
            } else {
                0
            })
            &&& sold_slots(prices, category, slots, seq![s], 1) == (if paid {
                seq![s]
            } else {
                Seq::<u8>::empty()
            })
        }),
{
    let r = seq![s];
    assert(r[0] == s);
    assert(sale_total(prices, category, slots, r, 0) == 0);
    assert(sold_slots(prices, category, slots, r, 0) == Seq::<u8>::empty());
    assert(Seq::<u8>::empty().push(s) =~= r);
}

/// Selling the slots of two requests one after the other pays the sum of
/// what each pays and empties the slots of both, in order.
pub proof fn lemma_sale_adds_up(prices: PriceConfig, category: u8, slots: Seq<int>, a: Seq<u8>, b: Seq<u8>)
    ensures
        sale_total(prices, category, slots, a + b, (a.len() + b.len()) as nat) == sale_total(
            prices,
            category,
            slots,
            a,
            a.len(),
        ) + sale_total(prices, category, slots, b, b.len()),
        sold_slots(prices, category, slots, a + b, (a.len() + b.len()) as nat) == sold_slots(
            prices,
            category,
            slots,
            a,
            a.len(),
        ) + sold_slots(prices, category, slots, b, b.len()),
    decreases b.len(),
{
    if b.len() == 0 {
        lemma_sale_prefix(prices, category, slots, a, a + b, a.len());
        assert(sold_slots(prices, category, slots, a, a.len()) + Seq::<u8>::empty() =~= sold_slots(
            prices,
            category,
            slots,
            a,
            a.len(),
        ));
    } else {
        let b1 = b.drop_last();
        lemma_sale_adds_up(prices, category, slots, a, b1);
        assert((a + b).drop_last() =~= a + b1);
        lemma_sale_prefix(prices, category, slots, a + b1, a + b, (a.len() + b1.len()) as nat);
        lemma_sale_prefix(prices, category, slots, b1, b, b1.len());
        assert((a + b)[a.len() + b.len() - 1] == b[b.len() - 1]);
        let x = sold_slots(prices, category, slots, a, a.len());
        let y = sold_slots(prices, category, slots, b1, b1.len());
        assert((x + y).push(b[b.len() - 1]) =~= x + y.push(b[b.len() - 1]));
    }
}

/// The first `n` requests are paid alike in a longer request list that
/// starts with them.
proof fn lemma_sale_prefix(prices: PriceConfig, category: u8, slots: Seq<int>, a: Seq<u8>, b: Seq<u8>, n: nat)
    requires
        n <= a.len(),
        n <= b.len(),
        forall|i: int| 0 <= i < n ==> a[i] == b[i],
    ensures
        sale_total(prices, category, slots, a, n) == sale_total(prices, category, slots, b, n),
        sold_slots(prices, category, slots, a, n) == sold_slots(prices, category, slots, b, n),
    decreases n,
{
    if n > 0 {
        lemma_sale_prefix(prices, category, slots, a, b, (n - 1) as nat);
    }
}

} // verus!
