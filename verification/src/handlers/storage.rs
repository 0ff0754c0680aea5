//! Item storage: 20 pages of 9 slots per inventory category, and moves
//! between storage and inventory.
//!
//! In a move request, slot numbers 1 to 9 name slots of the shown storage
//! page and numbers from 10 name inventory slots (10 is the first).

use vstd::prelude::*;

use crate::protocol::{le16, MessageWriter};

verus! {

/// A storage page (both directions).
pub const MSG_STORAGE_REQ: u16 = 56;

/// Which storage pages hold something (server to client).
pub const MSG_STORAGE_PAGES: u16 = 57;

/// A move between storage and inventory (both directions).
pub const MSG_STORAGE_MOVE: u16 = 58;

/// Slots on one storage page.
pub const SLOTS_PER_PAGE: usize = 9;

/// Pages of storage per category.
pub const TOTAL_PAGES: usize = 20;

/// The stored item at `idx`, 0 past the end.
pub open spec fn stored_at(storage: Seq<u16>, idx: int) -> u16 {
    if 0 <= idx < storage.len() { storage[idx] } else { 0 }
}

/// The nine slots of the page starting at `start`, as little-endian `u16`s.
pub open spec fn page_bytes(storage: Seq<u16>, start: int, n: nat) -> Seq<u8>
    decreases n,
{
    if n == 0 {
        Seq::empty()
    } else {
        page_bytes(storage, start, (n - 1) as nat) + le16(stored_at(storage, start + n - 1))
    }
}

/// The answer to a page request (pages 1 to 20): the page's nine items.
pub open spec fn storage_page_message(storage: Seq<u16>, page: u8) -> Option<Seq<u8>> {
    if 1 <= page <= 20 {
        Some(le16(MSG_STORAGE_REQ) + page_bytes(storage, (page - 1) * 9, 9))
    } else {
        None
    }
}

fn write_page(w: &mut MessageWriter, storage: &Vec<u16>, start: usize)
    requires
        start <= 3000,
    ensures
        final(w)@ == old(w)@ + page_bytes(storage@, start as int, 9),
{
    let mut i: usize = 0;
    while i < SLOTS_PER_PAGE
        invariant
            i <= 9,
            start <= 3000,
            w@ == old(w)@ + page_bytes(storage@, start as int, i as nat),
        decreases 9 - i,
    {
        let idx = start + i;
        let item_id = if idx < storage.len() { storage[idx] } else { 0 };
        w.write_u16(item_id);
        i += 1;
        assert(w@ =~= old(w)@ + page_bytes(storage@, start as int, i as nat));
    }
}

/// Builds the answer to a page request; `None` for a page outside 1..=20.
pub fn build_storage_page(storage: &Vec<u16>, page: u8) -> (r: Option<Vec<u8>>)
    ensures
        match r {
            Some(v) => storage_page_message(storage@, page) == Some(v@),
            None => storage_page_message(storage@, page) is None,
        },
{
    if page < 1 || page as usize > TOTAL_PAGES {
        return None;
    }
    let start = ((page - 1) as usize) * SLOTS_PER_PAGE;
    let mut w = MessageWriter::new();
    w.write_u16(MSG_STORAGE_REQ);
    write_page(&mut w, storage, start);
    Some(w.into_bytes())
}

/// Whether the page starting at `start` holds an item.
pub open spec fn page_has_items(storage: Seq<u16>, start: int) -> bool {
    exists|i: int| 0 <= i < 9 && #[trigger] stored_at(storage, start + i) != 0
}

fn has_items(storage: &Vec<u16>, start: usize) -> (r: bool)
    requires
        start <= 3000,
    ensures
        r == page_has_items(storage@, start as int),
{
    let mut i: usize = 0;
    while i < SLOTS_PER_PAGE
        invariant
            i <= 9,
            start <= 3000,
            forall|j: int| 0 <= j < i ==> #[trigger] stored_at(storage@, start + j) == 0,
        decreases 9 - i,
    {
        let idx = start + i;
        if idx < storage.len() && storage[idx] != 0 {
            assert(stored_at(storage@, start + i) != 0);
            return true;
        }
        i += 1;
    }
    false
}

/// The page flags of the first `n` pages (1: holds an item).
pub open spec fn page_flags(storage: Seq<u16>, n: nat) -> Seq<u8>
    decreases n,
{
    if n == 0 {
        Seq::empty()
    } else {
        page_flags(storage, (n - 1) as nat).push(if page_has_items(storage, (n - 1) * 9) { 1u8 } else { 0u8 })
    }
}

/// The answer to a pages request: which of the 20 pages hold an item, then
/// the first page.
pub open spec fn storage_pages_messages(storage: Seq<u16>) -> (Seq<u8>, Seq<u8>) {
    (
        le16(MSG_STORAGE_PAGES) + seq![0u8] + page_flags(storage, 20),
        le16(MSG_STORAGE_REQ) + page_bytes(storage, 0, 9),
    )
}

/// Builds the answer to a pages request.
pub fn build_storage_pages(storage: &Vec<u16>) -> (r: (Vec<u8>, Vec<u8>))
    ensures
        (r.0@, r.1@) == storage_pages_messages(storage@),
{
    let mut w = MessageWriter::new();
    w.write_u16(MSG_STORAGE_PAGES);
    w.write_u8(0);
    let ghost head = le16(MSG_STORAGE_PAGES) + seq![0u8];
    assert(w@ =~= head + page_flags(storage@, 0));
    let mut page: usize = 0;
    while page < TOTAL_PAGES
        invariant
            page <= 20,
            w@ == head + page_flags(storage@, page as nat),
        decreases 20 - page,
    {
        let flag: u8 = if has_items(storage, page * SLOTS_PER_PAGE) { 1 } else { 0 };
        w.write_u8(flag);
        page += 1;
        assert(w@ =~= head + page_flags(storage@, page as nat));
    }
    let mut first = MessageWriter::new();
    first.write_u16(MSG_STORAGE_REQ);
    write_page(&mut first, storage, 0);
    (w.into_bytes(), first.into_bytes())
}

/// Storage padded with empty slots to the full 180.
pub open spec fn padded(storage: Seq<u16>) -> Seq<u16> {
    if storage.len() >= 180 {
        storage
    } else {
        storage + Seq::new((180 - storage.len()) as nat, |i: int| 0u16)
    }
}

/// The value in a move slot: a storage slot of the page (1 to 9) or an
/// inventory slot (10 and up), 0 where there is none.
pub open spec fn move_value(storage: Seq<u16>, inv: Seq<u16>, start: int, slot: u8) -> u16 {
    if slot <= 9 {
        stored_at(storage, start + slot - 1)
    } else {
        stored_at(inv, slot - 10)
    }
}

/// Puts `v` in a move slot (where it exists).
pub open spec fn put(storage: Seq<u16>, inv: Seq<u16>, start: int, slot: u8, v: u16) -> (Seq<u16>, Seq<u16>) {
    if slot <= 9 {
        let idx = start + slot - 1;
        if 0 <= idx < storage.len() { (storage.update(idx, v), inv) } else { (storage, inv) }
    } else {
        let idx = slot - 10;
        if 0 <= idx < inv.len() { (storage, inv.update(idx, v)) } else { (storage, inv) }
    }
}

/// What a move comes to.
#[derive(Debug, Clone, PartialEq, Eq)]
pub enum StorageMoveOutcome {
    /// Both slots are empty (or the category is unknown): nothing changes.
    Nothing,
    /// The two slots swap contents: the storage (padded to 180 slots) and
    /// the inventory category as they are afterwards, and the answer.
    Moved { storage: Vec<u16>, inventory: [u16; 9], message: Vec<u8> },
}

/// The outcome of swapping two move slots of page `page`.
pub open spec fn storage_move_spec(
    r: StorageMoveOutcome,
    storage: Seq<u16>,
    inv: Seq<u16>,
    page: u8,
    first: u8,
    second: u8,
) -> bool {
    let st = padded(storage);
    let start = (page - 1) * 9;
    let a = move_value(st, inv, start, first);
    let b = move_value(st, inv, start, second);
    if a == 0 && b == 0 {
        r == StorageMoveOutcome::Nothing
    } else {
        let s1 = put(st, inv, start, first, b);
        let s2 = put(s1.0, s1.1, start, second, a);
        let status: u8 = if (first <= 9) == (second <= 9) {
            3
        } else if page_has_items(s2.0, start) {
            1
        } else {
            0
        };
        r matches StorageMoveOutcome::Moved { storage: s, inventory: i, message } && s@ == s2.0 && i@ == s2.1
            && message@ == le16(MSG_STORAGE_MOVE) + seq![status, second]
    }
}

fn get_value(storage: &Vec<u16>, inv: &[u16; 9], start: usize, slot: u8) -> (r: u16)
    requires
        slot >= 1,
        start <= 3000,
    ensures
        r == move_value(storage@, inv@, start as int, slot),
{
    if slot <= 9 {
        let idx = start + (slot - 1) as usize;
        if idx < storage.len() { storage[idx] } else { 0 }
    } else {
        let idx = (slot - 10) as usize;
        if idx < 9 { inv[idx] } else { 0 }
    }
}

fn put_value(storage: &mut Vec<u16>, inv: &mut [u16; 9], start: usize, slot: u8, v: u16)
    requires
        slot >= 1,
        start <= 3000,
    ensures
        (final(storage)@, final(inv)@) == put(old(storage)@, old(inv)@, start as int, slot, v),
{
    if slot <= 9 {
        let idx = start + (slot - 1) as usize;
        if idx < storage.len() {
            storage.set(idx, v);
        }
    } else {
        let idx = (slot - 10) as usize;
        if idx < 9 {
            inv[idx] = v;
        }
    }
}

/// Swaps the contents of two move slots of page `page`, with `inv` the
/// inventory category's nine slots.
pub fn decide_storage_move(stored: &Vec<u16>, inv: [u16; 9], page: u8, first: u8, second: u8) -> (r: StorageMoveOutcome)
    requires
        page >= 1,
        first >= 1,
        second >= 1,
    ensures
        storage_move_spec(r, stored@, inv@, page, first, second),
{
    let mut storage: Vec<u16> = Vec::new();
    let mut k: usize = 0;
    while k < stored.len()
        invariant
            k <= stored@.len(),
            storage@ == stored@.subrange(0, k as int),
        decreases stored@.len() - k,
    {
        storage.push(stored[k]);
        k += 1;
        assert(storage@ =~= stored@.subrange(0, k as int));
    }
    assert(storage@ =~= stored@);
    while storage.len() < TOTAL_PAGES * SLOTS_PER_PAGE
        invariant
            storage@.len() >= stored@.len(),
            storage@.subrange(0, stored@.len() as int) == stored@,
            forall|j: int| stored@.len() <= j < storage@.len() ==> storage@[j] == 0,
            storage@.len() > 180 ==> storage@ == stored@,
        decreases 180 - storage@.len(),
    {
        storage.push(0);
    }
    proof {
        if stored@.len() >= 180 {
            assert(storage@ =~= padded(stored@));
        } else {
            assert(storage@ =~= padded(stored@));
        }
    }
    let mut inv_items = inv;
    let start = ((page - 1) as usize) * SLOTS_PER_PAGE;
    let a = get_value(&storage, &inv_items, start, first);
    let b = get_value(&storage, &inv_items, start, second);
    if a == 0 && b == 0 {
        return StorageMoveOutcome::Nothing;
    }
    put_value(&mut storage, &mut inv_items, start, first, b);
    put_value(&mut storage, &mut inv_items, start, second, a);
    let status: u8 = if (first <= 9) == (second <= 9) {
        3
    } else if has_items(&storage, start) {
        1
    } else {
        0
    };
    let mut w = MessageWriter::new();
    w.write_u16(MSG_STORAGE_MOVE);
    w.write_u8(status);
    w.write_u8(second);
    let message = w.into_bytes();
    assert(message@ =~= le16(MSG_STORAGE_MOVE) + seq![status, second]);
    StorageMoveOutcome::Moved { storage, inventory: inv_items, message }
}

/// A move only swaps: when both slots exist, the item that was in one is
/// afterwards in the other.
pub proof fn lemma_move_swaps(storage: Seq<u16>, inv: Seq<u16>, start: int, first: u8, second: u8)
    requires
        1 <= first <= 9,
        10 <= second,
        0 <= start,
        start + first - 1 < storage.len(),
        second - 10 < inv.len(),
    ensures
        ({
            let a = move_value(storage, inv, start, first);
            let b = move_value(storage, inv, start, second);
            let s1 = put(storage, inv, start, first, b);
            let s2 = put(s1.0, s1.1, start, second, a);
            move_value(s2.0, s2.1, start, first) == b && move_value(s2.0, s2.1, start, second) == a
        }),
{
}

/// Moving between storage slot `first` (1 to 9) of page `page` (1 to 20)
/// and inventory slot `second` (10 to 18 for inventory slots 1 to 9)
/// addresses storage index `(page - 1) * 9 + first - 1` and inventory index
/// `second - 10`. Nothing happens when both are empty; otherwise their
/// contents swap, every other storage index and inventory slot keeps its
/// value, and the storage holds at least the 180 slots of the 20 pages.
pub proof fn lemma_storage_move_addresses(
    r: StorageMoveOutcome,
    storage: Seq<u16>,
    inv: Seq<u16>,
    page: u8,
    first: u8,
    second: u8,
)
    requires
        1 <= page <= 20,
        1 <= first <= 9,
        10 <= second <= 18,
        inv.len() == 9,
        storage_move_spec(r, storage, inv, page, first, second),
    ensures
        ({
            let idx = (page - 1) * 9 + first - 1;
            let j = second - 10;
            let held = if idx < storage.len() { storage[idx] } else { 0u16 };
            &&& (r is Nothing <==> held == 0 && inv[j] == 0)
            &&& r matches StorageMoveOutcome::Moved { storage: s, inventory: i, .. } ==> {
                &&& s@.len() >= 180
                &&& s@.len() >= storage.len()
                &&& s@[idx] == inv[j]
                &&& i@[j] == held
                &&& forall|k: int| 0 <= k < s@.len() && k != idx ==> #[trigger] s@[k] == (if k
                    < storage.len() {
                    storage[k]
                } else {
                    0u16
                })
                &&& forall|k: int| 0 <= k < 9 && k != j ==> #[trigger] i@[k] == inv[k]
            }
        }),
{
    let st = padded(storage);
    assert forall|k: int| 0 <= k < st.len() implies #[trigger] st[k] == (if k < storage.len() {
        storage[k]
    } else {
        0u16
    }) by {}
}

/// Moving between two storage slots `first` and `second` (1 to 9) of page
/// `page` (1 to 20) swaps storage indexes `(page - 1) * 9 + first - 1` and
/// `(page - 1) * 9 + second - 1` and leaves the inventory alone.
pub proof fn lemma_storage_move_within_page(
    r: StorageMoveOutcome,
    storage: Seq<u16>,
    inv: Seq<u16>,
    page: u8,
    first: u8,
    second: u8,
)
    requires
        1 <= page <= 20,
        1 <= first <= 9,
        1 <= second <= 9,
        first != second,
        inv.len() == 9,
        storage_move_spec(r, storage, inv, page, first, second),
    ensures
        ({
            let a = (page - 1) * 9 + first - 1;
            let b = (page - 1) * 9 + second - 1;
            let va = if a < storage.len() { storage[a] } else { 0u16 };
            let vb = if b < storage.len() { storage[b] } else { 0u16 };
            &&& (r is Nothing <==> va == 0 && vb == 0)
            &&& r matches StorageMoveOutcome::Moved { storage: s, inventory: i, .. } ==> {
                &&& s@[a] == vb
                &&& s@[b] == va
                &&& i@ == inv
            }
        }),
{
}

proof fn lemma_page_bytes(storage: Seq<u16>, start: int, n: nat)
    ensures
        page_bytes(storage, start, n).len() == 2 * n,
        forall|k: int|
            0 <= k < n ==> page_bytes(storage, start, n).subrange(2 * k, 2 * k + 2) == #[trigger] le16(
                stored_at(storage, start + k),
            ),
    decreases n,
{
    if n > 0 {
        lemma_page_bytes(storage, start, (n - 1) as nat);
        let prev = page_bytes(storage, start, (n - 1) as nat);
        let cur = page_bytes(storage, start, n);
        assert forall|k: int| 0 <= k < n implies cur.subrange(2 * k, 2 * k + 2) == #[trigger] le16(
            stored_at(storage, start + k),
        ) by {
            if k < n - 1 {
                assert(cur.subrange(2 * k, 2 * k + 2) =~= prev.subrange(2 * k, 2 * k + 2));
            } else {
                assert(cur.subrange(2 * k, 2 * k + 2) =~= le16(stored_at(storage, start + k)));
            }
        }
    }
}

/// The answer to a request for page `page` (1 to 20) is the page-request
/// type followed by the nine storage slots `(page - 1) * 9` to
/// `(page - 1) * 9 + 8`, each as a little-endian `u16` (0 past the end of
/// the storage); other pages get no answer.
pub proof fn lemma_storage_page_addresses(storage: Seq<u16>, page: u8)
    ensures
        storage_page_message(storage, page) is Some <==> 1 <= page <= 20,
        storage_page_message(storage, page) matches Some(m) ==> {
            &&& m.len() == 20
            &&& m.subrange(0, 2) == le16(MSG_STORAGE_REQ)
            &&& forall|k: int| 0 <= k < 9 ==> {
                let idx = (page - 1) * 9 + k;
                let v = if idx < storage.len() { storage[idx] } else { 0u16 };
                &&& #[trigger] m[2 + 2 * k] == (v % 256) as u8
                &&& m[3 + 2 * k] == (v / 256) as u8
            }
        },
{
    if 1 <= page <= 20 {
        let start = (page - 1) * 9;
        lemma_page_bytes(storage, start, 9);
        let m = storage_page_message(storage, page)->0;
        let pb = page_bytes(storage, start, 9);
        assert(m.subrange(0, 2) =~= le16(MSG_STORAGE_REQ));
        assert forall|k: int| 0 <= k < 9 implies {
            let idx = (page - 1) * 9 + k;
            let v = if idx < storage.len() { storage[idx] } else { 0u16 };
            &&& #[trigger] m[2 + 2 * k] == (v % 256) as u8
            &&& m[3 + 2 * k] == (v / 256) as u8
        } by {
            let w = le16(stored_at(storage, start + k));
            assert(pb.subrange(2 * k, 2 * k + 2) == w);
            assert(m[2 + 2 * k] == pb[2 * k]);
            assert(m[3 + 2 * k] == pb[2 * k + 1]);
            assert(pb[2 * k] == w[0]);
            assert(pb[2 * k + 1] == w[1]);
        }
    }
}

} // verus!
