//! Clan founding and the clan messages.
//!
//! Founding a clan costs points and a set of items (the proof stones of
//! the configuration). A player outside any clan with a free, well-sized
//! name, enough points and every required item founds it; the items are
//! taken from the first slots that hold them, one slot per required item.

use vstd::prelude::*;
use vstd::string::StringSliceAdditionalSpecFns;
use vstd::utf8::encode_utf8;

use crate::config::{ClanCreationConfig, ClanLimitsConfig};
use crate::protocol::{le16, MessageWriter};

verus! {

/// Clan founding (both directions).
pub const MSG_CLAN_CREATE: u16 = 126;

/// Clan membership news (server to client).
pub const MSG_CLAN_INFO: u16 = 130;

/// The first slot index at or after `j` that holds `id` and is not in
/// `used`.
pub open spec fn first_unused_match(items: Seq<u16>, used: Seq<int>, id: u16, j: nat) -> Option<int>
    decreases items.len() - j,
{
    if j >= items.len() {
        None
    } else if !used.contains(j as int) && items[j as int] == id {
        Some(j as int)
    } else {
        first_unused_match(items, used, id, j + 1)
    }
}

/// The slot indices that pay for the first `n` required items, each the
/// first slot holding the item that no earlier item took; `None` when one
/// is missing.
pub open spec fn match_required(items: Seq<u16>, required: Seq<u16>, n: nat) -> Option<Seq<int>>
    decreases n,
{
    if n == 0 {
        Some(Seq::empty())
    } else {
        match match_required(items, required, (n - 1) as nat) {
            None => None,
            Some(used) => match first_unused_match(items, used, required[n - 1], 0) {
                None => None,
                Some(j) => Some(used.push(j)),
            },
        }
    }
}

/// What a founding request comes to.
#[derive(Debug, Clone, PartialEq, Eq)]
pub enum ClanCreateOutcome {
    /// Refused without an answer (already in a clan, too few points,
    /// missing items).
    Ignored,
    /// The name is refused (length or already taken): error 1 is sent.
    NameError,
    /// The clan is founded: the wallet drops to `new_points` and the item
    /// slots `slots` (0-based) are emptied.
    Create { new_points: u32, slots: Vec<usize> },
}

/// The outcome of a founding request, checked in this order: not in a clan,
/// name length (in bytes) within the limits, name free, enough points, all
/// required items held.
pub open spec fn clan_create_spec(
    r: ClanCreateOutcome,
    in_clan: bool,
    name: Seq<char>,
    name_taken: bool,
    points: u32,
    creation: ClanCreationConfig,
    limits: ClanLimitsConfig,
    items: Seq<u16>,
) -> bool {
    let len = encode_utf8(name).len() as usize;
    if in_clan {
        r == ClanCreateOutcome::Ignored
    } else if len < limits.min_name_length || len > limits.max_name_length || name_taken {
        r == ClanCreateOutcome::NameError
    } else if points < creation.cost {
        r == ClanCreateOutcome::Ignored
    } else {
        match match_required(items, creation.required_items@, creation.required_items@.len()) {
            None => r == ClanCreateOutcome::Ignored,
            Some(used) => r matches ClanCreateOutcome::Create { new_points, slots }
                && new_points == points - creation.cost
                && slots@.map_values(|s: usize| s as int) == used,
        }
    }
}

/// Whether a name's length in bytes lies within the limits; checked before
/// the name is looked up.
pub fn clan_name_length_ok(name: &str, limits: &ClanLimitsConfig) -> (r: bool)
    ensures
        r == (limits.min_name_length <= (encode_utf8(name@).len() as usize) <= limits.max_name_length),
{
    let n = name.len();
    proof {
        assert(name.spec_bytes() == encode_utf8(name@));
    }
    n >= limits.min_name_length && n <= limits.max_name_length
}

fn contains_index(used: &Vec<usize>, j: usize) -> (r: bool)
    ensures
        r == used@.map_values(|s: usize| s as int).contains(j as int),
{
    let ghost u = used@.map_values(|s: usize| s as int);
    let mut k: usize = 0;
    while k < used.len()
        invariant
            k <= used@.len(),
            u == used@.map_values(|s: usize| s as int),
            forall|m: int| 0 <= m < k ==> u[m] != j as int,
        decreases used@.len() - k,
    {
        if used[k] == j {
            assert(u[k as int] == j as int);
            return true;
        }
        k += 1;
    }
    false
}

fn find_unused(items: &[u16; 9], used: &Vec<usize>, id: u16) -> (r: Option<usize>)
    ensures
        match r {
            Some(j) => first_unused_match(items@, used@.map_values(|s: usize| s as int), id, 0) == Some(j as int),
            None => first_unused_match(items@, used@.map_values(|s: usize| s as int), id, 0) is None,
        },
{
    let ghost u = used@.map_values(|s: usize| s as int);
    let mut j: usize = 0;
    while j < 9
        invariant
            j <= 9,
            u == used@.map_values(|s: usize| s as int),
            first_unused_match(items@, u, id, 0) == first_unused_match(items@, u, id, j as nat),
        decreases 9 - j,
    {
        let taken = contains_index(used, j);
        if !taken && items[j] == id {
            return Some(j);
        }
        j += 1;
    }
    None
}

/// Decides a founding request. `in_clan` and `points` come from the session,
/// `name_taken` from the clan table, `items` are the item slots.
pub fn decide_clan_create(
    in_clan: bool,
    name: &str,
    name_taken: bool,
    points: u32,
    creation: &ClanCreationConfig,
    limits: &ClanLimitsConfig,
    items: &[u16; 9],
) -> (r: ClanCreateOutcome)
    ensures
        clan_create_spec(r, in_clan, name@, name_taken, points, *creation, *limits, items@),
{
    if in_clan {
        return ClanCreateOutcome::Ignored;
    }
    if !clan_name_length_ok(name, limits) || name_taken {
        return ClanCreateOutcome::NameError;
    }
    if points < creation.cost {
        return ClanCreateOutcome::Ignored;
    }
    let req = &creation.required_items;
    let mut used: Vec<usize> = Vec::new();
    let mut i: usize = 0;
    while i < req.len()
        invariant
            i <= req@.len(),
            req@ == creation.required_items@,
            !in_clan && !name_taken && points >= creation.cost,
            limits.min_name_length <= (encode_utf8(name@).len() as usize) <= limits.max_name_length,
            match_required(items@, req@, i as nat) == Some(used@.map_values(|s: usize| s as int)),
        decreases req@.len() - i,
    {
        match find_unused(items, &used, req[i]) {
            None => {
                proof {
                    let u = used@.map_values(|s: usize| s as int);
                    assert(first_unused_match(items@, u, req@[i as int], 0) is None);
                    assert(match_required(items@, req@, (i + 1) as nat) is None);
                    lemma_match_required_stays_none(items@, req@, (i + 1) as nat, req@.len());
                }
                return ClanCreateOutcome::Ignored;
            },
            Some(j) => {
                let ghost before = used@.map_values(|s: usize| s as int);
                used.push(j);
                proof {
                    assert(used@.map_values(|s: usize| s as int) =~= before.push(j as int));
                }
            },
        }
        i += 1;
    }
    ClanCreateOutcome::Create { new_points: points - creation.cost, slots: used }
}

/// Once a required item is missing, every longer list of requirements is
/// missing one too.
proof fn lemma_match_required_stays_none(items: Seq<u16>, required: Seq<u16>, n: nat, m: nat)
    requires
        n <= m,
        match_required(items, required, n) is None,
    ensures
        match_required(items, required, m) is None,
    decreases m - n,
{
    if n < m {
        lemma_match_required_stays_none(items, required, n, (m - 1) as nat);
    }
}

/// The slots a founding takes are distinct, each holds the item it pays
/// for, and there is one per required item.
pub proof fn lemma_clan_items_taken(items: Seq<u16>, required: Seq<u16>, n: nat)
    requires
        n <= required.len(),
    ensures
        match_required(items, required, n) matches Some(used) ==> {
            &&& used.len() == n
            &&& forall|k: int| 0 <= k < n ==> 0 <= #[trigger] used[k] < items.len() && items[used[k]] == required[k]
            &&& forall|a: int, b: int| 0 <= a < b < n ==> used[a] != used[b]
        },
    decreases n,
{
    if n > 0 {
        lemma_clan_items_taken(items, required, (n - 1) as nat);
        match match_required(items, required, (n - 1) as nat) {
            None => {},
            Some(used) => {
                lemma_first_unused_match(items, used, required[n - 1], 0);
            },
        }
    }
}

/// A match found by `first_unused_match` holds the item and is unused.
proof fn lemma_first_unused_match(items: Seq<u16>, used: Seq<int>, id: u16, j: nat)
    ensures
        first_unused_match(items, used, id, j) matches Some(k) ==> j <= k < items.len() && items[k] == id
            && !used.contains(k),
    decreases items.len() - j,
{
    if j < items.len() && !(!used.contains(j as int) && items[j as int] == id) {
        lemma_first_unused_match(items, used, id, j + 1);
    }
}

/// The refusal of a founding request with an error code.
pub open spec fn clan_create_error_message(code: u8) -> Seq<u8> {
    le16(MSG_CLAN_CREATE) + seq![code]
}

/// Builds the refusal of a founding request.
pub fn build_clan_create_error(code: u8) -> (r: Vec<u8>)
    ensures
        r@ == clan_create_error_message(code),
{
    let mut w = MessageWriter::new();
    w.write_u16(MSG_CLAN_CREATE);
    w.write_u8(code);
    let r = w.into_bytes();
    assert(r@ =~= clan_create_error_message(code));
    r
}

/// Tells a player they are in a clan (type 1): the clan id's low 16 bits,
/// whether they lead it, whether it has a base.
pub open spec fn clan_info_self_message(clan_id: i64, is_leader: bool, has_base: bool) -> Seq<u8> {
    le16(MSG_CLAN_INFO) + seq![1u8] + le16(clan_id as u16) + seq![
        if is_leader { 1u8 } else { 0u8 },
        if has_base { 1u8 } else { 0u8 },
    ]
}

/// Builds the "you are in a clan" message.
pub fn build_clan_info_self(clan_id: i64, is_leader: bool, has_base: bool) -> (r: Vec<u8>)
    ensures
        r@ == clan_info_self_message(clan_id, is_leader, has_base),
{
    let mut w = MessageWriter::new();
    w.write_u16(MSG_CLAN_INFO);
    w.write_u8(1);
    w.write_u16(clan_id as u16);
    w.write_u8(if is_leader { 1 } else { 0 });
    w.write_u8(if has_base { 1 } else { 0 });
    let r = w.into_bytes();
    assert(r@ =~= clan_info_self_message(clan_id, is_leader, has_base));
    r
}

/// Tells everyone which clan a player is in (type 2; clan 0 is none).
pub open spec fn clan_info_broadcast_message(player_id: u16, clan_id: i64) -> Seq<u8> {
    le16(MSG_CLAN_INFO) + seq![2u8] + le16(player_id) + le16(clan_id as u16)
}

/// Builds the clan membership broadcast.
pub fn build_clan_info_broadcast(player_id: u16, clan_id: i64) -> (r: Vec<u8>)
    ensures
        r@ == clan_info_broadcast_message(player_id, clan_id),
{
    let mut w = MessageWriter::new();
    w.write_u16(MSG_CLAN_INFO);
    w.write_u8(2);
    w.write_u16(player_id);
    w.write_u16(clan_id as u16);
    let r = w.into_bytes();
    assert(r@ =~= clan_info_broadcast_message(player_id, clan_id));
    r
}

/// Tells a player they left or lost their clan (type 6).
pub open spec fn clan_info_left_message() -> Seq<u8> {
    le16(MSG_CLAN_INFO) + seq![6u8]
}

/// Builds the "you are no longer in a clan" message.
pub fn build_clan_info_left() -> (r: Vec<u8>)
    ensures
        r@ == clan_info_left_message(),
{
    let mut w = MessageWriter::new();
    w.write_u16(MSG_CLAN_INFO);
    w.write_u8(6);
    let r = w.into_bytes();
    assert(r@ =~= clan_info_left_message());
    r
}

} // verus!
