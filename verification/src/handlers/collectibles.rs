//! World collectibles: the spawn points of a room with their randomised
//! respawn delays, the list shown on entering a room, and picking one up.

use rand::Rng;
use vstd::prelude::*;

use crate::config::{CollectibleSpawnConfig, GameConfig};
use crate::game::{ActiveCollectible, CollectibleSpawn};
use crate::handlers::shop::{first_empty_from, first_empty_slot};
use crate::protocol::{le16, MessageWriter};

verus! {

/// The collectibles of a room (server to client).
pub const MSG_COLLECTIBLE_INFO: u16 = 32;

/// A collectible taken by someone else (server broadcast).
pub const MSG_COLLECTIBLE_TAKEN: u16 = 33;

/// A collectible taken by the player (both directions).
pub const MSG_COLLECTIBLE_TAKE_SELF: u16 = 34;

/// A number drawn uniformly from `0..=max` with `rand`'s thread generator
/// (`Rng::gen_range`). It is random: only its range is known.
#[verifier::external_body]
fn random_up_to(max: u32) -> (r: u32)
    ensures
        r <= max,
{
    rand::thread_rng().gen_range(0..=max)
}

/// Whether `spawn` is the runtime form of `cfg`: same id, item and place,
/// and a respawn delay of the configured minutes plus at most the
/// configured variance, in seconds.
pub open spec fn spawn_from_config(spawn: CollectibleSpawn, cfg: CollectibleSpawnConfig) -> bool {
    &&& spawn.col_id == cfg.id
    &&& spawn.item_id == cfg.item
    &&& spawn.x == cfg.x
    &&& spawn.y == cfg.y
    &&& spawn.respawn_secs matches Some(secs) && cfg.respawn * 60 <= secs <= cfg.respawn * 60 + cfg.variance * 60
}

/// The spawn points of a room's configuration, each with a respawn delay
/// drawn between its minutes and its minutes plus variance (in seconds);
/// none for a room without collectibles.
pub fn get_room_collectibles(config: &GameConfig, room_id: u16) -> (r: Vec<CollectibleSpawn>)
    requires
        config.collectibles.rooms@.contains_key(room_id) ==> forall|i: int|
            0 <= i < config.collectibles.rooms@[room_id].spawns@.len() ==> {
                let s = #[trigger] config.collectibles.rooms@[room_id].spawns@[i];
                s.respawn * 60 + s.variance * 60 <= u32::MAX
            },
    ensures
        !config.collectibles.rooms@.contains_key(room_id) ==> r@.len() == 0,
        config.collectibles.rooms@.contains_key(room_id) ==> {
            let spawns = config.collectibles.rooms@[room_id].spawns@;
            &&& r@.len() == spawns.len()
            &&& forall|i: int| 0 <= i < spawns.len() ==> spawn_from_config(#[trigger] r@[i], spawns[i])
        },
{
    let room = match config.collectibles.get_room(room_id) {
        Some(rc) => rc,
        None => return Vec::new(),
    };
    let mut out: Vec<CollectibleSpawn> = Vec::new();
    let mut i: usize = 0;
    while i < room.spawns.len()
        invariant
            i <= room.spawns@.len(),
            out@.len() == i,
            forall|j: int| 0 <= j < room.spawns@.len() ==> {
                let s = #[trigger] room.spawns@[j];
                s.respawn * 60 + s.variance * 60 <= u32::MAX
            },
            forall|j: int| 0 <= j < i ==> spawn_from_config(#[trigger] out@[j], room.spawns@[j]),
        decreases room.spawns@.len() - i,
    {
        let spawn = &room.spawns[i];
        let base = spawn.respawn * 60;
        let variance = spawn.variance * 60;
        let extra = if variance > 0 { random_up_to(variance) } else { 0 };
        out.push(CollectibleSpawn {
            col_id: spawn.id,
            item_id: spawn.item,
            x: spawn.x,
            y: spawn.y,
            respawn_secs: Some(base + extra),
        });
        i += 1;
    }
    out
}

/// One collectible in the room list: id, item and position.
pub open spec fn collectible_entry(c: ActiveCollectible) -> Seq<u8> {
    seq![c.spawn.col_id] + le16(c.spawn.item_id) + le16(c.spawn.x) + le16(c.spawn.y)
}

/// The entries of the first `n` collectibles.
pub open spec fn collectible_entries(cs: Seq<ActiveCollectible>, n: nat) -> Seq<u8>
    decreases n,
{
    if n == 0 {
        Seq::empty()
    } else {
        collectible_entries(cs, (n - 1) as nat) + collectible_entry(cs[n - 1])
    }
}

/// The room list of available collectibles: at most 255 of them, with
/// their count; nothing when none is available.
pub open spec fn collectible_info_message(cs: Seq<ActiveCollectible>) -> Option<Seq<u8>> {
    if cs.len() == 0 {
        None
    } else {
        let count: nat = if cs.len() < 255 { cs.len() } else { 255 };
        Some(le16(MSG_COLLECTIBLE_INFO) + seq![count as u8] + collectible_entries(cs, count))
    }
}

/// Builds the room list of available collectibles.
pub fn write_collectible_info(available: &Vec<ActiveCollectible>) -> (r: Option<Vec<u8>>)
    ensures
        match r {
            Some(v) => collectible_info_message(available@) == Some(v@),
            None => collectible_info_message(available@) is None,
        },
{
    if available.len() == 0 {
        return None;
    }
    let count: usize = if available.len() < 255 { available.len() } else { 255 };
    let mut w = MessageWriter::new();
    w.write_u16(MSG_COLLECTIBLE_INFO);
    w.write_u8(count as u8);
    let ghost head = le16(MSG_COLLECTIBLE_INFO) + seq![count as u8];
    assert(w@ =~= head + collectible_entries(available@, 0));
    let mut i: usize = 0;
    while i < count
        invariant
            i <= count <= available@.len(),
            w@ == head + collectible_entries(available@, i as nat),
        decreases count - i,
    {
        let c = available[i];
        w.write_u8(c.spawn.col_id);
        w.write_u16(c.spawn.item_id);
        w.write_u16(c.spawn.x);
        w.write_u16(c.spawn.y);
        i += 1;
        assert(w@ =~= head + collectible_entries(available@, i as nat));
    }
    Some(w.into_bytes())
}

/// The item slot a taken collectible goes to: the first empty one, or slot
/// 1 when the character has no inventory row yet.
pub open spec fn collectible_slot(items: Option<Seq<u16>>) -> Option<u8> {
    match items {
        Some(s) => first_empty_from(s.map_values(|v: u16| v as int), 0),
        None => Some(1),
    }
}

/// Picks the item slot for a taken collectible.
pub fn collectible_target_slot(items: Option<[u16; 9]>) -> (r: Option<u8>)
    ensures
        r == collectible_slot(
            match items {
                Some(a) => Some(a@),
                None => None,
            },
        ),
{
    match items {
        None => Some(1),
        Some(a) => first_empty_slot(a),
    }
}

/// The respawn delay stored for a taken collectible, in seconds (3600 when
/// the spawn has none).
pub fn stored_respawn_secs(spawn: &CollectibleSpawn) -> (r: u32)
    ensures
        r == match spawn.respawn_secs {
            Some(s) => s,
            None => 3600,
        },
{
    match spawn.respawn_secs {
        Some(s) => s,
        None => 3600,
    }
}

/// The confirmation to the taker: slot and item.
pub open spec fn take_self_message(slot: u8, item_id: u16) -> Seq<u8> {
    le16(MSG_COLLECTIBLE_TAKE_SELF) + seq![slot] + le16(item_id)
}

/// Builds the confirmation to the taker.
pub fn build_take_self(slot: u8, item_id: u16) -> (r: Vec<u8>)
    ensures
        r@ == take_self_message(slot, item_id),
{
    let mut w = MessageWriter::new();
    w.write_u16(MSG_COLLECTIBLE_TAKE_SELF);
    w.write_u8(slot);
    w.write_u16(item_id);
    let r = w.into_bytes();
    assert(r@ =~= take_self_message(slot, item_id));
    r
}

/// The notice to the rest of the room: which collectible went.
pub open spec fn taken_message(col_id: u8) -> Seq<u8> {
    le16(MSG_COLLECTIBLE_TAKEN) + seq![col_id]
}

/// Builds the notice to the rest of the room.
pub fn build_taken(col_id: u8) -> (r: Vec<u8>)
    ensures
        r@ == taken_message(col_id),
{
    let mut w = MessageWriter::new();
    w.write_u16(MSG_COLLECTIBLE_TAKEN);
    w.write_u8(col_id);
    let r = w.into_bytes();
    assert(r@ =~= taken_message(col_id));
    r
}

} // verus!
