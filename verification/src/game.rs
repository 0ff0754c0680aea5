//! In-memory game state: the players of a room, its collectibles with their
//! respawn timers, and a player's session.
//!
//! Time is a monotonic clock in milliseconds (`i64`) handed in by the
//! caller; wall-clock times stored in the database are RFC 3339 texts.

use std::collections::{HashMap, HashSet, VecDeque};

use vstd::prelude::*;

use crate::config::DefaultsConfig;
use crate::constants::{CONNECTION_TIMEOUT_SECS, DEFAULT_POINTS, UNAUTHENTICATED_TIMEOUT_SECS};
use crate::db::runtime_state::{later, parse_rfc3339, rfc3339_instant, utc_now, CollectibleState, Instant};

verus! {

broadcast use vstd::std_specs::hash::group_hash_axioms;

/// A collectible spawn point of a room.
#[derive(Debug, Clone, Copy, PartialEq, Eq, Structural)]
pub struct CollectibleSpawn {
    /// Id of the spawn point within its room.
    pub col_id: u8,
    /// The item it gives.
    pub item_id: u16,
    pub x: u16,
    pub y: u16,
    /// Seconds until it comes back once taken; `None`: it never does.
    pub respawn_secs: Option<u32>,
}

/// A spawn point and when it was last taken (`None`: it is there).
#[derive(Debug, Clone, Copy, PartialEq, Eq, Structural)]
pub struct ActiveCollectible {
    pub spawn: CollectibleSpawn,
    pub taken_at: Option<i64>,
}

/// Whether a collectible taken at `taken_at` has come back by `now`: whole
/// seconds elapsed reach its respawn delay.
pub open spec fn respawned(c: ActiveCollectible, now: i64) -> bool {
    match (c.taken_at, c.spawn.respawn_secs) {
        (Some(t), Some(secs)) => (now - t) / 1000 >= secs,
        _ => false,
    }
}

/// Whether a collectible can be taken at `now`.
pub open spec fn available_at(c: ActiveCollectible, now: i64) -> bool {
    c.taken_at is None || respawned(c, now)
}

/// A collectible as it stands at `now`: one that has come back is marked
/// as there.
pub open spec fn refreshed(c: ActiveCollectible, now: i64) -> ActiveCollectible {
    if respawned(c, now) {
        ActiveCollectible { spawn: c.spawn, taken_at: None }
    } else {
        c
    }
}

fn has_respawned(c: &ActiveCollectible, now: i64) -> (r: bool)
    requires
        c.taken_at matches Some(t) ==> t <= now,
    ensures
        r == respawned(*c, now),
{
    match (c.taken_at, c.spawn.respawn_secs) {
        (Some(t), Some(secs)) => (now as i128 - t as i128) / 1000 >= secs as i128,
        _ => false,
    }
}

/// The state of a room: its players and its collectibles.
pub struct Room {
    pub id: u16,
    pub players: HashSet<u16>,
    pub collectibles: HashMap<u8, ActiveCollectible>,
}

/// Every take time in the room lies at or before `now`.
pub open spec fn times_before(m: Map<u8, ActiveCollectible>, now: i64) -> bool {
    forall|k: u8| #[trigger] m.contains_key(k) ==> (m[k].taken_at matches Some(t) ==> t <= now)
}

/// What taking collectible `col_id` at `now` does to a room's collectibles
/// `o` (giving `f`) and answers: the spawn, when the collectible is there
/// or has come back, and it is then marked taken at `now`; otherwise
/// nothing, and nothing changes.
pub open spec fn take_post(
    o: Map<u8, ActiveCollectible>,
    f: Map<u8, ActiveCollectible>,
    col_id: u8,
    now: i64,
    r: Option<CollectibleSpawn>,
) -> bool {
    match r {
        Some(s) => o.contains_key(col_id) && available_at(o[col_id], now) && s == o[col_id].spawn
            && f == o.insert(col_id, ActiveCollectible { spawn: s, taken_at: Some(now) }),
        None => (!o.contains_key(col_id) || !available_at(o[col_id], now)) && f == o,
    }
}

/// A collectible that is there is given on the first take; a second take
/// before its respawn delay has passed (or of one that never comes back)
/// gives nothing and changes nothing.
pub proof fn lemma_take_twice(
    m0: Map<u8, ActiveCollectible>,
    m1: Map<u8, ActiveCollectible>,
    m2: Map<u8, ActiveCollectible>,
    col_id: u8,
    t1: i64,
    t2: i64,
    r1: Option<CollectibleSpawn>,
    r2: Option<CollectibleSpawn>,
)
    requires
        m0.contains_key(col_id),
        m0[col_id].taken_at is None,
        t1 <= t2,
        m0[col_id].spawn.respawn_secs matches Some(secs) ==> (t2 - t1) / 1000 < secs,
        take_post(m0, m1, col_id, t1, r1),
        take_post(m1, m2, col_id, t2, r2),
    ensures
        r1 == Some(m0[col_id].spawn),
        m1[col_id].taken_at == Some(t1),
        r2 is None,
        m2 == m1,
{
}

/// Taking from a spawn point the room does not have gives nothing and
/// changes nothing.
pub proof fn lemma_take_absent(
    m0: Map<u8, ActiveCollectible>,
    m1: Map<u8, ActiveCollectible>,
    col_id: u8,
    now: i64,
    r: Option<CollectibleSpawn>,
)
    requires
        !m0.contains_key(col_id),
        take_post(m0, m1, col_id, now, r),
    ensures
        r is None,
        m1 == m0,
{
}

fn collectible_ids(m: &HashMap<u8, ActiveCollectible>) -> (r: Vec<u8>)
    ensures
        r@.to_set() == m@.dom(),
        r@.no_duplicates(),
{
    let mut keys: Vec<u8> = Vec::new();
    for k in it: m.keys()
        invariant
            keys@ == it.seq().take(it.index()).unref(),
            it.seq().unref().to_set() == m@.dom(),
            it.seq().no_duplicates(),
            it.index() == it.seq().len() ==> keys@ =~= it.seq().unref(),
    {
        keys.push(*k);
        proof {
            assert(it.seq().take(it.index() + 1).unref() =~= keys@);
        }
    }

    keys
}

impl Room {
    /// An empty room.
    pub fn new(id: u16) -> (r: Self)
        ensures
            r.id == id,
            r.players@ == Set::<u16>::empty(),
            r.collectibles@ == Map::<u8, ActiveCollectible>::empty(),
    {
        Room { id, players: HashSet::new(), collectibles: HashMap::new() }
    }

    /// Adds a player to the room.
    pub fn add_player(&mut self, player_id: u16)
        ensures
            final(self).players@ == old(self).players@.insert(player_id),
            final(self).id == old(self).id,
            final(self).collectibles@ == old(self).collectibles@,
    {
        self.players.insert(player_id);
    }

    /// Removes a player from the room.
    pub fn remove_player(&mut self, player_id: u16)
        ensures
            final(self).players@ == old(self).players@.remove(player_id),
            final(self).id == old(self).id,
            final(self).collectibles@ == old(self).collectibles@,
    {
        self.players.remove(&player_id);
    }

    /// How many players are in the room.
    pub fn player_count(&self) -> (r: usize)
        ensures
            r == self.players@.len(),
    {
        self.players.len()
    }

    /// The players of the room, each once, in no particular order.
    pub fn get_players(&self) -> (r: Vec<u16>)
        ensures
            r@.to_set() == self.players@,
            r@.no_duplicates(),
    {
        let mut out: Vec<u16> = Vec::new();
        for p in it: self.players.iter()
            invariant
                out@ == it.seq().take(it.index()).unref(),
                it.seq().unref().to_set() == self.players@,
                it.seq().no_duplicates(),
                it.index() == it.seq().len() ==> out@ =~= it.seq().unref(),
        {
            out.push(*p);
            proof {
                assert(it.seq().take(it.index() + 1).unref() =~= out@);
            }
        }
        out
    }

    /// Sets up the room's collectibles, all available; a later spawn with
    /// the same id replaces an earlier one.
    pub fn init_collectibles(&mut self, spawns: Vec<CollectibleSpawn>)
        ensures
            final(self).id == old(self).id,
            final(self).players@ == old(self).players@,
            forall|k: u8| #[trigger] final(self).collectibles@.contains_key(k) <==> (old(self).collectibles@.contains_key(k)
                || exists|i: int| 0 <= i < spawns@.len() && spawns@[i].col_id == k),
            forall|i: int|
                0 <= i < spawns@.len() && (forall|j: int| i < j < spawns@.len() ==> spawns@[j].col_id != spawns@[i].col_id)
                    ==> final(self).collectibles@[#[trigger] spawns@[i].col_id] == (ActiveCollectible {
                    spawn: spawns@[i],
                    taken_at: None,
                }),
    {
        let mut i: usize = 0;
        while i < spawns.len()
            invariant
                i <= spawns@.len(),
                self.id == old(self).id,
                self.players@ == old(self).players@,
                forall|k: u8| #[trigger] self.collectibles@.contains_key(k) <==> (old(self).collectibles@.contains_key(k)
                    || exists|m: int| 0 <= m < i && spawns@[m].col_id == k),
                forall|m: int|
                    0 <= m < i && (forall|j: int| m < j < i ==> spawns@[j].col_id != spawns@[m].col_id)
                        ==> self.collectibles@[#[trigger] spawns@[m].col_id] == (ActiveCollectible {
                        spawn: spawns@[m],
                        taken_at: None,
                    }),
            decreases spawns@.len() - i,
        {
            let spawn = spawns[i];
            self.collectibles.insert(spawn.col_id, ActiveCollectible { spawn, taken_at: None });
            proof {
                assert forall|k: u8| #[trigger] self.collectibles@.contains_key(k) <==> (old(self).collectibles@.contains_key(k)
                    || exists|m: int| 0 <= m < i + 1 && spawns@[m].col_id == k) by {
                    if k == spawn.col_id {
                        assert(spawns@[i as int].col_id == k);
                    }
                }
            }
            i += 1;
        }
    }

    /// Takes collectible `col_id` at `now`: it must be there or have come
    /// back; it is then marked taken at `now` and its spawn is returned.
    pub fn take_collectible(&mut self, col_id: u8, now: i64) -> (r: Option<CollectibleSpawn>)
        requires
            times_before(old(self).collectibles@, now),
        ensures
            final(self).id == old(self).id,
            final(self).players@ == old(self).players@,
            times_before(final(self).collectibles@, now),
            take_post(old(self).collectibles@, final(self).collectibles@, col_id, now, r),
    {
        let current = match self.collectibles.get(&col_id) {
            Some(c) => *c,
            None => return None,
        };
        let available = match current.taken_at {
            None => true,
            Some(_) => has_respawned(&current, now),
        };
        if !available {
            return None;
        }
        self.collectibles.insert(col_id, ActiveCollectible { spawn: current.spawn, taken_at: Some(now) });
        Some(current.spawn)
    }

    /// The collectibles that can be taken at `now`, one entry per spawn
    /// point; those that have come back are marked as there again.
    pub fn get_available_collectibles(&mut self, now: i64) -> (r: Vec<ActiveCollectible>)
        requires
            times_before(old(self).collectibles@, now),
        ensures
            final(self).id == old(self).id,
            final(self).players@ == old(self).players@,
            final(self).collectibles@.dom() == old(self).collectibles@.dom(),
            forall|k: u8| #[trigger] old(self).collectibles@.contains_key(k)
                ==> final(self).collectibles@[k] == refreshed(old(self).collectibles@[k], now),
            times_before(final(self).collectibles@, now),
            forall|i: int| 0 <= i < r@.len() ==> from_available(old(self).collectibles@, now, #[trigger] r@[i]),
            forall|k: u8| #[trigger] old(self).collectibles@.contains_key(k) && available_at(old(self).collectibles@[k], now)
                ==> listed(r@, refreshed(old(self).collectibles@[k], now)),
    {
        let keys = collectible_ids(&self.collectibles);
        let ghost start = self.collectibles@;
        let mut out: Vec<ActiveCollectible> = Vec::new();
        let mut i: usize = 0;
        while i < keys.len()
            invariant
                i <= keys@.len(),
                keys@.to_set() == start.dom(),
                keys@.no_duplicates(),
                start == old(self).collectibles@,
                times_before(start, now),
                self.id == old(self).id,
                self.players@ == old(self).players@,
                self.collectibles@.dom() == start.dom(),
                forall|k: u8| #[trigger] start.contains_key(k) ==> self.collectibles@[k] == if keys@.take(i as int).contains(k) {
                    refreshed(start[k], now)
                } else {
                    start[k]
                },
                forall|j: int| 0 <= j < out@.len() ==> from_available(start, now, #[trigger] out@[j]),
                forall|k: u8| #[trigger] start.contains_key(k) && keys@.take(i as int).contains(k) && available_at(start[k], now)
                    ==> listed(out@, refreshed(start[k], now)),
            decreases keys@.len() - i,
        {
            let k = keys[i];
            proof {
                assert(keys@.to_set().contains(k));
                assert(!keys@.take(i as int).contains(k)) by {
                    if keys@.take(i as int).contains(k) {
                        let j = choose|j: int| 0 <= j < i && #[trigger] keys@.take(i as int)[j] == k;
                        assert(keys@[j] == keys@[i as int]);
                    }
                }
            }
            let c = match self.collectibles.get(&k) {
                Some(c) => *c,
                None => {
                    proof { assert(false); }
                    return out;
                },
            };
            proof {
                assert(c == start[k]);
            }
            let back = has_respawned(&c, now);
            let current = if back { ActiveCollectible { spawn: c.spawn, taken_at: None } } else { c };
            proof {
                assert(current == refreshed(start[k], now));
            }
            if back {
                self.collectibles.insert(k, current);
            }
            let ghost out_before = out@;
            if current.taken_at.is_none() {
                out.push(current);
                proof {
                    assert(from_available(start, now, current));
                }
            }
            proof {
                lemma_listed_grows(out_before, out@);
                if available_at(start[k], now) {
                    assert(out@[out@.len() - 1] == current);
                }
                assert(keys@.take(i as int + 1) =~= keys@.take(i as int).push(k));
                assert forall|kk: u8| #[trigger] start.contains_key(kk) implies self.collectibles@[kk] == if keys@.take(i as int + 1).contains(kk) {
                    refreshed(start[kk], now)
                } else {
                    start[kk]
                } by {
                    if kk != k {
                        assert(keys@.take(i as int + 1).contains(kk) == keys@.take(i as int).contains(kk));
                    } else {
                        assert(keys@.take(i as int + 1)[i as int] == kk);
                    }
                }
                assert forall|kk: u8| #[trigger] start.contains_key(kk) && keys@.take(i as int + 1).contains(kk) && available_at(start[kk], now)
                    implies listed(out@, refreshed(start[kk], now)) by {
                    if kk != k {
                        assert(keys@.take(i as int + 1).contains(kk) == keys@.take(i as int).contains(kk));
                    }
                }
            }
            i += 1;
        }
        proof {
            assert(keys@.take(keys@.len() as int) =~= keys@);
            assert forall|k: u8| #[trigger] start.contains_key(k) implies keys@.take(i as int).contains(k) by {
                assert(keys@.to_set().contains(k));
            }
        }
        out
    }
}

/// `c` is, as it stands at `now`, a collectible of `m` that can be taken.
pub open spec fn from_available(m: Map<u8, ActiveCollectible>, now: i64, c: ActiveCollectible) -> bool {
    exists|k: u8| #[trigger] m.contains_key(k) && available_at(m[k], now) && c == refreshed(m[k], now)
}

/// `c` occurs in `s`.
pub open spec fn listed(s: Seq<ActiveCollectible>, c: ActiveCollectible) -> bool {
    exists|j: int| 0 <= j < s.len() && s[j] == c
}

proof fn lemma_listed_grows(before: Seq<ActiveCollectible>, after: Seq<ActiveCollectible>)
    requires
        after.len() >= before.len(),
        forall|j: int| 0 <= j < before.len() ==> after[j] == before[j],
    ensures
        forall|c: ActiveCollectible| #[trigger] listed(before, c) ==> listed(after, c),
{
    assert forall|c: ActiveCollectible| #[trigger] listed(before, c) implies listed(after, c) by {
        let j = choose|j: int| 0 <= j < before.len() && before[j] == c;
        assert(after[j] == c);
    }
}

/// Respawn delay of a stored collectible whose spawn has none.
pub const DEFAULT_RESPAWN_SECS: u32 = 3600;

/// What `chrono` gives for the whole seconds from `b` to `a`
/// (`(a - b).num_seconds()`, truncated towards zero); `None` when an
/// instant is outside chrono's range.
pub uninterp spec fn chrono_whole_seconds(a: Instant, b: Instant) -> Option<i64>;

/// Subtracts two instants with `chrono` (`DateTime::from_timestamp`, then
/// `TimeDelta::num_seconds`). The result depends on the instants alone.
#[verifier::external_body]
fn whole_seconds_between(a: Instant, b: Instant) -> (r: Option<i64>)
    ensures
        r == chrono_whole_seconds(a, b),
{
    let x = chrono::DateTime::from_timestamp(a.0, a.1)?;
    let y = chrono::DateTime::from_timestamp(b.0, b.1)?;
    Some((x - y).num_seconds())
}

/// When a collectible still waiting to respawn was taken, on the monotonic
/// clock: `now` minus the part of its delay (3600 s when it has none) that
/// has already passed, given the whole seconds still to wait.
pub open spec fn restored_take_time(respawn_secs: Option<u32>, remaining_secs: i64, now: i64) -> i64 {
    let total: int = match respawn_secs {
        Some(s) => s as int,
        None => DEFAULT_RESPAWN_SECS as int,
    };
    let remaining: int = if remaining_secs < 0 { 0 } else { remaining_secs as int };
    let elapsed: int = if total > remaining { total - remaining } else { 0 };
    (now - elapsed * 1000) as i64
}

/// Computes when a waiting collectible was taken.
pub fn restored_taken_at(respawn_secs: Option<u32>, remaining_secs: i64, now: i64) -> (r: i64)
    requires
        now >= i64::MIN + 4_294_967_295_000,
    ensures
        r == restored_take_time(respawn_secs, remaining_secs, now),
        r <= now,
{
    let total: u64 = match respawn_secs {
        Some(s) => s as u64,
        None => DEFAULT_RESPAWN_SECS as u64,
    };
    let remaining: u64 = if remaining_secs < 0 { 0 } else { remaining_secs as u64 };
    let elapsed: u64 = total.saturating_sub(remaining);
    now - (elapsed as i64) * 1000
}

/// The take time a stored collectible state restores, given the instants
/// read around it: `None` (available) unless the state says taken and names
/// a readable respawn time still in the future at `utc_now`. `remaining` is
/// the whole seconds from `utc_later` (a second clock reading) to the
/// respawn time.
pub open spec fn restored_state(
    spawn: CollectibleSpawn,
    state: Option<CollectibleState>,
    utc_now: Instant,
    utc_later: Instant,
    now: i64,
) -> Option<i64> {
    match state {
        Some(st) => if st.available == 0 {
            match st.respawn_at {
                Some(text) => match rfc3339_instant(text@) {
                    Some(at) => if later(at, utc_now) {
                        match chrono_whole_seconds(at, utc_later) {
                            Some(rem) => Some(restored_take_time(spawn.respawn_secs, rem, now)),
                            None => Some(restored_take_time(spawn.respawn_secs, 0, now)),
                        }
                    } else {
                        None
                    },
                    None => None,
                },
                None => None,
            }
        } else {
            None
        },
        None => None,
    }
}

impl Room {
    /// Sets up the room's collectibles from their stored states: a spawn
    /// stored as taken, with a respawn time still to come, is restored as
    /// taken as long ago as its delay has run; every other spawn is there.
    /// The wall clock is read at that point (so nothing pins which spawns are
    /// still waiting), but no spawn without a stored taken state, or with an
    /// unreadable respawn time, is restored as taken.
    pub fn init_collectibles_with_state(
        &mut self,
        spawns: Vec<CollectibleSpawn>,
        db_states: &HashMap<u8, CollectibleState>,
        now: i64,
    )
        requires
            now >= i64::MIN + 4_294_967_295_000,
        ensures
            final(self).id == old(self).id,
            final(self).players@ == old(self).players@,
            forall|k: u8| #[trigger] final(self).collectibles@.contains_key(k) <==> (old(self).collectibles@.contains_key(k)
                || exists|i: int| 0 <= i < spawns@.len() && spawns@[i].col_id == k),
            forall|i: int|
                0 <= i < spawns@.len() && (forall|j: int| i < j < spawns@.len() ==> spawns@[j].col_id != spawns@[i].col_id)
                    ==> {
                    let c = final(self).collectibles@[#[trigger] spawns@[i].col_id];
                    &&& c.spawn == spawns@[i]
                    &&& c.taken_at matches Some(t) ==> {
                        &&& t <= now
                        &&& db_states@.contains_key(spawns@[i].col_id)
                        &&& db_states@[spawns@[i].col_id].available == 0
                        &&& (db_states@[spawns@[i].col_id].respawn_at matches Some(text) && rfc3339_instant(text@) is Some)
                    }
                },
    {
        let mut i: usize = 0;
        while i < spawns.len()
            invariant
                i <= spawns@.len(),
                now >= i64::MIN + 4_294_967_295_000,
                self.id == old(self).id,
                self.players@ == old(self).players@,
                forall|k: u8| #[trigger] self.collectibles@.contains_key(k) <==> (old(self).collectibles@.contains_key(k)
                    || exists|m: int| 0 <= m < i && spawns@[m].col_id == k),
                forall|m: int|
                    0 <= m < i && (forall|j: int| m < j < i ==> spawns@[j].col_id != spawns@[m].col_id)
                        ==> {
                        let c = self.collectibles@[#[trigger] spawns@[m].col_id];
                        &&& c.spawn == spawns@[m]
                        &&& c.taken_at matches Some(t) ==> {
                            &&& t <= now
                            &&& db_states@.contains_key(spawns@[m].col_id)
                            &&& db_states@[spawns@[m].col_id].available == 0
                            &&& (db_states@[spawns@[m].col_id].respawn_at matches Some(text) && rfc3339_instant(text@) is Some)
                        }
                    },
            decreases spawns@.len() - i,
        {
            let spawn = spawns[i];
            let state = db_states.get(&spawn.col_id);
            let taken_at = restore_take(spawn, state, now);
            self.collectibles.insert(spawn.col_id, ActiveCollectible { spawn, taken_at });
            proof {
                assert forall|k: u8| #[trigger] self.collectibles@.contains_key(k) <==> (old(self).collectibles@.contains_key(k)
                    || exists|m: int| 0 <= m < i + 1 && spawns@[m].col_id == k) by {
                    if k == spawn.col_id {
                        assert(spawns@[i as int].col_id == k);
                    }
                }
            }
            i += 1;
        }
    }
}

/// Reads the wall clock and restores one spawn's take time from its stored
/// state (see `restored_state`).
fn restore_take(spawn: CollectibleSpawn, state: Option<&CollectibleState>, now: i64) -> (r: Option<i64>)
    requires
        now >= i64::MIN + 4_294_967_295_000,
    ensures
        exists|a: Instant, b: Instant| #[trigger] r_is(r, restored_state(spawn, stored(state), a, b, now)),
        r matches Some(t) ==> (t <= now && (state matches Some(st) && st.available == 0
            && (st.respawn_at matches Some(text) && rfc3339_instant(text@) is Some))),
{
    let st = match state {
        Some(s) => s,
        None => {
            proof {
                let a: Instant = (0, 0);
                assert(r_is(None, restored_state(spawn, None, a, a, now)));
            }
            return None;
        },
    };
    let u1 = utc_now();
    if st.available != 0 {
        proof { assert(r_is(None, restored_state(spawn, Some(*st), u1, u1, now))); }
        return None;
    }
    let text = match &st.respawn_at {
        Some(t) => t,
        None => {
            proof { assert(r_is(None, restored_state(spawn, Some(*st), u1, u1, now))); }
            return None;
        },
    };
    let at = match parse_rfc3339(text.as_str()) {
        Some(a) => a,
        None => {
            proof { assert(r_is(None, restored_state(spawn, Some(*st), u1, u1, now))); }
            return None;
        },
    };
    if !(at.0 > u1.0 || (at.0 == u1.0 && at.1 > u1.1)) {
        proof { assert(r_is(None, restored_state(spawn, Some(*st), u1, u1, now))); }
        return None;
    }
    let u2 = utc_now();
    let remaining = match whole_seconds_between(at, u2) {
        Some(s) => s,
        None => 0,
    };
    let t = restored_taken_at(spawn.respawn_secs, remaining, now);
    proof { assert(r_is(Some(t), restored_state(spawn, Some(*st), u1, u2, now))); }
    Some(t)
}

/// The stored state behind a lookup result.
pub open spec fn stored(state: Option<&CollectibleState>) -> Option<CollectibleState> {
    match state {
        Some(s) => Some(*s),
        None => None,
    }
}

/// `a` is `b` (a named equality that gives the existential a witness).
pub open spec fn r_is(a: Option<i64>, b: Option<i64>) -> bool {
    a == b
}

/// A clan invitation waiting for an answer.
#[derive(Debug, Clone)]
pub struct PendingClanInvite {
    pub clan_id: i64,
    pub clan_name: String,
    pub inviter_id: u16,
    /// When it was sent, on the monotonic clock (ms).
    pub invited_at: i64,
}

/// A fresh random session id from `uuid::Uuid::new_v4`, as a `u128`. It is
/// random: only the version (4) and variant (RFC 4122) bits are fixed.
#[verifier::external_body]
fn new_session_id() -> (r: u128)
    ensures
        r & 0x0000_0000_0000_f000_c000_0000_0000_0000u128 == 0x0000_0000_0000_4000_8000_0000_0000_0000u128,
{
    uuid::Uuid::new_v4().as_u128()
}

/// A player's connection state, kept in memory while connected.
#[derive(Debug)]
pub struct PlayerSession {
    pub session_id: u128,
    pub player_id: Option<u16>,
    pub account_id: Option<i64>,
    pub character_id: Option<i64>,
    pub username: Option<String>,
    pub room_id: u16,
    pub x: u16,
    pub y: u16,
    pub body_id: u16,
    pub acs1_id: u16,
    pub acs2_id: u16,
    pub points: u32,
    pub is_authenticated: bool,
    pub is_moderator: bool,
    /// When the connection was made (monotonic ms).
    pub connected_at: i64,
    /// When the client was last heard from (monotonic ms).
    pub last_activity: i64,
    pub ip_address: String,
    /// Messages waiting to be sent, oldest first.
    pub outgoing_messages: VecDeque<Vec<u8>>,
    /// Set when the player is to be disconnected.
    pub should_disconnect: bool,
    pub disconnect_reason: Option<String>,
    pub clan_id: Option<i64>,
    pub is_clan_leader: bool,
    pub has_clan_base: bool,
    pub pending_clan_invite: Option<PendingClanInvite>,
    /// When this player last invited each other player (monotonic ms).
    pub clan_invite_cooldowns: HashMap<u16, i64>,
    pub race_id: Option<u8>,
    pub race_start_time: Option<i64>,
    pub race_checkpoints: Vec<u16>,
}

/// The view of the queued messages.
pub open spec fn queued(s: &PlayerSession) -> Seq<Seq<u8>> {
    s.outgoing_messages@.map_values(|m: Vec<u8>| m@)
}

impl PlayerSession {
    /// A session for a new connection from `ip_address` at `now`: not logged
    /// in, placed at the configured spawn with the default look and points,
    /// with a fresh random id.
    pub fn new(ip_address: String, defaults: &DefaultsConfig, now: i64) -> (r: Self)
        ensures
            r.player_id is None && r.account_id is None && r.character_id is None && r.username is None,
            r.room_id == defaults.spawn_room && r.x == defaults.spawn_x && r.y == defaults.spawn_y,
            r.body_id == defaults.outfit && r.acs1_id == defaults.accessory1 && r.acs2_id == defaults.accessory2,
            r.points == DEFAULT_POINTS,
            !r.is_authenticated && !r.is_moderator && !r.should_disconnect,
            r.connected_at == now && r.last_activity == now,
            r.ip_address == ip_address,
            r.outgoing_messages@.len() == 0,
            r.disconnect_reason is None && r.clan_id is None && !r.is_clan_leader && !r.has_clan_base,
            r.pending_clan_invite is None && r.clan_invite_cooldowns@ == Map::<u16, i64>::empty(),
            r.race_id is None && r.race_start_time is None && r.race_checkpoints@.len() == 0,
    {
        PlayerSession {
            session_id: new_session_id(),
            player_id: None,
            account_id: None,
            character_id: None,
            username: None,
            room_id: defaults.spawn_room,
            x: defaults.spawn_x,
            y: defaults.spawn_y,
            body_id: defaults.outfit,
            acs1_id: defaults.accessory1,
            acs2_id: defaults.accessory2,
            points: DEFAULT_POINTS,
            is_authenticated: false,
            is_moderator: false,
            connected_at: now,
            last_activity: now,
            ip_address,
            outgoing_messages: VecDeque::new(),
            should_disconnect: false,
            disconnect_reason: None,
            clan_id: None,
            is_clan_leader: false,
            has_clan_base: false,
            pending_clan_invite: None,
            clan_invite_cooldowns: HashMap::new(),
            race_id: None,
            race_start_time: None,
            race_checkpoints: Vec::new(),
        }
    }

    /// Marks the session for disconnection with a reason.
    pub fn kick(&mut self, reason: String)
        ensures
            final(self).should_disconnect,
            final(self).disconnect_reason == Some(reason),
            final(self).outgoing_messages@ == old(self).outgoing_messages@,
            final(self).last_activity == old(self).last_activity,
            final(self).is_authenticated == old(self).is_authenticated,
    {
        self.should_disconnect = true;
        self.disconnect_reason = Some(reason);
    }

    /// Records activity at `now`.
    pub fn update_activity(&mut self, now: i64)
        ensures
            final(self).last_activity == now,
            final(self).outgoing_messages@ == old(self).outgoing_messages@,
            final(self).is_authenticated == old(self).is_authenticated,
            final(self).should_disconnect == old(self).should_disconnect,
    {
        self.last_activity = now;
    }

    /// Whole seconds since the last activity (0 if the clock went back).
    pub fn seconds_since_activity(&self, now: i64) -> (r: u64)
        ensures
            r == (if now >= self.last_activity { ((now - self.last_activity) / 1000) as u64 } else { 0 }),
    {
        if now >= self.last_activity {
            ((now as i128 - self.last_activity as i128) / 1000) as u64
        } else {
            0
        }
    }

    /// Whether the session has been silent for too long: 300 s once logged
    /// in, 30 s before.
    pub fn is_timed_out(&self, now: i64) -> (r: bool)
        ensures
            r == ((if now >= self.last_activity { ((now - self.last_activity) / 1000) as u64 } else { 0 }) > (if self.is_authenticated {
                CONNECTION_TIMEOUT_SECS
            } else {
                UNAUTHENTICATED_TIMEOUT_SECS
            })),
    {
        if self.is_authenticated {
            self.seconds_since_activity(now) > CONNECTION_TIMEOUT_SECS
        } else {
            self.seconds_since_activity(now) > UNAUTHENTICATED_TIMEOUT_SECS
        }
    }

    /// Queues a message for sending.
    pub fn queue_message(&mut self, message: Vec<u8>)
        ensures
            final(self).outgoing_messages@ == old(self).outgoing_messages@.push(message),
            final(self).last_activity == old(self).last_activity,
            final(self).should_disconnect == old(self).should_disconnect,
    {
        self.outgoing_messages.push_back(message);
    }

    /// Takes every queued message, oldest first, and empties the queue.
    pub fn drain_messages(&mut self) -> (r: Vec<Vec<u8>>)
        ensures
            r@ == old(self).outgoing_messages@,
            final(self).outgoing_messages@.len() == 0,
            final(self).last_activity == old(self).last_activity,
            final(self).should_disconnect == old(self).should_disconnect,
    {
        let mut out: Vec<Vec<u8>> = Vec::new();
        let ghost start = self.outgoing_messages@;
        while self.outgoing_messages.len() > 0
            invariant
                start == out@ + self.outgoing_messages@,
                self.last_activity == old(self).last_activity,
                self.should_disconnect == old(self).should_disconnect,
                start == old(self).outgoing_messages@,
            decreases self.outgoing_messages@.len(),
        {
            let ghost before = self.outgoing_messages@;
            match self.outgoing_messages.pop_front() {
                Some(m) => {
                    out.push(m);
                    proof {
                        assert(start =~= out@ + self.outgoing_messages@);
                    }
                },
                None => {
                    proof { assert(false); }
                },
            }
        }
        proof {
            assert(start =~= out@);
        }
        out
    }

    /// Whether messages are waiting.
    pub fn has_pending_messages(&self) -> (r: bool)
        ensures
            r == (self.outgoing_messages@.len() > 0),
    {
        self.outgoing_messages.len() > 0
    }
}

/// Queued messages come out in the order they went in, each once: draining
/// after queuing gives back the earlier queue followed by the new message.
pub proof fn lemma_queue_fifo(queue: Seq<Vec<u8>>, message: Vec<u8>)
    ensures
        queue.push(message).take(queue.len() as int) == queue,
        queue.push(message).last() == message,
{
    assert(queue.push(message).take(queue.len() as int) =~= queue);
}

/// A collectible taken at `t` cannot be taken again before its delay has
/// run in whole seconds, and can from then on.
pub proof fn lemma_respawn_timing(spawn: CollectibleSpawn, t: i64, now: i64)
    requires
        t <= now,
    ensures
        available_at(ActiveCollectible { spawn, taken_at: Some(t) }, now) <==> (spawn.respawn_secs matches Some(secs)
            && now - t >= secs * 1000),
{
}

} // verus!
