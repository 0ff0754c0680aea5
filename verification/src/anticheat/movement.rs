//! Movement validation: teleport and speed-hack detection from a player's
//! recent positions.
//!
//! Times are nanosecond timestamps from a monotonic clock, supplied by the
//! caller. Distances and speeds are compared in exact integer arithmetic.

use std::collections::HashMap;

use vstd::prelude::*;

use crate::constants::{
    CHEAT_VIOLATION_THRESHOLD, CHEAT_VIOLATION_WINDOW_SECS, MAX_ROOM_X, MAX_ROOM_Y,
};
use crate::anticheat::types::CheatResult;

verus! {

/// Nanoseconds per second.
pub const NANOS_PER_SEC: u64 = 1000000000;

/// Most positions kept per player.
pub const POSITION_HISTORY_LEN: usize = 10;

/// What kind of impossible movement was seen.
#[derive(Debug, Clone, Copy, PartialEq, Eq, Structural)]
pub enum FindingKind {
    /// Moved more than the per-update limit at more than ten times the top speed.
    Teleport,
    /// Sustained movement at more than twice the top speed.
    SpeedHack,
}

/// An impossible movement: its kind, the squared distance in pixels and the
/// time since the previous position in nanoseconds.
#[derive(Debug, Clone, Copy, PartialEq, Eq, Structural)]
pub struct MovementFinding {
    pub kind: FindingKind,
    pub distance_sq: u64,
    pub elapsed_nanos: u64,
}

/// Squared Euclidean distance between two points.
pub open spec fn dist_sq(ox: u16, oy: u16, nx: u16, ny: u16) -> nat {
    ((nx - ox) * (nx - ox) + (ny - oy) * (ny - oy)) as nat
}

/// Time from `then` to `now`, zero when `now` is earlier.
pub open spec fn elapsed(now: u64, then: u64) -> nat {
    if now >= then {
        (now - then) as nat
    } else {
        0
    }
}

pub open spec fn max_nat(a: nat, b: nat) -> nat {
    if a >= b {
        a
    } else {
        b
    }
}

/// Teleport: farther than 600 pixels, at more than 3000 pixels per second
/// over at least a millisecond: `sqrt(d2) > 600` and
/// `sqrt(d2) / max(e / 1e9, 0.001) > 3000`.
pub open spec fn teleport_detected(d2: nat, e: nat) -> bool {
    &&& d2 > 360000
    &&& d2 * 1000000000000 > 9 * max_nat(e, 1000000) * max_nat(e, 1000000)
}

/// Speed hack: more than 100 whole milliseconds elapsed and a speed above
/// 600 pixels per second: `sqrt(d2) / (e / 1e9) > 600`.
pub open spec fn speed_detected(d2: nat, e: nat) -> bool {
    &&& e >= 101000000
    &&& d2 * 1000000000000000000 > 360000 * e * e
}

/// The violations still inside the counting window at `now`.
pub open spec fn recent(vs: Seq<(u64, MovementFinding)>, now: u64) -> Seq<(u64, MovementFinding)>
    decreases vs.len(),
{
    if vs.len() == 0 {
        vs
    } else {
        let rest = recent(vs.drop_last(), now);
        if vs.last().0 + CHEAT_VIOLATION_WINDOW_SECS * NANOS_PER_SEC > now {
            rest.push(vs.last())
        } else {
            rest
        }
    }
}

/// Keeps the newest ten positions after appending one.
pub open spec fn keep_recent_positions(s: Seq<(u16, u16, u64)>) -> Seq<(u16, u16, u64)> {
    if s.len() > POSITION_HISTORY_LEN {
        s.drop_first()
    } else {
        s
    }
}

/// Recent positions of one player.
#[derive(Debug, Clone)]
pub struct PositionHistory {
    /// Recent positions with their timestamps, oldest first.
    pub positions: Vec<(u16, u16, u64)>,
    /// Last known room.
    pub room_id: u16,
    /// Violations with their timestamps.
    pub violations: Vec<(u64, MovementFinding)>,
    /// A legitimate teleport is about to happen.
    pub is_warping: bool,
    /// Time of the last warp.
    pub last_warp: Option<u64>,
}

/// What a movement check does to a history's violations when it finds `f`.
pub open spec fn violations_after(old: Seq<(u64, MovementFinding)>, f: MovementFinding, now: u64) -> Seq<(u64, MovementFinding)> {
    recent(old.push((now, f)), now)
}

/// The answer to a finding given the violations in the window.
pub open spec fn finding_result(f: MovementFinding, count: nat, severity: u8) -> CheatResult {
    if count >= CHEAT_VIOLATION_THRESHOLD {
        CheatResult::Cheating { reason: f }
    } else {
        CheatResult::Suspicious { reason: f, severity }
    }
}

/// How one position update changes a history and what it answers.
pub open spec fn update_post(
    o: PositionHistory,
    f: PositionHistory,
    new_x: u16,
    new_y: u16,
    new_room: u16,
    now: u64,
    r: CheatResult,
) -> bool {
    let (lx, ly, lt) = o.positions@.last();
    let d2 = dist_sq(lx, ly, new_x, new_y);
    let e = elapsed(now, lt);
    if new_room != o.room_id {
        &&& f.room_id == new_room
        &&& f.positions@ == seq![(new_x, new_y, now)]
        &&& !f.is_warping
        &&& f.violations@ == o.violations@
        &&& f.last_warp == o.last_warp
        &&& r is Clean
    } else if o.is_warping {
        &&& f.room_id == o.room_id
        &&& f.positions@ == seq![(new_x, new_y, now)]
        &&& !f.is_warping
        &&& f.violations@ == o.violations@
        &&& f.last_warp == Some(now)
        &&& r is Clean
    } else if teleport_detected(d2, e) {
        let finding = MovementFinding { kind: FindingKind::Teleport, distance_sq: d2 as u64, elapsed_nanos: e as u64 };
        &&& f.violations@ == violations_after(o.violations@, finding, now)
        &&& f.positions@ == o.positions@
        &&& f.room_id == o.room_id && f.is_warping == o.is_warping && f.last_warp == o.last_warp
        &&& r == finding_result(finding, (f.violations@.len() as u32) as nat, 3)
    } else if speed_detected(d2, e) {
        let finding = MovementFinding { kind: FindingKind::SpeedHack, distance_sq: d2 as u64, elapsed_nanos: e as u64 };
        &&& f.violations@ == violations_after(o.violations@, finding, now)
        &&& f.positions@ == o.positions@
        &&& f.room_id == o.room_id && f.is_warping == o.is_warping && f.last_warp == o.last_warp
        &&& r == finding_result(finding, (f.violations@.len() as u32) as nat, 2)
    } else {
        &&& f.positions@ == keep_recent_positions(o.positions@.push((new_x, new_y, now)))
        &&& f.violations@ == o.violations@
        &&& f.room_id == o.room_id && f.is_warping == o.is_warping && f.last_warp == o.last_warp
        &&& r is Clean
    }
}

impl PositionHistory {
    /// Between one and ten positions are kept.
    pub open spec fn wf(&self) -> bool {
        1 <= self.positions@.len() <= POSITION_HISTORY_LEN
    }

    /// Starts tracking at a position.
    pub fn new(x: u16, y: u16, room_id: u16, now: u64) -> (r: Self)
        ensures
            r.wf(),
            r.positions@ == seq![(x, y, now)],
            r.room_id == room_id,
            r.violations@.len() == 0,
            !r.is_warping,
            r.last_warp is None,
    {
        let mut positions = Vec::new();
        positions.push((x, y, now));
        PositionHistory { positions, room_id, violations: Vec::new(), is_warping: false, last_warp: None }
    }

    /// Records a violation and drops those that have left the window.
    pub fn add_violation(&mut self, f: MovementFinding, now: u64)
        ensures
            final(self).violations@ == violations_after(old(self).violations@, f, now),
            final(self).positions@ == old(self).positions@,
            final(self).room_id == old(self).room_id,
            final(self).is_warping == old(self).is_warping,
            final(self).last_warp == old(self).last_warp,
    {
        self.violations.push((now, f));
        let ghost all = self.violations@;
        let mut kept: Vec<(u64, MovementFinding)> = Vec::new();
        let n = self.violations.len();
        let mut i: usize = 0;
        while i < n
            invariant
                n == all.len(),
                all == self.violations@,
                i <= n,
                kept@ == recent(all.take(i as int), now),
            decreases n - i,
        {
            let v = self.violations[i];
            proof {
                assert(all.take(i + 1).drop_last() =~= all.take(i as int));
                assert(all.take(i + 1).last() == all[i as int]);
            }
            if v.0 as u128 + (CHEAT_VIOLATION_WINDOW_SECS as u128) * (NANOS_PER_SEC as u128) > now as u128 {
                kept.push(v);
            }
            i += 1;
        }
        assert(all.take(n as int) =~= all);
        self.violations = kept;
    }

    /// The number of violations inside the window at `now` (truncated to 32 bits).
    pub fn violation_count(&self, now: u64) -> (r: u32)
        ensures
            r == recent(self.violations@, now).len() as u32,
    {
        let ghost all = self.violations@;
        let n = self.violations.len();
        let mut count: usize = 0;
        let mut i: usize = 0;
        while i < n
            invariant
                n == all.len(),
                all == self.violations@,
                i <= n,
                count == recent(all.take(i as int), now).len(),
                count <= i,
            decreases n - i,
        {
            let t = self.violations[i].0;
            proof {
                assert(all.take(i + 1).drop_last() =~= all.take(i as int));
                assert(all.take(i + 1).last() == all[i as int]);
            }
            if t as u128 + (CHEAT_VIOLATION_WINDOW_SECS as u128) * (NANOS_PER_SEC as u128) > now as u128 {
                count += 1;
            }
            i += 1;
        }
        assert(all.take(n as int) =~= all);
        count as u32
    }

    /// Marks that a legitimate warp is about to happen.
    pub fn set_warping(&mut self)
        ensures
            *final(self) == (PositionHistory { is_warping: true, ..*old(self) }),
    {
        self.is_warping = true;
    }

    /// Records a position update and checks it for teleports and speed hacks.
    ///
    /// A room change or an announced warp resets the history. Otherwise the
    /// distance from the last position is compared with the time since it:
    /// a teleport gives severity 3, a speed hack severity 2, and either becomes
    /// `Cheating` once five violations fall inside the last minute. Suspicious
    /// moves are not recorded as positions.
    pub fn update(&mut self, new_x: u16, new_y: u16, new_room: u16, now: u64) -> (r: CheatResult)
        requires
            old(self).wf(),
        ensures
            final(self).wf(),
            update_post(*old(self), *final(self), new_x, new_y, new_room, now, r),
    {
        if new_room != self.room_id {
            self.room_id = new_room;
            self.positions = Vec::new();
            self.positions.push((new_x, new_y, now));
            self.is_warping = false;
            return CheatResult::Clean;
        }
        if self.is_warping {
            self.positions = Vec::new();
            self.positions.push((new_x, new_y, now));
            self.is_warping = false;
            self.last_warp = Some(now);
            return CheatResult::Clean;
        }
        let last = self.positions[self.positions.len() - 1];
        let (last_x, last_y, last_time) = last;
        let e: u64 = if now >= last_time { now - last_time } else { 0 };
        let d2: u64 = distance_sq(last_x, last_y, new_x, new_y);
        if teleport_check(d2, e) {
            let finding = MovementFinding { kind: FindingKind::Teleport, distance_sq: d2, elapsed_nanos: e };
            self.add_violation(finding, now);
            let count = self.violation_count(now);
            proof { lemma_recent_idempotent(old(self).violations@.push((now, finding)), now); }
            if count >= CHEAT_VIOLATION_THRESHOLD {
                return CheatResult::Cheating { reason: finding };
            }
            return CheatResult::Suspicious { reason: finding, severity: 3 };
        }
        if speed_check(d2, e) {
            let finding = MovementFinding { kind: FindingKind::SpeedHack, distance_sq: d2, elapsed_nanos: e };
            self.add_violation(finding, now);
            let count = self.violation_count(now);
            proof { lemma_recent_idempotent(old(self).violations@.push((now, finding)), now); }
            if count >= CHEAT_VIOLATION_THRESHOLD {
                return CheatResult::Cheating { reason: finding };
            }
            return CheatResult::Suspicious { reason: finding, severity: 2 };
        }
        self.positions.push((new_x, new_y, now));
        if self.positions.len() > POSITION_HISTORY_LEN {
            self.positions.remove(0);
        }
        proof {
            assert(self.positions@ =~= keep_recent_positions(old(self).positions@.push((new_x, new_y, now))));
        }
        CheatResult::Clean
    }
}

proof fn lemma_recent_len(vs: Seq<(u64, MovementFinding)>, now: u64)
    ensures
        recent(vs, now).len() <= vs.len(),
    decreases vs.len(),
{
    if vs.len() > 0 {
        lemma_recent_len(vs.drop_last(), now);
    }
}

proof fn lemma_recent_all_fresh(vs: Seq<(u64, MovementFinding)>, now: u64)
    ensures
        forall|i: int| 0 <= i < recent(vs, now).len() ==>
            (#[trigger] recent(vs, now)[i]).0 + CHEAT_VIOLATION_WINDOW_SECS * NANOS_PER_SEC > now,
    decreases vs.len(),
{
    if vs.len() > 0 {
        lemma_recent_all_fresh(vs.drop_last(), now);
        let rest = recent(vs.drop_last(), now);
        if vs.last().0 + CHEAT_VIOLATION_WINDOW_SECS * NANOS_PER_SEC > now {
            assert forall|i: int| 0 <= i < recent(vs, now).len() implies
                (#[trigger] recent(vs, now)[i]).0 + CHEAT_VIOLATION_WINDOW_SECS * NANOS_PER_SEC > now by {
                if i < rest.len() {
                    assert(recent(vs, now)[i] == rest[i]);
                }
            }
        }
    }
}

proof fn lemma_recent_of_fresh(vs: Seq<(u64, MovementFinding)>, now: u64)
    requires
        forall|i: int| 0 <= i < vs.len() ==> (#[trigger] vs[i]).0 + CHEAT_VIOLATION_WINDOW_SECS * NANOS_PER_SEC > now,
    ensures
        recent(vs, now) == vs,
    decreases vs.len(),
{
    if vs.len() > 0 {
        lemma_recent_of_fresh(vs.drop_last(), now);
        assert(vs.drop_last().push(vs.last()) =~= vs);
    }
}

/// Keeping the recent violations twice is keeping them once.
proof fn lemma_recent_idempotent(vs: Seq<(u64, MovementFinding)>, now: u64)
    ensures
        recent(recent(vs, now), now) == recent(vs, now),
{
    lemma_recent_all_fresh(vs, now);
    lemma_recent_of_fresh(recent(vs, now), now);
}

/// Squared distance between two positions.
pub fn distance_sq(ox: u16, oy: u16, nx: u16, ny: u16) -> (r: u64)
    ensures
        r == dist_sq(ox, oy, nx, ny),
        r <= 2 * 65535 * 65535,
{
    let dx: u64 = if nx >= ox { (nx - ox) as u64 } else { (ox - nx) as u64 };
    let dy: u64 = if ny >= oy { (ny - oy) as u64 } else { (oy - ny) as u64 };
    proof {
        assert(dx * dx <= 65535 * 65535) by (nonlinear_arith) requires dx <= 65535;
        assert(dy * dy <= 65535 * 65535) by (nonlinear_arith) requires dy <= 65535;
        assert((nx - ox) * (nx - ox) == dx * dx) by (nonlinear_arith)
            requires dx == (if nx >= ox { nx - ox } else { ox - nx });
        assert((ny - oy) * (ny - oy) == dy * dy) by (nonlinear_arith)
            requires dy == (if ny >= oy { ny - oy } else { oy - ny });
    }
    dx * dx + dy * dy
}

/// Decides `teleport_detected`.
pub fn teleport_check(d2: u64, e: u64) -> (r: bool)
    requires
        d2 <= 2 * 65535 * 65535,
    ensures
        r == teleport_detected(d2 as nat, e as nat),
{
    if d2 <= 360000 {
        return false;
    }
    let m: u64 = if e >= 1000000 { e } else { 1000000 };
    if m >= 1099511627776 {
        proof {
            assert(9 * (m as nat) * (m as nat) >= d2 * 1000000000000) by (nonlinear_arith)
                requires m >= 1099511627776, d2 <= 2 * 65535 * 65535;
        }
        return false;
    }
    let lhs: u128 = (d2 as u128) * 1000000000000u128;
    proof {
        assert((m as nat) * (m as nat) < 1099511627776 * 1099511627776) by (nonlinear_arith)
            requires m < 1099511627776;
    }
    let m2: u128 = (m as u128) * (m as u128);
    let rhs: u128 = 9u128 * m2;
    proof {
        assert(max_nat(e as nat, 1000000) == m as nat);
        assert(9 * (m as nat) * (m as nat) == 9 * ((m as nat) * (m as nat))) by (nonlinear_arith);
    }
    lhs > rhs
}

/// Decides `speed_detected`.
pub fn speed_check(d2: u64, e: u64) -> (r: bool)
    requires
        d2 <= 2 * 65535 * 65535,
    ensures
        r == speed_detected(d2 as nat, e as nat),
{
    if e < 101000000 {
        return false;
    }
    if e >= 1099511627776 {
        proof {
            assert(360000 * (e as nat) * (e as nat) >= d2 * 1000000000000000000) by (nonlinear_arith)
                requires e >= 1099511627776, d2 <= 2 * 65535 * 65535;
        }
        return false;
    }
    proof {
        assert((e as nat) * (e as nat) < 1099511627776 * 1099511627776) by (nonlinear_arith)
            requires e < 1099511627776;
    }
    let lhs: u128 = (d2 as u128) * 1000000000000000000u128;
    let e2: u128 = (e as u128) * (e as u128);
    let rhs: u128 = 360000u128 * e2;
    proof {
        assert(360000 * (e as nat) * (e as nat) == 360000 * ((e as nat) * (e as nat))) by (nonlinear_arith);
    }
    lhs > rhs
}

/// The movement-delta rule: a move of squared length `d2` after `e`
/// milliseconds is allowed when `sqrt(d2) <= max(0.6 * e, 50)`.
pub open spec fn movement_delta_allowed(d2: nat, e: nat) -> bool {
    d2 <= 2500 || 25 * d2 <= 9 * e * e
}

/// Whether a position change is plausible for the time elapsed: at most
/// twice the top speed, and always at least 50 pixels for lag.
pub fn validate_movement_delta(old_x: u16, old_y: u16, new_x: u16, new_y: u16, elapsed_ms: u64) -> (r: bool)
    ensures
        r == movement_delta_allowed(dist_sq(old_x, old_y, new_x, new_y), elapsed_ms as nat),
{
    let d2 = distance_sq(old_x, old_y, new_x, new_y);
    proof {
        assert(d2 <= 2 * 65535 * 65535) by (nonlinear_arith)
            requires d2 == dist_sq(old_x, old_y, new_x, new_y);
    }
    if d2 <= 2500 {
        return true;
    }
    if elapsed_ms >= 1099511627776 {
        proof {
            assert(9 * (elapsed_ms as nat) * (elapsed_ms as nat) >= 25 * d2) by (nonlinear_arith)
                requires elapsed_ms >= 1099511627776, d2 <= 2 * 65535 * 65535;
        }
        return true;
    }
    proof {
        assert((elapsed_ms as nat) * (elapsed_ms as nat) < 1099511627776 * 1099511627776) by (nonlinear_arith)
            requires elapsed_ms < 1099511627776;
    }
    let e2: u128 = (elapsed_ms as u128) * (elapsed_ms as u128);
    proof {
        assert(9 * (elapsed_ms as nat) * (elapsed_ms as nat) == 9 * ((elapsed_ms as nat) * (elapsed_ms as nat))) by (nonlinear_arith);
    }
    (25u128 * (d2 as u128)) <= 9u128 * e2
}

/// Whether a position lies inside the largest room.
pub fn validate_position_bounds(x: u16, y: u16) -> (r: bool)
    ensures
        r == (x <= MAX_ROOM_X && y <= MAX_ROOM_Y),
{
    x <= MAX_ROOM_X && y <= MAX_ROOM_Y
}

/// Position tracking for all players, keyed by session id.
pub struct MovementChecker {
    pub players: HashMap<u64, PositionHistory>,
}

impl MovementChecker {
    /// Every tracked history keeps one to ten positions.
    pub open spec fn wf(&self) -> bool {
        forall|k: u64| #[trigger] self.players@.contains_key(k) ==> self.players@[k].wf()
    }

    /// No player tracked.
    pub fn new() -> (r: Self)
        ensures
            r.wf(),
            r.players@ == Map::<u64, PositionHistory>::empty(),
    {
        MovementChecker { players: HashMap::new() }
    }

    /// Starts (or restarts) tracking a player at a position.
    pub fn init_player(&mut self, session_id: u64, x: u16, y: u16, room_id: u16, now: u64)
        requires
            old(self).wf(),
        ensures
            final(self).wf(),
            final(self).players@.contains_key(session_id),
            final(self).players@.remove(session_id) == old(self).players@.remove(session_id),
            final(self).players@[session_id].positions@ == seq![(x, y, now)],
            final(self).players@[session_id].room_id == room_id,
            final(self).players@[session_id].violations@.len() == 0,
            !final(self).players@[session_id].is_warping,
            final(self).players@[session_id].last_warp is None,
    {
        broadcast use vstd::std_specs::hash::group_hash_axioms;
        let h = PositionHistory::new(x, y, room_id, now);
        self.players.insert(session_id, h);
        proof {
            assert(self.players@.remove(session_id) =~= old(self).players@.remove(session_id));
        }
    }

    /// Checks a movement update. An untracked player starts being tracked at
    /// the new position and the move is clean.
    pub fn check_movement(&mut self, session_id: u64, new_x: u16, new_y: u16, room_id: u16, now: u64) -> (r: CheatResult)
        requires
            old(self).wf(),
        ensures
            final(self).wf(),
            final(self).players@.contains_key(session_id),
            final(self).players@.remove(session_id) == old(self).players@.remove(session_id),
            old(self).players@.contains_key(session_id) ==> update_post(
                old(self).players@[session_id],
                final(self).players@[session_id],
                new_x,
                new_y,
                room_id,
                now,
                r,
            ),
            !old(self).players@.contains_key(session_id) ==> {
                &&& r is Clean
                &&& final(self).players@[session_id].positions@ == seq![(new_x, new_y, now)]
                &&& final(self).players@[session_id].room_id == room_id
                &&& final(self).players@[session_id].violations@.len() == 0
                &&& !final(self).players@[session_id].is_warping
            },
    {
        broadcast use vstd::std_specs::hash::group_hash_axioms;
        match self.players.remove(&session_id) {
            None => {
                let h = PositionHistory::new(new_x, new_y, room_id, now);
                self.players.insert(session_id, h);
                proof {
                    assert(self.players@.remove(session_id) =~= old(self).players@.remove(session_id));
                }
                CheatResult::Clean
            },
            Some(mut h) => {
                let r = h.update(new_x, new_y, room_id, now);
                self.players.insert(session_id, h);
                proof {
                    assert(self.players@.remove(session_id) =~= old(self).players@.remove(session_id));
                }
                r
            },
        }
    }

    /// Lets the next move of a tracked player be a legitimate teleport.
    pub fn allow_warp(&mut self, session_id: u64)
        requires
            old(self).wf(),
        ensures
            final(self).wf(),
            final(self).players@.dom() == old(self).players@.dom(),
            final(self).players@.remove(session_id) == old(self).players@.remove(session_id),
            old(self).players@.contains_key(session_id) ==> final(self).players@[session_id] == (PositionHistory {
                is_warping: true,
                ..old(self).players@[session_id]
            }),
    {
        broadcast use vstd::std_specs::hash::group_hash_axioms;
        match self.players.remove(&session_id) {
            None => {},
            Some(mut h) => {
                h.set_warping();
                self.players.insert(session_id, h);
            },
        }
        proof {
            assert(self.players@.remove(session_id) =~= old(self).players@.remove(session_id));
            assert(self.players@.dom() =~= old(self).players@.dom());
        }
    }

    /// Moves a tracked player to a room and position (doors and the like).
    pub fn set_room(&mut self, session_id: u64, room_id: u16, x: u16, y: u16, now: u64)
        requires
            old(self).wf(),
        ensures
            final(self).wf(),
            final(self).players@.dom() == old(self).players@.dom(),
            final(self).players@.remove(session_id) == old(self).players@.remove(session_id),
            old(self).players@.contains_key(session_id) ==> {
                let o = old(self).players@[session_id];
                let f = final(self).players@[session_id];
                &&& f.room_id == room_id
                &&& f.positions@ == seq![(x, y, now)]
                &&& f.violations@ == o.violations@
                &&& f.is_warping == o.is_warping
                &&& f.last_warp == o.last_warp
            },
    {
        broadcast use vstd::std_specs::hash::group_hash_axioms;
        match self.players.remove(&session_id) {
            None => {},
            Some(mut h) => {
                h.room_id = room_id;
                h.positions = Vec::new();
                h.positions.push((x, y, now));
                self.players.insert(session_id, h);
            },
        }
        proof {
            assert(self.players@.remove(session_id) =~= old(self).players@.remove(session_id));
            assert(self.players@.dom() =~= old(self).players@.dom());
        }
    }

    /// Stops tracking a player.
    pub fn remove_player(&mut self, session_id: u64)
        requires
            old(self).wf(),
        ensures
            final(self).wf(),
            final(self).players@ == old(self).players@.remove(session_id),
    {
        broadcast use vstd::std_specs::hash::group_hash_axioms;
        self.players.remove(&session_id);
    }

    /// Number of tracked players.
    pub fn tracked_count(&self) -> (r: usize)
        ensures
            r == self.players@.len(),
    {
        broadcast use vstd::std_specs::hash::group_hash_axioms;
        self.players.len()
    }
}

/// A move announced as a warp is clean however far it goes, and it uses the
/// announcement up: the move after it is checked again.
pub proof fn lemma_warp_move_is_clean(
    o: PositionHistory,
    f: PositionHistory,
    new_x: u16,
    new_y: u16,
    new_room: u16,
    now: u64,
    r: CheatResult,
)
    requires
        o.is_warping,
        update_post(o, f, new_x, new_y, new_room, now, r),
    ensures
        r is Clean,
        !f.is_warping,
        f.positions@ == seq![(new_x, new_y, now)],
{
}

/// The finding behind a refused move.
pub open spec fn finding_of(r: CheatResult) -> Option<MovementFinding> {
    match r {
        CheatResult::Clean => None,
        CheatResult::Suspicious { reason, .. } => Some(reason),
        CheatResult::Cheating { reason } => Some(reason),
    }
}

/// A move inside the same room with no warp announced is refused exactly
/// when one finding is recorded: appended to the violations, with those
/// older than the window dropped, while the positions stay as they were. A
/// clean move appends its position (ten at most are kept) and leaves the
/// violations alone. A refused move is `Cheating` exactly when the window
/// then holds at least the threshold of violations; otherwise it is
/// `Suspicious` with severity 3 for a teleport and 2 for a speed hack. A
/// teleport is a move farther than 600 pixels at more than 3000 pixels per
/// second; a speed hack one at more than 600 pixels per second after more
/// than 100 milliseconds.
pub proof fn lemma_update_same_room(
    o: PositionHistory,
    f: PositionHistory,
    new_x: u16,
    new_y: u16,
    now: u64,
    r: CheatResult,
)
    requires
        o.wf(),
        !o.is_warping,
        o.violations@.len() < u32::MAX,
        update_post(o, f, new_x, new_y, o.room_id, now, r),
    ensures
        !(r is Clean) <==> (finding_of(r) matches Some(fd) && f.violations@ == recent(
            o.violations@.push((now, fd)),
            now,
        ) && f.positions@ == o.positions@),
        r is Clean ==> f.violations@ == o.violations@ && f.positions@ == keep_recent_positions(
            o.positions@.push((new_x, new_y, now)),
        ),
        r is Cheating <==> (!(r is Clean) && f.violations@.len() >= CHEAT_VIOLATION_THRESHOLD),
        r matches CheatResult::Suspicious { reason, severity } ==> (severity == 3 <==> reason.kind
            == FindingKind::Teleport) && (severity == 2 <==> reason.kind == FindingKind::SpeedHack),
        !(r is Clean) <==> (teleport_detected(
            dist_sq(o.positions@.last().0, o.positions@.last().1, new_x, new_y),
            elapsed(now, o.positions@.last().2),
        ) || speed_detected(
            dist_sq(o.positions@.last().0, o.positions@.last().1, new_x, new_y),
            elapsed(now, o.positions@.last().2),
        )),
        finding_of(r) matches Some(fd) ==> (fd.kind == FindingKind::Teleport <==> teleport_detected(
            dist_sq(o.positions@.last().0, o.positions@.last().1, new_x, new_y),
            elapsed(now, o.positions@.last().2),
        )),
        f.room_id == o.room_id,
{
    let (lx, ly, lt) = o.positions@.last();
    let d2 = dist_sq(lx, ly, new_x, new_y);
    let e = elapsed(now, lt);
    if teleport_detected(d2, e) || speed_detected(d2, e) {
        let fd = finding_of(r)->0;
        lemma_recent_len(o.violations@.push((now, fd)), now);
    }
}

} // verus!
