//! Anti-cheat: movement validation, per-session flags and escalating
//! responses to reported hacks.

pub mod hack_tracker;
pub mod movement;
pub mod types;

use std::collections::HashMap;

use vstd::prelude::*;

use crate::anticheat::movement::{update_post, MovementChecker};
use crate::anticheat::types::CheatResult;
use crate::constants::{CHEAT_FLAGS_TO_BAN, CHEAT_FLAGS_TO_KICK};

verus! {

/// The flags of a session (zero when it has none).
pub open spec fn flags_of(m: Map<u64, u32>, session_id: u64) -> nat {
    if m.contains_key(session_id) {
        m[session_id] as nat
    } else {
        0
    }
}

/// Movement validation combined with per-session flag counts.
pub struct AntiCheat {
    pub movement: MovementChecker,
    /// Session id to the number of times it was flagged.
    pub flagged: HashMap<u64, u32>,
}

impl AntiCheat {
    pub open spec fn wf(&self) -> bool {
        self.movement.wf()
    }

    /// Nothing tracked, nobody flagged.
    pub fn new() -> (r: Self)
        ensures
            r.wf(),
            r.movement.players@ == Map::<u64, movement::PositionHistory>::empty(),
            r.flagged@ == Map::<u64, u32>::empty(),
    {
        AntiCheat { movement: MovementChecker::new(), flagged: HashMap::new() }
    }

    /// Starts tracking a player at a position.
    pub fn init_player(&mut self, session_id: u64, x: u16, y: u16, room_id: u16, now: u64)
        requires
            old(self).wf(),
        ensures
            final(self).wf(),
            final(self).flagged@ == old(self).flagged@,
            final(self).movement.players@.contains_key(session_id),
            final(self).movement.players@.remove(session_id) == old(self).movement.players@.remove(session_id),
            final(self).movement.players@[session_id].positions@ == seq![(x, y, now)],
            final(self).movement.players@[session_id].room_id == room_id,
            final(self).movement.players@[session_id].violations@.len() == 0,
            !final(self).movement.players@[session_id].is_warping,
            final(self).movement.players@[session_id].last_warp is None,
    {
        self.movement.init_player(session_id, x, y, room_id, now);
    }

    /// Checks a movement update and flags the session when it is cheating.
    pub fn check_movement(&mut self, session_id: u64, new_x: u16, new_y: u16, room_id: u16, now: u64) -> (r: CheatResult)
        requires
            old(self).wf(),
            flags_of(old(self).flagged@, session_id) < u32::MAX,
        ensures
            final(self).wf(),
            final(self).movement.players@.remove(session_id) == old(self).movement.players@.remove(session_id),
            old(self).movement.players@.contains_key(session_id) ==> update_post(
                old(self).movement.players@[session_id],
                final(self).movement.players@[session_id],
                new_x,
                new_y,
                room_id,
                now,
                r,
            ),
            !old(self).movement.players@.contains_key(session_id) ==> r is Clean,
            r is Cheating ==> final(self).flagged@ == old(self).flagged@.insert(
                session_id,
                (flags_of(old(self).flagged@, session_id) + 1) as u32,
            ),
            !(r is Cheating) ==> final(self).flagged@ == old(self).flagged@,
    {
        let r = self.movement.check_movement(session_id, new_x, new_y, room_id, now);
        if r.is_cheating() {
            self.flag_player(session_id);
        }
        r
    }

    /// Lets the next move of the session be a legitimate teleport.
    pub fn allow_warp(&mut self, session_id: u64)
        requires
            old(self).wf(),
        ensures
            final(self).wf(),
            final(self).flagged@ == old(self).flagged@,
            final(self).movement.players@.dom() == old(self).movement.players@.dom(),
            old(self).movement.players@.contains_key(session_id) ==> final(self).movement.players@[session_id].is_warping,
    {
        self.movement.allow_warp(session_id);
    }

    /// Moves a tracked player to a room and position.
    pub fn set_room(&mut self, session_id: u64, room_id: u16, x: u16, y: u16, now: u64)
        requires
            old(self).wf(),
        ensures
            final(self).wf(),
            final(self).flagged@ == old(self).flagged@,
            final(self).movement.players@.dom() == old(self).movement.players@.dom(),
            old(self).movement.players@.contains_key(session_id) ==> {
                &&& final(self).movement.players@[session_id].room_id == room_id
                &&& final(self).movement.players@[session_id].positions@ == seq![(x, y, now)]
            },
    {
        self.movement.set_room(session_id, room_id, x, y, now);
    }

    /// Adds one flag to a session.
    pub fn flag_player(&mut self, session_id: u64)
        requires
            flags_of(old(self).flagged@, session_id) < u32::MAX,
        ensures
            final(self).movement == old(self).movement,
            final(self).flagged@ == old(self).flagged@.insert(
                session_id,
                (flags_of(old(self).flagged@, session_id) + 1) as u32,
            ),
    {
        broadcast use vstd::std_specs::hash::group_hash_axioms;
        let count: u32 = match self.flagged.get(&session_id) {
            Some(c) => *c,
            None => 0,
        };
        self.flagged.insert(session_id, count + 1);
    }

    /// The session's flag count.
    pub fn get_flags(&self, session_id: u64) -> (r: u32)
        ensures
            r == flags_of(self.flagged@, session_id),
    {
        broadcast use vstd::std_specs::hash::group_hash_axioms;
        match self.flagged.get(&session_id) {
            Some(c) => *c,
            None => 0,
        }
    }

    /// Whether the session has been flagged enough times to be kicked.
    pub fn should_kick(&self, session_id: u64) -> (r: bool)
        ensures
            r == (flags_of(self.flagged@, session_id) >= CHEAT_FLAGS_TO_KICK),
    {
        self.get_flags(session_id) >= CHEAT_FLAGS_TO_KICK
    }

    /// Whether the session has been flagged enough times to be banned.
    pub fn should_ban(&self, session_id: u64) -> (r: bool)
        ensures
            r == (flags_of(self.flagged@, session_id) >= CHEAT_FLAGS_TO_BAN),
    {
        self.get_flags(session_id) >= CHEAT_FLAGS_TO_BAN
    }

    /// Forgets a session: its positions and its flags.
    pub fn remove_player(&mut self, session_id: u64)
        requires
            old(self).wf(),
        ensures
            final(self).wf(),
            final(self).movement.players@ == old(self).movement.players@.remove(session_id),
            final(self).flagged@ == old(self).flagged@.remove(session_id),
    {
        broadcast use vstd::std_specs::hash::group_hash_axioms;
        self.movement.remove_player(session_id);
        self.flagged.remove(&session_id);
    }

    /// The numbers of tracked players and of flagged sessions, for the
    /// periodic statistics log.
    pub fn stats(&self) -> (r: (usize, usize))
        ensures
            r.0 == self.movement.players@.len(),
            r.1 == self.flagged@.len(),
    {
        broadcast use vstd::std_specs::hash::group_hash_axioms;
        (self.movement.tracked_count(), self.flagged.len())
    }
}

/// A session flagged often enough to be banned is also one to kick.
pub proof fn lemma_ban_implies_kick(flags: Map<u64, u32>, session_id: u64)
    ensures
        flags_of(flags, session_id) >= CHEAT_FLAGS_TO_BAN ==> flags_of(flags, session_id) >= CHEAT_FLAGS_TO_KICK,
{
}

/// Each flag adds exactly one to the session's count and leaves others alone.
pub proof fn lemma_flag_counts(flags: Map<u64, u32>, session_id: u64, other: u64)
    requires
        flags_of(flags, session_id) < u32::MAX,
    ensures
        flags_of(flags.insert(session_id, (flags_of(flags, session_id) + 1) as u32), session_id)
            == flags_of(flags, session_id) + 1,
        other != session_id ==> flags_of(
            flags.insert(session_id, (flags_of(flags, session_id) + 1) as u32),
            other,
        ) == flags_of(flags, other),
{
}

} // verus!
