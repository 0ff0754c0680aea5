//! Races: a session starts a race, passes checkpoints (the rooms it enters
//! on the way), and finishes with a time when it went through the race's
//! checkpoints in order.

use vstd::prelude::*;

use crate::game::PlayerSession;
use crate::protocol::{le16, le32, MessageWriter};

verus! {

/// Race records and results (server to client).
pub const MSG_RACE_INFO: u16 = 120;

/// The rooms of the Magma Dungeon race (race 1), in the order they are
/// passed.
pub open spec fn magma_dungeon_checkpoints() -> Seq<u16> {
    seq![91u16, 92, 94, 94, 95, 95, 97, 97, 98, 99, 100, 101, 102, 103]
}

/// The checkpoint rooms of a race; only race 1 has any.
pub open spec fn race_checkpoints(race_id: u8) -> Option<Seq<u16>> {
    if race_id == 1 { Some(magma_dungeon_checkpoints()) } else { None }
}

fn expected_checkpoints(race_id: u8) -> (r: Option<Vec<u16>>)
    ensures
        match r {
            Some(v) => race_checkpoints(race_id) == Some(v@),
            None => race_checkpoints(race_id) is None,
        },
{
    if race_id == 1 {
        let v: Vec<u16> = vec![91, 92, 94, 94, 95, 95, 97, 97, 98, 99, 100, 101, 102, 103];
        assert(v@ =~= magma_dungeon_checkpoints());
        Some(v)
    } else {
        None
    }
}

/// The end of a race.
#[derive(Debug, Clone, Copy, PartialEq, Eq, Structural)]
pub enum RaceEnd {
    /// Not the race being run, or no start time, or a race without
    /// checkpoints: nothing changes.
    Ignored,
    /// The checkpoints do not match: the race is called off.
    Invalid,
    /// Finished in `time_ms` milliseconds (truncated to 32 bits).
    Finished { time_ms: u32 },
}

/// The race time from `start` to `now`, in milliseconds truncated to 32
/// bits (0 if the clock went back).
pub open spec fn race_time(start: i64, now: i64) -> u32 {
    if now > start { ((now - start) % 0x1_0000_0000) as u32 } else { 0 }
}

impl PlayerSession {
    /// Starts race `race_id` at `now` with no checkpoints passed.
    pub fn start_race(&mut self, race_id: u8, now: i64)
        ensures
            final(self).race_id == Some(race_id),
            final(self).race_start_time == Some(now),
            final(self).race_checkpoints@.len() == 0,
            final(self).room_id == old(self).room_id,
            final(self).outgoing_messages@ == old(self).outgoing_messages@,
    {
        self.race_id = Some(race_id);
        self.race_start_time = Some(now);
        self.race_checkpoints = Vec::new();
    }

    /// Records the current room as a passed checkpoint; refused (`false`)
    /// outside a race.
    pub fn record_checkpoint(&mut self) -> (r: bool)
        ensures
            r == old(self).race_id is Some,
            r ==> final(self).race_checkpoints@ == old(self).race_checkpoints@.push(old(self).room_id),
            !r ==> final(self).race_checkpoints@ == old(self).race_checkpoints@,
            final(self).race_id == old(self).race_id,
            final(self).race_start_time == old(self).race_start_time,
            final(self).room_id == old(self).room_id,
    {
        if self.race_id.is_none() {
            return false;
        }
        let room = self.room_id;
        self.race_checkpoints.push(room);
        true
    }

    /// Ends race `race_id` at `now`. A finished or invalid race is cleared
    /// from the session.
    pub fn finish_race(&mut self, race_id: u8, now: i64) -> (r: RaceEnd)
        ensures
            old(self).race_id != Some(race_id) || old(self).race_start_time is None || race_checkpoints(race_id) is None
                ==> r == RaceEnd::Ignored && final(self).race_id == old(self).race_id
                    && final(self).race_start_time == old(self).race_start_time
                    && final(self).race_checkpoints@ == old(self).race_checkpoints@,
            old(self).race_id == Some(race_id) && old(self).race_start_time is Some && race_checkpoints(race_id) is Some
                ==> {
                &&& r == if old(self).race_checkpoints@ == race_checkpoints(race_id)->0 {
                    RaceEnd::Finished { time_ms: race_time(old(self).race_start_time->0, now) }
                } else {
                    RaceEnd::Invalid
                }
                &&& final(self).race_id is None && final(self).race_start_time is None
                &&& final(self).race_checkpoints@.len() == 0
            },
            final(self).room_id == old(self).room_id,
            final(self).outgoing_messages@ == old(self).outgoing_messages@,
    {
        if self.race_id != Some(race_id) {
            return RaceEnd::Ignored;
        }
        let start = match self.race_start_time {
            Some(t) => t,
            None => return RaceEnd::Ignored,
        };
        let expected = match expected_checkpoints(race_id) {
            Some(v) => v,
            None => return RaceEnd::Ignored,
        };
        let matches = same_rooms(&self.race_checkpoints, &expected);
        self.race_id = None;
        self.race_start_time = None;
        self.race_checkpoints = Vec::new();
        if !matches {
            return RaceEnd::Invalid;
        }
        let time_ms: u32 = if now > start { ((now as i128 - start as i128) % 0x1_0000_0000) as u32 } else { 0 };
        RaceEnd::Finished { time_ms }
    }
}

fn same_rooms(a: &Vec<u16>, b: &Vec<u16>) -> (r: bool)
    ensures
        r == (a@ == b@),
{
    if a.len() != b.len() {
        return false;
    }
    let mut i: usize = 0;
    while i < a.len()
        invariant
            i <= a@.len(),
            a@.len() == b@.len(),
            forall|j: int| 0 <= j < i ==> a@[j] == b@[j],
        decreases a@.len() - i,
    {
        if a[i] != b[i] {
            return false;
        }
        i += 1;
    }
    assert(a@ =~= b@);
    true
}

/// The answer to a finished race (type 2): the time.
pub open spec fn race_time_message(time_ms: u32) -> Seq<u8> {
    le16(MSG_RACE_INFO) + seq![2u8] + le32(time_ms)
}

/// Builds the answer to a finished race.
pub fn build_race_time(time_ms: u32) -> (r: Vec<u8>)
    ensures
        r@ == race_time_message(time_ms),
{
    let mut w = MessageWriter::new();
    w.write_u16(MSG_RACE_INFO);
    w.write_u8(2);
    w.write_u32(time_ms);
    let r = w.into_bytes();
    assert(r@ =~= race_time_message(time_ms));
    r
}

/// The answer to a time limit request (type 3).
pub open spec fn race_limit_message(limit: u32) -> Seq<u8> {
    le16(MSG_RACE_INFO) + seq![3u8] + le32(limit)
}

/// Builds the answer to a time limit request.
pub fn build_race_limit(limit: u32) -> (r: Vec<u8>)
    ensures
        r@ == race_limit_message(limit),
{
    let mut w = MessageWriter::new();
    w.write_u16(MSG_RACE_INFO);
    w.write_u8(3);
    w.write_u32(limit);
    let r = w.into_bytes();
    assert(r@ =~= race_limit_message(limit));
    r
}

/// A player stepping onto a moving platform or another player (both
/// directions).
pub const MSG_MOVE_GET_ON: u16 = 124;

/// A player stepping off what they stood on (both directions).
pub const MSG_MOVE_GET_OFF: u16 = 125;

/// What the room is told when a player gets on something: the player, what
/// it stands on (0 nothing, 1 a player, 2 a platform) and its id.
pub open spec fn move_get_on_message(player_id: u16, stand_on: u8, stand_on_id: u16) -> Seq<u8> {
    le16(MSG_MOVE_GET_ON) + le16(player_id) + seq![stand_on] + le16(stand_on_id)
}

/// Builds the "got on" relay.
pub fn build_move_get_on(player_id: u16, stand_on: u8, stand_on_id: u16) -> (r: Vec<u8>)
    ensures
        r@ == move_get_on_message(player_id, stand_on, stand_on_id),
{
    let mut w = MessageWriter::new();
    w.write_u16(MSG_MOVE_GET_ON);
    w.write_u16(player_id);
    w.write_u8(stand_on);
    w.write_u16(stand_on_id);
    let r = w.into_bytes();
    assert(r@ =~= move_get_on_message(player_id, stand_on, stand_on_id));
    r
}

/// What the room is told when a player gets off.
pub open spec fn move_get_off_message(player_id: u16) -> Seq<u8> {
    le16(MSG_MOVE_GET_OFF) + le16(player_id)
}

/// Builds the "got off" relay.
pub fn build_move_get_off(player_id: u16) -> (r: Vec<u8>)
    ensures
        r@ == move_get_off_message(player_id),
{
    let mut w = MessageWriter::new();
    w.write_u16(MSG_MOVE_GET_OFF);
    w.write_u16(player_id);
    let r = w.into_bytes();
    assert(r@ =~= move_get_off_message(player_id));
    r
}

} // verus!
