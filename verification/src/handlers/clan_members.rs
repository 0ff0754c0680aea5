//! Clan membership: joining by invitation, leaving, dissolving, the
//! leader's actions, and the clan status message.
//!
//! Only a clan's leader may dissolve it, kick members, invite players or
//! change its colours and texts; the leader cannot leave (the clan must be
//! dissolved instead). A leader may invite the same player at most once
//! every 15 seconds.

use vstd::prelude::*;

use crate::game::{PendingClanInvite, PlayerSession};
use crate::handlers::clan::MSG_CLAN_INFO;
use crate::protocol::{le16, le32, MessageWriter};

verus! {

broadcast use vstd::std_specs::hash::group_hash_axioms;

/// Dissolving a clan (client to server).
pub const MSG_CLAN_DISSOLVE: u16 = 127;

/// Answering a clan invitation (both directions).
pub const MSG_CLAN_INVITE: u16 = 128;

/// Leaving a clan (client to server).
pub const MSG_CLAN_LEAVE: u16 = 129;

/// A leader's action on the clan (client to server).
pub const MSG_CLAN_ADMIN: u16 = 131;

/// Seconds between two invitations of the same player by one leader.
pub const CLAN_INVITE_COOLDOWN_SECS: u64 = 15;

/// The answer that declines an invitation.
pub const INVITE_DECLINE: u8 = 2;

/// The clan a session may act on as its leader: its clan, when it leads it.
pub open spec fn led_clan_spec(clan_id: Option<i64>, is_leader: bool) -> Option<i64> {
    if is_leader { clan_id } else { None }
}

/// The clan a session may dissolve, kick from, invite to or edit.
pub fn led_clan(clan_id: Option<i64>, is_leader: bool) -> (r: Option<i64>)
    ensures
        r == led_clan_spec(clan_id, is_leader),
{
    if is_leader { clan_id } else { None }
}

/// The clan a session may leave: its clan, unless it leads it.
pub fn leavable_clan(clan_id: Option<i64>, is_leader: bool) -> (r: Option<i64>)
    ensures
        r == (if is_leader { None } else { clan_id }),
{
    if is_leader { None } else { clan_id }
}

/// Whether a clan with `member_count` members of `max_members` takes one more.
pub fn clan_has_room(member_count: i64, max_members: i64) -> (r: bool)
    ensures
        r == (member_count < max_members),
{
    member_count < max_members
}

/// The member a kick request names: its 0-based position in the member
/// list, when the list has it.
pub fn kick_position(member_slot: u8, member_count: usize) -> (r: Option<usize>)
    ensures
        r == (if (member_slot as usize) < member_count { Some(member_slot as usize) } else { None }),
{
    if (member_slot as usize) < member_count { Some(member_slot as usize) } else { None }
}

/// A colour as stored: red, green and blue packed into 24 bits.
pub open spec fn packed_color(r: u8, g: u8, b: u8) -> int {
    (r as u32) * 65536 + (g as u32) * 256 + (b as u32)
}

/// Packs a colour for storage.
pub fn pack_color(r: u8, g: u8, b: u8) -> (c: u32)
    ensures
        c == packed_color(r, g, b),
{
    assert(((r as u32) << 16u32) | ((g as u32) << 8u32) | (b as u32) == (r as u32) * 65536 + (g as u32) * 256
        + (b as u32)) by (bit_vector);
    ((r as u32) << 16u32) | ((g as u32) << 8u32) | (b as u32)
}

/// The red, green and blue bytes of a stored colour (its low 24 bits).
pub fn color_channels(c: i64) -> (r: (u8, u8, u8))
    ensures
        r == ((((c as u64) / 65536) % 256) as u8, (((c as u64) / 256) % 256) as u8, ((c as u64) % 256) as u8),
{
    let v = c as u64;
    assert((v >> 16u64) & 0xffu64 == (v / 65536) % 256) by (bit_vector);
    assert((v >> 8u64) & 0xffu64 == (v / 256) % 256) by (bit_vector);
    assert(v & 0xffu64 == v % 256) by (bit_vector);
    (((v >> 16u64) & 0xffu64) as u8, ((v >> 8u64) & 0xffu64) as u8, (v & 0xffu64) as u8)
}

/// The clan status answer (type 5): the points (low 32 bits), and for a
/// full status (any sub-type but 1) the level's low byte and whether the
/// clan has a base.
pub open spec fn clan_status_message(sub_type: u8, points: i64, level: i64, has_base: i64) -> Seq<u8> {
    let head = le16(MSG_CLAN_INFO) + seq![5u8] + le32(points as u32);
    if sub_type == 1 {
        head
    } else {
        head + seq![level as u8, if has_base != 0 { 1u8 } else { 0u8 }]
    }
}

/// Builds the clan status answer.
pub fn build_clan_status(sub_type: u8, points: i64, level: i64, has_base: i64) -> (r: Vec<u8>)
    ensures
        r@ == clan_status_message(sub_type, points, level, has_base),
{
    let mut w = MessageWriter::new();
    w.write_u16(MSG_CLAN_INFO);
    w.write_u8(5);
    w.write_u32(points as u32);
    if sub_type != 1 {
        w.write_u8(level as u8);
        w.write_u8(if has_base != 0 { 1 } else { 0 });
    }
    let r = w.into_bytes();
    assert(r@ =~= clan_status_message(sub_type, points, level, has_base));
    r
}

/// Whether the last invitation of a player, sent at `last` (ms), still
/// blocks another at `now`: fewer than 15 whole seconds have passed.
pub open spec fn invite_blocked(last: Option<i64>, now: i64) -> bool {
    match last {
        Some(t) => (if now >= t { (now - t) / 1000 } else { 0 }) < CLAN_INVITE_COOLDOWN_SECS,
        None => false,
    }
}

impl PlayerSession {
    /// Answers the pending invitation with `response` (2 declines, anything
    /// else accepts). The invitation is used up either way; the clan to
    /// join comes back when it is accepted by a player outside any clan.
    pub fn answer_clan_invite(&mut self, response: u8) -> (r: Option<i64>)
        ensures
            r == (match old(self).pending_clan_invite {
                Some(inv) => if response == INVITE_DECLINE || old(self).clan_id is Some {
                    None
                } else {
                    Some(inv.clan_id)
                },
                None => None,
            }),
            final(self).pending_clan_invite is None,
            final(self).clan_id == old(self).clan_id,
            final(self).is_clan_leader == old(self).is_clan_leader,
            final(self).has_clan_base == old(self).has_clan_base,
            final(self).outgoing_messages@ == old(self).outgoing_messages@,
    {
        let answer = match &self.pending_clan_invite {
            Some(inv) => {
                if response == INVITE_DECLINE || self.clan_id.is_some() {
                    None
                } else {
                    Some(inv.clan_id)
                }
            },
            None => None,
        };
        self.pending_clan_invite = None;
        answer
    }

    /// Records that the session joined `clan_id` as a member.
    pub fn join_clan(&mut self, clan_id: i64, has_base: bool)
        ensures
            final(self).clan_id == Some(clan_id),
            !final(self).is_clan_leader,
            final(self).has_clan_base == has_base,
            final(self).pending_clan_invite == old(self).pending_clan_invite,
            final(self).outgoing_messages@ == old(self).outgoing_messages@,
    {
        self.clan_id = Some(clan_id);
        self.is_clan_leader = false;
        self.has_clan_base = has_base;
    }

    /// Records that the session is in no clan (it left, was kicked, or the
    /// clan was dissolved).
    pub fn leave_clan(&mut self)
        ensures
            final(self).clan_id is None,
            !final(self).is_clan_leader,
            !final(self).has_clan_base,
            final(self).pending_clan_invite == old(self).pending_clan_invite,
            final(self).outgoing_messages@ == old(self).outgoing_messages@,
    {
        self.clan_id = None;
        self.is_clan_leader = false;
        self.has_clan_base = false;
    }

    /// Starts an invitation of `target` at `now`: refused while the last one
    /// to the same player is under 15 seconds old; otherwise `now` is
    /// recorded as the last invitation.
    pub fn start_clan_invite(&mut self, target: u16, now: i64) -> (r: bool)
        ensures
            r == !invite_blocked(
                if old(self).clan_invite_cooldowns@.contains_key(target) {
                    Some(old(self).clan_invite_cooldowns@[target])
                } else {
                    None
                },
                now,
            ),
            r ==> final(self).clan_invite_cooldowns@ == old(self).clan_invite_cooldowns@.insert(target, now),
            !r ==> final(self).clan_invite_cooldowns@ == old(self).clan_invite_cooldowns@,
            final(self).clan_id == old(self).clan_id,
            final(self).is_clan_leader == old(self).is_clan_leader,
            final(self).outgoing_messages@ == old(self).outgoing_messages@,
    {
        match self.clan_invite_cooldowns.get(&target) {
            Some(last) => {
                let t = *last;
                let elapsed: i128 = if now >= t { (now as i128 - t as i128) / 1000 } else { 0 };
                if elapsed < CLAN_INVITE_COOLDOWN_SECS as i128 {
                    return false;
                }
            },
            None => {},
        }
        self.clan_invite_cooldowns.insert(target, now);
        true
    }

    /// Hands the session an invitation to a clan.
    pub fn receive_clan_invite(&mut self, invite: PendingClanInvite)
        ensures
            final(self).pending_clan_invite == Some(invite),
            final(self).clan_id == old(self).clan_id,
            final(self).outgoing_messages@ == old(self).outgoing_messages@,
    {
        self.pending_clan_invite = Some(invite);
    }
}

} // verus!
