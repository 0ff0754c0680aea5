//! Emotes (with the dice emote's roll) and hurt actions shown to the room.

use rand::Rng;
use vstd::prelude::*;

use crate::protocol::{le16, le16_at, MessageWriter};

verus! {

/// An emote shown by a player.
pub const MSG_EMOTE: u16 = 23;

/// The result of the dice emote, to the player who rolled.
pub const MSG_EMOTE_DICE: u16 = 93;

/// A player got hurt.
pub const MSG_ACTION: u16 = 12;

/// The dice emote.
pub const DICE_EMOTE_ID: u8 = 13;

/// What an emote request comes to.
#[derive(Debug, Clone, Copy, PartialEq, Eq, Structural)]
pub enum EmoteOutcome {
    /// The slot is outside 1..=5: reported as a hack.
    BadSlot,
    /// The slot holds no emote: reported as a hack.
    EmptySlot,
    /// The emote is shown; `dice` says it is the dice emote.
    Show { emote_id: u8, dice: bool },
}

/// The outcome of showing the emote of `slot`.
pub open spec fn emote_outcome(slot: u8, emotes: Seq<u8>) -> EmoteOutcome {
    if !(1 <= slot <= 5) {
        EmoteOutcome::BadSlot
    } else if emotes[slot - 1] == 0 {
        EmoteOutcome::EmptySlot
    } else {
        EmoteOutcome::Show { emote_id: emotes[slot - 1], dice: emotes[slot - 1] == DICE_EMOTE_ID }
    }
}

/// Decides an emote request from the emote slots.
pub fn decide_emote(slot: u8, emotes: &[u8; 5]) -> (r: EmoteOutcome)
    ensures
        r == emote_outcome(slot, emotes@),
{
    if slot < 1 || slot > 5 {
        return EmoteOutcome::BadSlot;
    }
    let id = emotes[(slot - 1) as usize];
    if id == 0 {
        EmoteOutcome::EmptySlot
    } else {
        EmoteOutcome::Show { emote_id: id, dice: id == DICE_EMOTE_ID }
    }
}

/// A die roll from `rand`'s thread generator (`Rng::gen_range(1..=6)`). It
/// is random: only its range is known.
#[verifier::external_body]
fn random_die() -> (r: u8)
    ensures
        1 <= r <= 6,
{
    rand::thread_rng().gen_range(1u8..=6)
}

/// Rolls the dice emote's die.
pub fn roll_die() -> (r: u8)
    ensures
        1 <= r <= 6,
{
    random_die()
}

/// The emote shown to the room: player, emote, and the roll for dice.
pub open spec fn emote_message(player_id: u16, emote_id: u8, roll: Option<u8>) -> Seq<u8> {
    let base = le16(MSG_EMOTE) + le16(player_id) + seq![emote_id];
    match roll {
        Some(x) => base.push(x),
        None => base,
    }
}

/// Builds the emote shown to the room.
pub fn build_emote(player_id: u16, emote_id: u8, roll: Option<u8>) -> (r: Vec<u8>)
    ensures
        r@ == emote_message(player_id, emote_id, roll),
{
    let mut w = MessageWriter::new();
    w.write_u16(MSG_EMOTE);
    w.write_u16(player_id);
    w.write_u8(emote_id);
    match roll {
        Some(x) => w.write_u8(x),
        None => {},
    }
    let r = w.into_bytes();
    assert(r@ =~= emote_message(player_id, emote_id, roll));
    r
}

/// The roll told to the player who rolled.
pub open spec fn dice_message(roll: u8) -> Seq<u8> {
    le16(MSG_EMOTE_DICE) + seq![roll]
}

/// Builds the roll message.
pub fn build_dice(roll: u8) -> (r: Vec<u8>)
    ensures
        r@ == dice_message(roll),
{
    let mut w = MessageWriter::new();
    w.write_u16(MSG_EMOTE_DICE);
    w.write_u8(roll);
    let r = w.into_bytes();
    assert(r@ =~= dice_message(roll));
    r
}

/// A hurt action: position, hurt direction and speeds (signed, sent as
/// their 16-bit patterns).
#[derive(Debug, Clone, Copy, PartialEq, Eq, Structural)]
pub struct HurtAction {
    pub x: u16,
    pub y: u16,
    pub hurtdir: u16,
    pub hsp: u16,
    pub vsp: u16,
}

/// The hurt action a body encodes (10 bytes at least).
pub open spec fn hurt_action(payload: Seq<u8>) -> Option<HurtAction> {
    if payload.len() < 10 {
        None
    } else {
        Some(HurtAction {
            x: le16_at(payload, 0),
            y: le16_at(payload, 2),
            hurtdir: le16_at(payload, 4),
            hsp: le16_at(payload, 6),
            vsp: le16_at(payload, 8),
        })
    }
}

/// Reads a hurt action.
pub fn parse_action(payload: &[u8]) -> (r: Option<HurtAction>)
    ensures
        r == hurt_action(payload@),
{
    if payload.len() < 10 {
        return None;
    }
    Some(HurtAction {
        x: payload[0] as u16 + 256 * (payload[1] as u16),
        y: payload[2] as u16 + 256 * (payload[3] as u16),
        hurtdir: payload[4] as u16 + 256 * (payload[5] as u16),
        hsp: payload[6] as u16 + 256 * (payload[7] as u16),
        vsp: payload[8] as u16 + 256 * (payload[9] as u16),
    })
}

/// The hurt action relayed to the room, with the player's id.
pub open spec fn action_message(player_id: u16, a: HurtAction) -> Seq<u8> {
    le16(MSG_ACTION) + le16(player_id) + le16(a.x) + le16(a.y) + le16(a.hurtdir) + le16(a.hsp) + le16(a.vsp)
}

/// Builds the relayed hurt action.
pub fn build_action(player_id: u16, a: &HurtAction) -> (r: Vec<u8>)
    ensures
        r@ == action_message(player_id, *a),
{
    let mut w = MessageWriter::new();
    w.write_u16(MSG_ACTION);
    w.write_u16(player_id);
    w.write_u16(a.x);
    w.write_u16(a.y);
    w.write_u16(a.hurtdir);
    w.write_u16(a.hsp);
    w.write_u16(a.vsp);
    let r = w.into_bytes();
    assert(r@ =~= action_message(player_id, *a));
    r
}

} // verus!
