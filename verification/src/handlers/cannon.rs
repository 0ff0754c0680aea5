//! Cannons: entering, aiming, setting the power and shooting are relayed
//! to the rest of the room.

use vstd::prelude::*;

use crate::protocol::{le16, le16_at, MessageWriter};

verus! {

/// A player enters a cannon.
pub const MSG_CANNON_ENTER: u16 = 98;

/// A cannon turns.
pub const MSG_CANNON_MOVE: u16 = 99;

/// A cannon's power is set.
pub const MSG_CANNON_SET_POWER: u16 = 100;

/// A player is shot from a cannon.
pub const MSG_CANNON_SHOOT: u16 = 101;

/// The relay of an enter request (cannon, angle) by `player_id`; `None` for
/// a body shorter than 2 bytes.
pub open spec fn cannon_enter_message(payload: Seq<u8>, player_id: u16) -> Option<Seq<u8>> {
    if payload.len() < 2 {
        None
    } else {
        Some(le16(MSG_CANNON_ENTER) + le16(player_id) + seq![payload[0], payload[1]])
    }
}

/// Builds the relay of an enter request.
pub fn build_cannon_enter(payload: &[u8], player_id: u16) -> (r: Option<Vec<u8>>)
    ensures
        match r {
            Some(v) => cannon_enter_message(payload@, player_id) == Some(v@),
            None => cannon_enter_message(payload@, player_id) is None,
        },
{
    if payload.len() < 2 {
        return None;
    }
    let mut w = MessageWriter::new();
    w.write_u16(MSG_CANNON_ENTER);
    w.write_u16(player_id);
    w.write_u8(payload[0]);
    w.write_u8(payload[1]);
    let r = w.into_bytes();
    assert(r@ =~= le16(MSG_CANNON_ENTER) + le16(player_id) + seq![payload@[0], payload@[1]]);
    Some(r)
}

/// The relay of a turn request (cannon, angle, direction); `None` for a
/// body shorter than 3 bytes.
pub open spec fn cannon_move_message(payload: Seq<u8>) -> Option<Seq<u8>> {
    if payload.len() < 3 {
        None
    } else {
        Some(le16(MSG_CANNON_MOVE) + seq![payload[0], payload[1], payload[2]])
    }
}

/// Builds the relay of a turn request.
pub fn build_cannon_move(payload: &[u8]) -> (r: Option<Vec<u8>>)
    ensures
        match r {
            Some(v) => cannon_move_message(payload@) == Some(v@),
            None => cannon_move_message(payload@) is None,
        },
{
    if payload.len() < 3 {
        return None;
    }
    let mut w = MessageWriter::new();
    w.write_u16(MSG_CANNON_MOVE);
    w.write_u8(payload[0]);
    w.write_u8(payload[1]);
    w.write_u8(payload[2]);
    let r = w.into_bytes();
    assert(r@ =~= le16(MSG_CANNON_MOVE) + seq![payload@[0], payload@[1], payload@[2]]);
    Some(r)
}

/// The relay of a power request (cannon, power); `None` for a body shorter
/// than 2 bytes.
pub open spec fn cannon_power_message(payload: Seq<u8>) -> Option<Seq<u8>> {
    if payload.len() < 2 {
        None
    } else {
        Some(le16(MSG_CANNON_SET_POWER) + seq![payload[0], payload[1]])
    }
}

/// Builds the relay of a power request.
pub fn build_cannon_power(payload: &[u8]) -> (r: Option<Vec<u8>>)
    ensures
        match r {
            Some(v) => cannon_power_message(payload@) == Some(v@),
            None => cannon_power_message(payload@) is None,
        },
{
    if payload.len() < 2 {
        return None;
    }
    let mut w = MessageWriter::new();
    w.write_u16(MSG_CANNON_SET_POWER);
    w.write_u8(payload[0]);
    w.write_u8(payload[1]);
    let r = w.into_bytes();
    assert(r@ =~= le16(MSG_CANNON_SET_POWER) + seq![payload@[0], payload@[1]]);
    Some(r)
}

/// A shot: cannon, angle, power and the landing position.
#[derive(Debug, Clone, Copy, PartialEq, Eq, Structural)]
pub struct CannonShot {
    pub cannon_id: u8,
    pub angle: u8,
    pub power: u8,
    pub x: u16,
    pub y: u16,
}

/// The shot a body encodes (7 bytes at least).
pub open spec fn cannon_shot(payload: Seq<u8>) -> Option<CannonShot> {
    if payload.len() < 7 {
        None
    } else {
        Some(CannonShot {
            cannon_id: payload[0],
            angle: payload[1],
            power: payload[2],
            x: le16_at(payload, 3),
            y: le16_at(payload, 5),
        })
    }
}

/// Reads a shot.
pub fn parse_cannon_shot(payload: &[u8]) -> (r: Option<CannonShot>)
    ensures
        r == cannon_shot(payload@),
{
    if payload.len() < 7 {
        return None;
    }
    let x = payload[3] as u16 + 256 * (payload[4] as u16);
    let y = payload[5] as u16 + 256 * (payload[6] as u16);
    Some(CannonShot { cannon_id: payload[0], angle: payload[1], power: payload[2], x, y })
}

/// The relay of a shot by `player_id`; the shooter is placed at the landing
/// position.
pub open spec fn cannon_shoot_message(shot: CannonShot, player_id: u16) -> Seq<u8> {
    le16(MSG_CANNON_SHOOT) + seq![shot.cannon_id, shot.angle, shot.power] + le16(player_id) + le16(shot.x) + le16(shot.y)
}

/// Builds the relay of a shot.
pub fn build_cannon_shoot(shot: &CannonShot, player_id: u16) -> (r: Vec<u8>)
    ensures
        r@ == cannon_shoot_message(*shot, player_id),
{
    let mut w = MessageWriter::new();
    w.write_u16(MSG_CANNON_SHOOT);
    w.write_u8(shot.cannon_id);
    w.write_u8(shot.angle);
    w.write_u8(shot.power);
    w.write_u16(player_id);
    w.write_u16(shot.x);
    w.write_u16(shot.y);
    let r = w.into_bytes();
    assert(r@ =~= cannon_shoot_message(*shot, player_id));
    r
}

} // verus!
