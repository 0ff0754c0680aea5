//! Routing of a decoded client message to what handles it, and the replies
//! the connection answers by itself: the two pings, the player-stop relay
//! and the tool equip and unequip records.
//!
//! The numeric ids of the ping, latency-ping and player-stop messages are
//! part of the message table of the wire protocol; the builders here take
//! them as arguments.

use vstd::prelude::*;

use crate::game::PlayerSession;
use crate::protocol::{le16, le16_at, read_u16_le, read_u8_at, MessageWriter};

verus! {

/// The kind of a client message, as decoded from its type id. `Other`
/// stands for every kind the connection only logs.
#[derive(Debug, Clone, Copy, PartialEq, Eq, Structural)]
pub enum MessageKind {
    Ping,
    Login,
    Register,
    Logout,
    MovePlayer,
    Chat,
    PlayerTyping,
    NewPlayer,
    Emote,
    Action,
    ChangeOutfit,
    ChangeAccessory1,
    ChangeAccessory2,
    Point,
    Warp,
    UseItem,
    DiscardItem,
    DiscardedItemTake,
    ShopBuy,
    RequestStatus,
    BankProcess,
    PingReq,
    PlayerStop,
    ToolEquip,
    ToolUnequip,
    Other,
}

/// Where a client message goes.
#[derive(Debug, Clone, Copy, PartialEq, Eq, Structural)]
pub enum Route {
    /// Answer with a ping.
    ReplyPing,
    Login,
    Register,
    /// Nothing to answer; the connection loop ends the session.
    Logout,
    Movement,
    Chat,
    Typing,
    NewPlayerResponse,
    Emote,
    Action,
    ChangeOutfit,
    ChangeAccessory1,
    ChangeAccessory2,
    PointCollection,
    Warp,
    UseItem,
    DiscardItem,
    TakeDroppedItem,
    ShopBuy,
    RequestStatus,
    BankProcess,
    /// Answer with a latency ping.
    ReplyPingReq,
    /// The player stopped at (x, y): relay it to the room.
    PlayerStop { x: u16, y: u16 },
    /// The player equipped the tool in this slot.
    ToolEquip { slot: u8 },
    /// The player put the tool away.
    ToolUnequip,
    /// A player-stop or tool-equip message too short to read: nothing is done.
    Ignore,
    /// A kind the connection does not handle: it is only logged.
    Unhandled,
}

/// The route of a message of kind `kind` with body `payload` (the bytes
/// after the type). A player stop carries x and y as little-endian `u16`s,
/// a tool equip the slot as one byte.
pub open spec fn route_of(kind: MessageKind, payload: Seq<u8>) -> Route {
    match kind {
        MessageKind::Ping => Route::ReplyPing,
        MessageKind::Login => Route::Login,
        MessageKind::Register => Route::Register,
        MessageKind::Logout => Route::Logout,
        MessageKind::MovePlayer => Route::Movement,
        MessageKind::Chat => Route::Chat,
        MessageKind::PlayerTyping => Route::Typing,
        MessageKind::NewPlayer => Route::NewPlayerResponse,
        MessageKind::Emote => Route::Emote,
        MessageKind::Action => Route::Action,
        MessageKind::ChangeOutfit => Route::ChangeOutfit,
        MessageKind::ChangeAccessory1 => Route::ChangeAccessory1,
        MessageKind::ChangeAccessory2 => Route::ChangeAccessory2,
        MessageKind::Point => Route::PointCollection,
        MessageKind::Warp => Route::Warp,
        MessageKind::UseItem => Route::UseItem,
        MessageKind::DiscardItem => Route::DiscardItem,
        MessageKind::DiscardedItemTake => Route::TakeDroppedItem,
        MessageKind::ShopBuy => Route::ShopBuy,
        MessageKind::RequestStatus => Route::RequestStatus,
        MessageKind::BankProcess => Route::BankProcess,
        MessageKind::PingReq => Route::ReplyPingReq,
        MessageKind::PlayerStop => if payload.len() >= 4 {
            Route::PlayerStop { x: le16_at(payload, 0), y: le16_at(payload, 2) }
        } else {
            Route::Ignore
        },
        MessageKind::ToolEquip => if payload.len() >= 1 {
            Route::ToolEquip { slot: payload[0] }
        } else {
            Route::Ignore
        },
        MessageKind::ToolUnequip => Route::ToolUnequip,
        MessageKind::Other => Route::Unhandled,
    }
}

/// Decides where a client message goes.
pub fn route_message(kind: MessageKind, payload: &[u8]) -> (r: Route)
    ensures
        r == route_of(kind, payload@),
{
    match kind {
        MessageKind::Ping => Route::ReplyPing,
        MessageKind::Login => Route::Login,
        MessageKind::Register => Route::Register,
        MessageKind::Logout => Route::Logout,
        MessageKind::MovePlayer => Route::Movement,
        MessageKind::Chat => Route::Chat,
        MessageKind::PlayerTyping => Route::Typing,
        MessageKind::NewPlayer => Route::NewPlayerResponse,
        MessageKind::Emote => Route::Emote,
        MessageKind::Action => Route::Action,
        MessageKind::ChangeOutfit => Route::ChangeOutfit,
        MessageKind::ChangeAccessory1 => Route::ChangeAccessory1,
        MessageKind::ChangeAccessory2 => Route::ChangeAccessory2,
        MessageKind::Point => Route::PointCollection,
        MessageKind::Warp => Route::Warp,
        MessageKind::UseItem => Route::UseItem,
        MessageKind::DiscardItem => Route::DiscardItem,
        MessageKind::DiscardedItemTake => Route::TakeDroppedItem,
        MessageKind::ShopBuy => Route::ShopBuy,
        MessageKind::RequestStatus => Route::RequestStatus,
        MessageKind::BankProcess => Route::BankProcess,
        MessageKind::PingReq => Route::ReplyPingReq,
        MessageKind::PlayerStop => match (read_u16_le(payload, 0), read_u16_le(payload, 2)) {
            (Some(x), Some(y)) => Route::PlayerStop { x, y },
            _ => Route::Ignore,
        },
        MessageKind::ToolEquip => match read_u8_at(payload, 0) {
            Some(slot) => Route::ToolEquip { slot },
            None => Route::Ignore,
        },
        MessageKind::ToolUnequip => Route::ToolUnequip,
        MessageKind::Other => Route::Unhandled,
    }
}

/// The body of a ping or a latency ping sent back: its type alone.
pub open spec fn ping_message(ping_type: u16) -> Seq<u8> {
    le16(ping_type)
}

/// Builds the keepalive ping (type `ping_type`, the ping's id) that answers
/// a client ping and that the server sends on its own.
pub fn build_ping(ping_type: u16) -> (r: Vec<u8>)
    ensures
        r@ == ping_message(ping_type),
{
    let mut w = MessageWriter::new();
    w.write_u16(ping_type);
    w.into_bytes()
}

/// Builds the echo of a latency ping (type `ping_req_type`, the latency
/// ping's id).
pub fn build_ping_req_reply(ping_req_type: u16) -> (r: Vec<u8>)
    ensures
        r@ == ping_message(ping_req_type),
{
    let mut w = MessageWriter::new();
    w.write_u16(ping_req_type);
    w.into_bytes()
}

/// What the other players of a room are told when a player stops: the
/// player and the position it stopped at, under the player-stop type.
pub open spec fn player_stop_message(stop_type: u16, player_id: u16, x: u16, y: u16) -> Seq<u8> {
    le16(stop_type) + le16(player_id) + le16(x) + le16(y)
}

/// Builds the player-stop relay.
pub fn build_player_stop(stop_type: u16, player_id: u16, x: u16, y: u16) -> (r: Vec<u8>)
    ensures
        r@ == player_stop_message(stop_type, player_id, x, y),
{
    let mut w = MessageWriter::new();
    w.write_u16(stop_type);
    w.write_u16(player_id);
    w.write_u16(x);
    w.write_u16(y);
    let r = w.into_bytes();
    assert(r@ =~= player_stop_message(stop_type, player_id, x, y));
    r
}

/// The players of a room other than `player_id`, in the room's order.
pub open spec fn others(room_players: Seq<u16>, player_id: u16) -> Seq<u16> {
    room_players.filter(|q: u16| q != player_id)
}

/// Whom a player stop is relayed to and with what message.
pub struct StopRelay {
    pub recipients: Vec<u16>,
    pub message: Vec<u8>,
}

/// What a player stop at (x, y) does: nothing for a session that has not
/// logged in; otherwise the session's position becomes (x, y) and the
/// relay goes to every other player of the room.
pub fn player_stop(
    session: &mut PlayerSession,
    room_players: &Vec<u16>,
    stop_type: u16,
    x: u16,
    y: u16,
) -> (r: Option<StopRelay>)
    ensures
        match old(session).player_id {
            None => r is None && *final(session) == *old(session),
            Some(p) => r matches Some(relay) && relay.recipients@ == others(room_players@, p)
                && relay.message@ == player_stop_message(stop_type, p, x, y) && *final(session) == (
            PlayerSession { x, y, ..*old(session) }),
        },
{
    match session.player_id {
        None => None,
        Some(p) => {
            session.x = x;
            session.y = y;
            let mut recipients: Vec<u16> = Vec::new();
            let n = room_players.len();
            let mut i: usize = 0;
            while i < n
                invariant
                    n == room_players@.len(),
                    i <= n,
                    recipients@ == others(room_players@.take(i as int), p),
                decreases n - i,
            {
                proof {
                    assert(room_players@.take(i + 1).drop_last() =~= room_players@.take(i as int));
                    reveal(Seq::filter);
                }
                if room_players[i] != p {
                    recipients.push(room_players[i]);
                }
                i += 1;
            }
            proof {
                assert(room_players@.take(n as int) =~= room_players@);
            }
            let message = build_player_stop(stop_type, p, x, y);
            Some(StopRelay { recipients, message })
        },
    }
}

/// The tool slot recorded when a player puts the tool away: none for a
/// session without a character, else slot 0 (no tool).
pub open spec fn unequip_slot(character_id: Option<i64>) -> Option<i16> {
    match character_id {
        Some(_) => Some(0),
        None => None,
    }
}

/// Decides what a tool unequip records.
pub fn tool_to_unequip(character_id: Option<i64>) -> (r: Option<i16>)
    ensures
        r == unequip_slot(character_id),
{
    match character_id {
        Some(_) => Some(0),
        None => None,
    }
}

} // verus!
