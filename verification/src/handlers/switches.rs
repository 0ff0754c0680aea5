//! Floor switches: the status of a switch, as told to a room.
//!
//! A switch's status is how many players stand on it: 0 off, 1 on, more for
//! switches that need several players.

use vstd::prelude::*;

use crate::protocol::{le16, MessageWriter};

verus! {

/// A switch's status (both directions).
pub const MSG_SWITCH_SET: u16 = 116;

/// The status of switch `switch_id` in room `room_id`.
pub open spec fn switch_status_message(room_id: u16, switch_id: u8, status: u8) -> Seq<u8> {
    le16(MSG_SWITCH_SET) + le16(room_id) + seq![switch_id, status]
}

/// Builds the status message of a switch.
pub fn build_switch_status(room_id: u16, switch_id: u8, status: u8) -> (r: Vec<u8>)
    ensures
        r@ == switch_status_message(room_id, switch_id, status),
{
    let mut w = MessageWriter::new();
    w.write_u16(MSG_SWITCH_SET);
    w.write_u16(room_id);
    w.write_u8(switch_id);
    w.write_u8(status);
    let r = w.into_bytes();
    assert(r@ =~= switch_status_message(room_id, switch_id, status));
    r
}

} // verus!
