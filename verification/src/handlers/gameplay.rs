//! Slime points: collecting them and losing some in a pit.

use vstd::prelude::*;

use crate::protocol::{le16, le32, MessageWriter};

verus! {

/// Point messages (both directions).
pub const MSG_POINT: u16 = 18;

/// Points lost by falling into a pit.
pub const POINTS_LOST_LAVA: u32 = 10;

/// The wallet after collecting a point: one more, unless at the ceiling.
pub fn collect_point(points: u32, max_points: u32) -> (r: u32)
    ensures
        r == (if points < max_points { points + 1 } else { points as int }),
{
    if points < max_points { points + 1 } else { points }
}

/// The wallet after falling into a pit: 10 fewer, not below zero.
pub fn points_after_pit(points: u32) -> (r: u32)
    ensures
        r == (if points >= POINTS_LOST_LAVA { points - POINTS_LOST_LAVA } else { 0 }),
{
    points.saturating_sub(POINTS_LOST_LAVA)
}

/// The silent wallet update (case 2) with the new total.
pub open spec fn points_update_message(points: u32) -> Seq<u8> {
    le16(MSG_POINT) + seq![2u8] + le32(points)
}

/// Builds the silent wallet update.
pub fn build_points_update(points: u32) -> (r: Vec<u8>)
    ensures
        r@ == points_update_message(points),
{
    let mut w = MessageWriter::new();
    w.write_u16(MSG_POINT);
    w.write_u8(2);
    w.write_u32(points);
    let r = w.into_bytes();
    assert(r@ =~= points_update_message(points));
    r
}

} // verus!
