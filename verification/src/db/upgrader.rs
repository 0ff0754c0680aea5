//! Rows of the upgrader system: investments, unlocked slots and objects,
//! music and warp unlocks.

use vstd::prelude::*;

verus! {

/// Points paid so far into an upgrade slot of a town.
#[derive(Debug, Clone)]
pub struct UpgraderState {
    pub town_id: i64,
    pub category: String,
    pub slot_id: i64,
    pub paid: i64,
}

/// Whether an upgrade slot is shown to players.
#[derive(Debug, Clone)]
pub struct UpgraderUnlocked {
    pub town_id: i64,
    pub category: String,
    pub slot_id: i64,
    pub unlocked: i64,
}

/// Whether an unlockable object of a room is available.
#[derive(Debug, Clone, Copy, PartialEq, Eq, Structural)]
pub struct UnlockableState {
    pub room_id: i64,
    pub unlockable_id: i64,
    pub available: i64,
}

/// Which music of a music changer slot is unlocked, by day and by night.
#[derive(Debug, Clone, Copy, PartialEq, Eq, Structural)]
pub struct MusicChangerState {
    pub room_id: i64,
    pub slot_id: i64,
    pub day_unlocked: i64,
    pub night_unlocked: i64,
}

/// Whether a warp destination of a warp center is unlocked.
#[derive(Debug, Clone, Copy, PartialEq, Eq, Structural)]
pub struct WarpCenterState {
    pub room_id: i64,
    pub slot_id: i64,
    pub warp_category: i64,
    pub unlocked: i64,
}

/// Whether a music slot is unlocked for the time of day: the stored flag of
/// the day or night column is 1 (a slot without a row is locked).
pub open spec fn music_unlocked(state: Option<MusicChangerState>, is_day: bool) -> bool {
    match state {
        Some(s) => if is_day { s.day_unlocked == 1 } else { s.night_unlocked == 1 },
        None => false,
    }
}

/// Reads whether a music slot is unlocked for the time of day.
pub fn is_music_unlocked(state: Option<MusicChangerState>, is_day: bool) -> (r: bool)
    ensures
        r == music_unlocked(state, is_day),
{
    match state {
        Some(s) => if is_day { s.day_unlocked == 1 } else { s.night_unlocked == 1 },
        None => false,
    }
}

} // verus!
