//! The music changer: listing a room's tracks and changing its music, with
//! a cooldown after each change.

use vstd::prelude::*;

use crate::db::runtime_state::MusicChangerState;
use crate::protocol::{le16, MessageWriter};

verus! {

/// The tracks of a music changer (both directions).
pub const MSG_MUSIC_CHANGER_LIST: u16 = 95;

/// A music change (both directions).
pub const MSG_MUSIC_CHANGER_SET: u16 = 96;

/// Seconds a room's music stays after a change.
pub const MUSIC_COOLDOWN_SECS: i64 = 14400;

/// The track list: 0 alone during the cooldown, else 1 and the three day
/// and three night tracks (a locked third track shows as 0).
pub open spec fn music_list_message(state: MusicChangerState, on_cooldown: bool) -> Seq<u8> {
    if on_cooldown {
        le16(MSG_MUSIC_CHANGER_LIST) + seq![0u8]
    } else {
        le16(MSG_MUSIC_CHANGER_LIST) + seq![
            1u8,
            state.day_track_1,
            state.day_track_2,
            if state.day_track_3_unlocked { state.day_track_3 } else { 0u8 },
            state.night_track_1,
            state.night_track_2,
            if state.night_track_3_unlocked { state.night_track_3 } else { 0u8 },
        ]
    }
}

/// Builds the track list.
pub fn build_music_list(state: &MusicChangerState, on_cooldown: bool) -> (r: Vec<u8>)
    ensures
        r@ == music_list_message(*state, on_cooldown),
{
    let mut w = MessageWriter::new();
    w.write_u16(MSG_MUSIC_CHANGER_LIST);
    if on_cooldown {
        w.write_u8(0);
    } else {
        w.write_u8(1);
        w.write_u8(state.day_track_1);
        w.write_u8(state.day_track_2);
        w.write_u8(if state.day_track_3_unlocked { state.day_track_3 } else { 0 });
        w.write_u8(state.night_track_1);
        w.write_u8(state.night_track_2);
        w.write_u8(if state.night_track_3_unlocked { state.night_track_3 } else { 0 });
    }
    let r = w.into_bytes();
    assert(r@ =~= music_list_message(*state, on_cooldown));
    r
}

/// What a change request comes to.
#[derive(Debug, Clone, Copy, PartialEq, Eq, Structural)]
pub enum MusicSetOutcome {
    /// During the cooldown: refused with answer 0.
    Cooldown,
    /// A locked third track or a track outside 1..=6: no answer.
    Ignored,
    /// The chosen music already plays: answer 1, nothing changes.
    Unchanged,
    /// Track `track` (1-3 day, 4-6 night) becomes `music`; answer 1 and the
    /// cooldown starts.
    Change { track: u8, music: u8 },
}

/// The music a track number names.
pub open spec fn track_music(state: MusicChangerState, track: u8) -> u8 {
    if track == 1 {
        state.day_track_1
    } else if track == 2 {
        state.day_track_2
    } else if track == 3 {
        state.day_track_3
    } else if track == 4 {
        state.night_track_1
    } else if track == 5 {
        state.night_track_2
    } else {
        state.night_track_3
    }
}

/// The outcome of choosing track `track`.
pub open spec fn music_set_outcome(state: MusicChangerState, on_cooldown: bool, track: u8) -> MusicSetOutcome {
    if on_cooldown {
        MusicSetOutcome::Cooldown
    } else if (track == 3 && !state.day_track_3_unlocked) || (track == 6 && !state.night_track_3_unlocked) {
        MusicSetOutcome::Ignored
    } else if !(1 <= track <= 6) {
        MusicSetOutcome::Ignored
    } else {
        let current = if track <= 3 { state.current_day_music } else { state.current_night_music };
        if track_music(state, track) == current {
            MusicSetOutcome::Unchanged
        } else {
            MusicSetOutcome::Change { track, music: track_music(state, track) }
        }
    }
}

/// Decides a music change.
pub fn decide_music_set(state: &MusicChangerState, on_cooldown: bool, track: u8) -> (r: MusicSetOutcome)
    ensures
        r == music_set_outcome(*state, on_cooldown, track),
{
    if on_cooldown {
        return MusicSetOutcome::Cooldown;
    }
    if (track == 3 && !state.day_track_3_unlocked) || (track == 6 && !state.night_track_3_unlocked) {
        return MusicSetOutcome::Ignored;
    }
    let music = match track {
        1 => state.day_track_1,
        2 => state.day_track_2,
        3 => state.day_track_3,
        4 => state.night_track_1,
        5 => state.night_track_2,
        6 => state.night_track_3,
        _ => return MusicSetOutcome::Ignored,
    };
    let current = if track <= 3 { state.current_day_music } else { state.current_night_music };
    if music == current {
        MusicSetOutcome::Unchanged
    } else {
        MusicSetOutcome::Change { track, music }
    }
}

/// The answer to a change request: 1 done, 0 refused.
pub open spec fn music_set_message(ok: bool) -> Seq<u8> {
    le16(MSG_MUSIC_CHANGER_SET) + seq![if ok { 1u8 } else { 0u8 }]
}

/// Builds the answer to a change request.
pub fn build_music_set(ok: bool) -> (r: Vec<u8>)
    ensures
        r@ == music_set_message(ok),
{
    let mut w = MessageWriter::new();
    w.write_u16(MSG_MUSIC_CHANGER_SET);
    w.write_u8(if ok { 1 } else { 0 });
    let r = w.into_bytes();
    assert(r@ =~= music_set_message(ok));
    r
}

} // verus!
