//! Movement updates: which ones are checked, applied and passed on to the
//! room.
//!
//! An update from a logged-in player may carry a position. A position outside
//! the largest room is dropped; one inside is checked by the anti-cheat: a
//! clean or merely suspicious move is applied (a suspicious one may be lag),
//! a definite cheat is dropped and, after repeated flags, the player is
//! kicked. An update without a position only changes the movement flags and
//! is passed on as it is.

use vstd::prelude::*;

use crate::anticheat::movement::validate_position_bounds;
use crate::anticheat::types::CheatResult;
use crate::constants::{MAX_ROOM_X, MAX_ROOM_Y};

verus! {

/// What to do with a movement update before the anti-cheat sees it.
#[derive(Debug, Clone, Copy, PartialEq, Eq, Structural)]
pub enum MovementPrecheck {
    /// Not from a logged-in player, or a position outside the largest room.
    Drop,
    /// A position to check with the anti-cheat.
    Check { x: u16, y: u16 },
    /// No position: passed on to the room unchecked.
    PassOn,
}

/// The precheck of an update: logged in, with a player id, and a position
/// (when there is one) inside the largest room.
pub open spec fn movement_precheck_spec(authenticated: bool, has_player_id: bool, position: Option<(u16, u16)>) -> MovementPrecheck {
    if !authenticated || !has_player_id {
        MovementPrecheck::Drop
    } else {
        match position {
            Some((x, y)) => if x <= MAX_ROOM_X && y <= MAX_ROOM_Y {
                MovementPrecheck::Check { x, y }
            } else {
                MovementPrecheck::Drop
            },
            None => MovementPrecheck::PassOn,
        }
    }
}

/// Decides what happens to a movement update before the anti-cheat.
pub fn movement_precheck(authenticated: bool, has_player_id: bool, position: Option<(u16, u16)>) -> (r: MovementPrecheck)
    ensures
        r == movement_precheck_spec(authenticated, has_player_id, position),
{
    if !authenticated || !has_player_id {
        return MovementPrecheck::Drop;
    }
    match position {
        Some((x, y)) => {
            if validate_position_bounds(x, y) {
                MovementPrecheck::Check { x, y }
            } else {
                MovementPrecheck::Drop
            }
        },
        None => MovementPrecheck::PassOn,
    }
}

/// What follows the anti-cheat's verdict on a position.
#[derive(Debug, Clone, Copy, PartialEq, Eq, Structural)]
pub enum MovementVerdict {
    /// The position is applied and the move passed on to the room.
    Apply,
    /// A cheat: the move is dropped.
    Drop,
    /// A cheat by a player flagged often enough: dropped, and the player is
    /// kicked.
    DropAndKick,
}

/// The verdict for a checked move; `should_kick` is the anti-cheat's answer
/// for the session, asked only for a cheat.
pub fn movement_verdict(result: &CheatResult, should_kick: bool) -> (r: MovementVerdict)
    ensures
        r == (if result is Cheating {
            if should_kick { MovementVerdict::DropAndKick } else { MovementVerdict::Drop }
        } else {
            MovementVerdict::Apply
        }),
{
    match result {
        CheatResult::Cheating { .. } => {
            if should_kick {
                MovementVerdict::DropAndKick
            } else {
                MovementVerdict::Drop
            }
        },
        _ => MovementVerdict::Apply,
    }
}

} // verus!
