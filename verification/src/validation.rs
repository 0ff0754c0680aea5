//! Checks shared by the handlers: inventory slot numbers, and adding points
//! to a wallet that has a ceiling.

use vstd::prelude::*;

verus! {

/// Why a slot number was refused.
#[derive(Debug, Clone, PartialEq, Eq)]
pub struct ValidationError {
    pub message: String,
}

/// Inventory slots are numbered 1 to 9.
pub open spec fn valid_item_slot(slot: u8) -> bool {
    1 <= slot <= 9
}

/// Accepts an inventory slot number from 1 to 9.
pub fn validate_item_slot(slot: u8) -> (r: Result<(), ValidationError>)
    ensures
        r is Ok <==> valid_item_slot(slot),
        r matches Err(e) ==> e.message@ == "slot out of range 1-9"@,
{
    if 1 <= slot && slot <= 9 {
        Ok(())
    } else {
        Err(ValidationError { message: String::from_str("slot out of range 1-9") })
    }
}

/// The split of a wallet credit between the wallet and the bank.
#[derive(Debug, Clone, Copy, PartialEq, Eq, Structural)]
pub struct PointsOverflow {
    /// The wallet afterwards.
    pub new_points: u32,
    /// What did not fit in the wallet and goes to the bank.
    pub to_bank: u64,
}

/// Adding `add` to `current` fills the wallet up to `max_points`; the excess
/// goes to the bank. A wallet already above the ceiling is brought down to it.
pub open spec fn points_overflow(current: u32, add: u64, max_points: u32) -> PointsOverflow {
    if current + add > max_points {
        PointsOverflow { new_points: max_points, to_bank: (current + add - max_points) as u64 }
    } else {
        PointsOverflow { new_points: (current + add) as u32, to_bank: 0 }
    }
}

/// Credits `add` points to a wallet of `current` with a ceiling of
/// `max_points`, sending the excess to the bank.
pub fn handle_points_overflow(current: u32, add: u64, max_points: u32) -> (r: PointsOverflow)
    requires
        current + add <= u64::MAX,
    ensures
        r == points_overflow(current, add, max_points),
{
    let potential = current as u64 + add;
    if potential > max_points as u64 {
        PointsOverflow { new_points: max_points, to_bank: potential - max_points as u64 }
    } else {
        PointsOverflow { new_points: potential as u32, to_bank: 0 }
    }
}

/// Crediting points loses none of them: the wallet and the bank together
/// receive exactly the credit, and the wallet ends at or below its ceiling.
pub proof fn lemma_points_overflow_conserves(current: u32, add: u64, max_points: u32)
    requires
        current + add <= u64::MAX,
    ensures
        points_overflow(current, add, max_points).new_points + points_overflow(current, add, max_points).to_bank
            == current + add,
        points_overflow(current, add, max_points).new_points <= max_points,
{
}

} // verus!
