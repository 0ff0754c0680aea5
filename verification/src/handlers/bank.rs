//! The bank: deposits from the wallet, withdrawals to it, and transfers
//! between bank accounts, with the limits on both balances.
//!
//! Points are never created or destroyed by a bank operation: what leaves one
//! balance arrives in the other.

use vstd::prelude::*;

use crate::protocol::{le16, le32, MessageWriter, MSG_BANK_PROCESS, MSG_REQUEST_STATUS};

verus! {

/// New wallet and bank balances after a deposit, or `None` when it is
/// refused: a zero amount, more than the wallet holds, or a bank balance
/// that would pass `max_bank`.
pub open spec fn deposit_result(amount: u32, points: u32, bank: i64, max_bank: u32) -> Option<(u32, i64)> {
    if amount == 0 || amount > points || bank + amount > max_bank {
        None
    } else {
        Some(((points - amount) as u32, (bank + amount) as i64))
    }
}

/// Decides a deposit of `amount` from a wallet of `points` into a bank
/// holding `bank`.
pub fn decide_deposit(amount: u32, points: u32, bank: i64, max_bank: u32) -> (r: Option<(u32, i64)>)
    requires
        bank + amount <= i64::MAX,
    ensures
        r == deposit_result(amount, points, bank, max_bank),
{
    if amount == 0 || amount > points {
        return None;
    }
    let new_bank = bank + amount as i64;
    if new_bank > max_bank as i64 {
        return None;
    }
    Some((points - amount, new_bank))
}

/// The wallet after adding `amount`, saturating at `u32::MAX`.
pub open spec fn saturated_wallet(points: u32, amount: u32) -> u32 {
    if points + amount > u32::MAX {
        u32::MAX
    } else {
        (points + amount) as u32
    }
}

/// New wallet and bank balances after a withdrawal, or `None` when it is
/// refused: a zero amount, more than the bank holds, or a wallet (summed
/// with saturation at `u32::MAX`) that would pass `max_points`.
pub open spec fn withdraw_result(amount: u32, points: u32, bank: i64, max_points: u32) -> Option<(u32, i64)> {
    if amount == 0 || amount > bank || saturated_wallet(points, amount) > max_points {
        None
    } else {
        Some((saturated_wallet(points, amount), (bank - amount) as i64))
    }
}

/// Decides a withdrawal of `amount` from a bank holding `bank` into a wallet
/// of `points`.
pub fn decide_withdraw(amount: u32, points: u32, bank: i64, max_points: u32) -> (r: Option<(u32, i64)>)
    ensures
        r == withdraw_result(amount, points, bank, max_points),
{
    if amount == 0 || amount as i64 > bank {
        return None;
    }
    let new_points = points.saturating_add(amount);
    if new_points > max_points {
        return None;
    }
    Some((new_points, bank - amount as i64))
}

/// Whether a transfer is worth looking the receiver up for: a non-zero
/// amount, a receiver name, and enough in the sender's bank.
pub open spec fn transfer_admissible(amount: u32, receiver_name_len: nat, sender_bank: i64) -> bool {
    amount != 0 && receiver_name_len != 0 && amount <= sender_bank
}

/// The first checks of a transfer, made before the receiver is looked up.
pub fn check_transfer_request(amount: u32, receiver_name: &str, sender_bank: i64) -> (r: bool)
    ensures
        r == transfer_admissible(amount, receiver_name@.len(), sender_bank),
{
    amount != 0 && receiver_name.unicode_len() != 0 && amount as i64 <= sender_bank
}

/// New sender and receiver bank balances after a transfer to a receiver that
/// was found, or `None` when it is refused: a transfer to oneself, or a
/// receiver balance that would pass `max_bank`.
pub open spec fn transfer_result(
    amount: u32,
    sender_id: i64,
    sender_bank: i64,
    receiver_id: i64,
    receiver_bank: i64,
    max_bank: u32,
) -> Option<(i64, i64)> {
    if receiver_id == sender_id || receiver_bank + amount > max_bank {
        None
    } else {
        Some(((sender_bank - amount) as i64, (receiver_bank + amount) as i64))
    }
}

/// Decides a transfer once the receiver is known; the request passed
/// `check_transfer_request`.
pub fn decide_transfer(
    amount: u32,
    sender_id: i64,
    sender_bank: i64,
    receiver_id: i64,
    receiver_bank: i64,
    max_bank: u32,
) -> (r: Option<(i64, i64)>)
    requires
        amount <= sender_bank,
        receiver_bank + amount <= i64::MAX,
    ensures
        r == transfer_result(amount, sender_id, sender_bank, receiver_id, receiver_bank, max_bank),
{
    if receiver_id == sender_id {
        return None;
    }
    let receiver_new = receiver_bank + amount as i64;
    if receiver_new > max_bank as i64 {
        return None;
    }
    Some((sender_bank - amount as i64, receiver_new))
}

/// No bank operation creates or destroys points: a deposit or withdrawal
/// keeps the sum of wallet and bank, a transfer keeps the sum of both banks.
/// (A withdrawal whose sum passes `u32::MAX` saturates the wallet, so that
/// case is left out, as is a negative bank balance.)
pub proof fn lemma_bank_conserves_points(
    amount: u32,
    points: u32,
    bank: i64,
    limit: u32,
    sender_id: i64,
    receiver_id: i64,
    receiver_bank: i64,
)
    requires
        0 <= bank,
        points + amount <= u32::MAX,
    ensures
        deposit_result(amount, points, bank, limit) matches Some((p, b)) ==> p + b == points + bank,
        withdraw_result(amount, points, bank, limit) matches Some((p, b)) ==> p + b == points + bank,
        transfer_result(amount, sender_id, bank, receiver_id, receiver_bank, limit) matches Some((s, t))
            ==> s + t == bank + receiver_bank,
{
}

/// A successful operation never leaves a balance above its limit or below
/// zero, given balances that started in range.
pub proof fn lemma_bank_respects_limits(
    amount: u32,
    points: u32,
    bank: i64,
    limit: u32,
    sender_id: i64,
    receiver_id: i64,
    receiver_bank: i64,
)
    requires
        0 <= bank,
        0 <= receiver_bank,
    ensures
        deposit_result(amount, points, bank, limit) matches Some((p, b)) ==> 0 <= b <= limit,
        withdraw_result(amount, points, bank, limit) matches Some((p, b)) ==> p <= limit && 0 <= b,
        amount <= bank ==> (transfer_result(amount, sender_id, bank, receiver_id, receiver_bank, limit)
            matches Some((s, t)) ==> 0 <= s && t <= limit),
{
}

/// The answer to a bank balance request: element 1 and the balance
/// truncated to 32 bits.
pub open spec fn bank_status_message(balance: i64) -> Seq<u8> {
    le16(MSG_REQUEST_STATUS) + seq![1u8] + le32(balance as u32)
}

/// Builds the answer to a bank balance request.
pub fn write_bank_status(balance: i64) -> (r: Vec<u8>)
    ensures
        r@ == bank_status_message(balance),
{
    let mut w = MessageWriter::new();
    w.write_u16(MSG_REQUEST_STATUS);
    w.write_u8(1);
    w.write_u32(balance as u32);
    let r = w.into_bytes();
    assert(r@ =~= bank_status_message(balance));
    r
}

/// The answer to a deposit (case 1) or withdrawal (case 2): the new wallet
/// and the new bank balance truncated to 32 bits.
pub open spec fn bank_balances_message(case: u8, points: u32, bank: i64) -> Seq<u8> {
    le16(MSG_BANK_PROCESS) + seq![case] + le32(points) + le32(bank as u32)
}

/// Builds the answer to a deposit or withdrawal.
pub fn write_bank_balances(case: u8, points: u32, bank: i64) -> (r: Vec<u8>)
    ensures
        r@ == bank_balances_message(case, points, bank),
{
    let mut w = MessageWriter::new();
    w.write_u16(MSG_BANK_PROCESS);
    w.write_u8(case);
    w.write_u32(points);
    w.write_u32(bank as u32);
    let r = w.into_bytes();
    assert(r@ =~= bank_balances_message(case, points, bank));
    r
}

/// The answer to a transfer: case 3 and the sender's new bank balance, or
/// case 4 alone when the receiver does not exist.
pub open spec fn bank_transfer_message(sender_bank: Option<i64>) -> Seq<u8> {
    match sender_bank {
        Some(b) => le16(MSG_BANK_PROCESS) + seq![3u8] + le32(b as u32),
        None => le16(MSG_BANK_PROCESS) + seq![4u8],
    }
}

/// Builds the answer to a transfer (`None`: the receiver was not found).
pub fn write_bank_transfer(sender_bank: Option<i64>) -> (r: Vec<u8>)
    ensures
        r@ == bank_transfer_message(sender_bank),
{
    let mut w = MessageWriter::new();
    w.write_u16(MSG_BANK_PROCESS);
    match sender_bank {
        Some(b) => {
            w.write_u8(3);
            w.write_u32(b as u32);
        },
        None => {
            w.write_u8(4);
        },
    }
    let r = w.into_bytes();
    assert(r@ =~= bank_transfer_message(sender_bank));
    r
}

/// A withdrawal undoes a deposit of the same amount (and a deposit undoes a
/// withdrawal), as long as the balances it returns to lie within their
/// limits and the wallet does not saturate at `u32::MAX`.
pub proof fn lemma_deposit_withdraw_undo(amount: u32, points: u32, bank: i64, max_points: u32, max_bank: u32)
    requires
        0 <= bank <= max_bank,
        points <= max_points,
        points + amount <= u32::MAX,
    ensures
        deposit_result(amount, points, bank, max_bank) matches Some((p, b))
            ==> withdraw_result(amount, p, b, max_points) == Some((points, bank)),
        withdraw_result(amount, points, bank, max_points) matches Some((p, b))
            ==> deposit_result(amount, p, b, max_bank) == Some((points, bank)),
{
}

} // verus!
