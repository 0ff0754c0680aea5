//! Mail between players: sending with an item or points attached, and
//! claiming what a mail carries.
//!
//! Mailboxes are shown five mails per page; a mail is addressed by its
//! 1-based position across all pages.

use vstd::prelude::*;
use vstd::string::StringSliceAdditionalSpecFns;
use vstd::utf8::encode_utf8;

use crate::db::characters::Inventory;
use crate::handlers::shop::{first_empty_from, first_empty_slot};
use crate::protocol::{le16, le32, MessageWriter};

verus! {

/// Mailbox requests and answers.
pub const MSG_MAILBOX: u16 = 47;

/// Mail sending (both directions).
pub const MSG_MAIL_SEND: u16 = 78;

/// Whether a receiver name exists (both directions).
pub const MSG_MAIL_RECEIVER_CHECK: u16 = 80;

/// Mails shown on one mailbox page.
pub const MAILS_PER_PAGE: i64 = 5;

/// The page of a mail position and its index on the page. Position 0 lies
/// before the first page: its index is `usize::MAX`, which no page has.
pub open spec fn mail_position(mail_slot: u8) -> (i64, usize) {
    if mail_slot == 0 {
        (0, usize::MAX)
    } else {
        (((mail_slot - 1) / 5) as i64, ((mail_slot - 1) % 5) as usize)
    }
}

/// Splits a mail position into page and index on the page.
pub fn mail_page_and_index(mail_slot: u8) -> (r: (i64, usize))
    ensures
        r == mail_position(mail_slot),
{
    if mail_slot == 0 {
        (0, usize::MAX)
    } else {
        (((mail_slot - 1) / 5) as i64, ((mail_slot - 1) % 5) as usize)
    }
}

/// The item a slot of an inventory category holds (tools widened from a
/// byte); 0 for a category outside 1..=4.
pub open spec fn present_item(inv: Inventory, category: u8, slot: u16) -> u16 {
    let i = slot - 1;
    if category == 1 {
        inv.outfit_slots()[i]
    } else if category == 2 {
        inv.item_slots()[i]
    } else if category == 3 {
        inv.accessory_slots()[i]
    } else if category == 4 {
        inv.tool_slots()[i] as u16
    } else {
        0
    }
}

/// What a send request comes to.
#[derive(Debug, Clone, Copy, PartialEq, Eq)]
pub enum MailSendOutcome {
    /// The mail is refused. When `removed` names a slot (category, slot),
    /// the attached item was already taken from it before the refusal.
    Refused { removed: Option<(u8, u8)> },
    /// The mail goes out with the item from `(category, slot)`, if any, and
    /// `points` attached; the sender keeps `new_points`.
    Send { item: Option<(u8, u8, u16)>, points: u32, new_points: u32 },
}

/// The item a send request attaches: a category from 1, a slot in 1..=9,
/// and a filled slot (with the inventory at hand).
pub open spec fn attached_item(inventory: Option<Inventory>, present_cat: u8, present_id: u16) -> Option<(u8, u8, u16)> {
    if present_cat > 0 && 1 <= present_id <= 9 {
        match inventory {
            Some(inv) => {
                let id = present_item(inv, present_cat, present_id);
                if id > 0 { Some((present_cat, present_id as u8, id)) } else { None }
            },
            None => None,
        }
    } else {
        None
    }
}

/// The outcome of a send request, checked in this order: message length (in
/// bytes), receiver found, receiver not the sender; then the item is taken
/// and the points are checked against the wallet.
pub open spec fn mail_send_outcome(
    message: Seq<char>,
    max_body: usize,
    receiver: Option<i64>,
    sender_id: i64,
    inventory: Option<Inventory>,
    present_cat: u8,
    present_id: u16,
    points: u16,
    wallet: u32,
) -> MailSendOutcome {
    if (encode_utf8(message).len() as usize) > max_body {
        MailSendOutcome::Refused { removed: None }
    } else {
        match receiver {
            None => MailSendOutcome::Refused { removed: None },
            Some(id) => if id == sender_id {
                MailSendOutcome::Refused { removed: None }
            } else {
                let item = attached_item(inventory, present_cat, present_id);
                if points > 0 && points > wallet {
                    MailSendOutcome::Refused {
                        removed: match item {
                            Some((c, s, _)) => Some((c, s)),
                            None => None,
                        },
                    }
                } else {
                    MailSendOutcome::Send {
                        item,
                        points: points as u32,
                        new_points: (wallet - points) as u32,
                    }
                }
            },
        }
    }
}

fn present_item_of(inv: &Inventory, present_cat: u8, present_id: u16) -> (r: u16)
    requires
        1 <= present_id <= 9,
    ensures
        r == present_item(*inv, present_cat, present_id),
{
    let i = (present_id - 1) as usize;
    match present_cat {
        1 => inv.outfits()[i],
        2 => inv.items()[i],
        3 => inv.accessories()[i],
        4 => inv.tools()[i] as u16,
        _ => 0,
    }
}

/// Decides a send request. `receiver` is the receiver's character id when
/// the name was found, `inventory` the sender's, `wallet` the sender's points.
pub fn decide_mail_send(
    message: &str,
    max_body: usize,
    receiver: Option<i64>,
    sender_id: i64,
    inventory: Option<&Inventory>,
    present_cat: u8,
    present_id: u16,
    points: u16,
    wallet: u32,
) -> (r: MailSendOutcome)
    ensures
        r == mail_send_outcome(
            message@,
            max_body,
            receiver,
            sender_id,
            match inventory {
                Some(i) => Some(*i),
                None => None,
            },
            present_cat,
            present_id,
            points,
            wallet,
        ),
{
    proof {
        assert(message.spec_bytes() == encode_utf8(message@));
    }
    if message.len() > max_body {
        return MailSendOutcome::Refused { removed: None };
    }
    let receiver_id = match receiver {
        Some(id) => id,
        None => return MailSendOutcome::Refused { removed: None },
    };
    if receiver_id == sender_id {
        return MailSendOutcome::Refused { removed: None };
    }
    let mut item: Option<(u8, u8, u16)> = None;
    if present_cat > 0 && 1 <= present_id && present_id <= 9 {
        match inventory {
            Some(inv) => {
                let id = present_item_of(inv, present_cat, present_id);
                if id > 0 {
                    item = Some((present_cat, present_id as u8, id));
                }
            },
            None => {},
        }
    }
    let wanted = points as u32;
    if wanted > 0 && wanted > wallet {
        let removed = match item {
            Some((c, s, _)) => Some((c, s)),
            None => None,
        };
        return MailSendOutcome::Refused { removed };
    }
    MailSendOutcome::Send { item, points: wanted, new_points: wallet - wanted }
}

/// The item a mail carries (or the slot a refused mail had already emptied)
/// is the one named by the request: category `c` and slot `s` (1 to 9) of
/// the sender's inventory, and its id is what that slot holds, read from
/// the outfits for category 1, the items for 2, the accessories for 3 and
/// the tools for 4; an empty slot attaches nothing. When the request names
/// a filled slot of one of these categories and the mail goes out, the
/// item goes with it.
pub proof fn lemma_mail_attaches_named_slot(
    message: Seq<char>,
    max_body: usize,
    receiver: Option<i64>,
    sender_id: i64,
    inventory: Option<Inventory>,
    present_cat: u8,
    present_id: u16,
    points: u16,
    wallet: u32,
)
    ensures
        ({
            let out = mail_send_outcome(
                message,
                max_body,
                receiver,
                sender_id,
                inventory,
                present_cat,
                present_id,
                points,
                wallet,
            );
            &&& out matches MailSendOutcome::Send { item: Some((c, s, id)), .. } ==> {
                &&& c == present_cat && s == present_id && 1 <= s <= 9
                &&& inventory is Some
                &&& id > 0
                &&& c == 1 ==> id == inventory->0.outfit_slots()[s - 1]
                &&& c == 2 ==> id == inventory->0.item_slots()[s - 1]
                &&& c == 3 ==> id == inventory->0.accessory_slots()[s - 1]
                &&& c == 4 ==> id == inventory->0.tool_slots()[s - 1] as u16
                &&& 1 <= c <= 4
            }
            &&& out matches MailSendOutcome::Refused { removed: Some((c, s)) } ==> c == present_cat
                && s == present_id
            &&& (out is Send && 1 <= present_cat <= 4 && 1 <= present_id <= 9 && inventory is Some
                && (if present_cat == 1 {
                inventory->0.outfit_slots()[present_id - 1]
            } else if present_cat == 2 {
                inventory->0.item_slots()[present_id - 1]
            } else if present_cat == 3 {
                inventory->0.accessory_slots()[present_id - 1]
            } else {
                inventory->0.tool_slots()[present_id - 1] as u16
            }) > 0) ==> out matches MailSendOutcome::Send { item: Some(_), .. }
        }),
{
}

/// A mail never creates points: what the sender loses is what the mail
/// carries.
pub proof fn lemma_mail_points_conserved(
    message: Seq<char>,
    max_body: usize,
    receiver: Option<i64>,
    sender_id: i64,
    inventory: Option<Inventory>,
    present_cat: u8,
    present_id: u16,
    points: u16,
    wallet: u32,
)
    ensures
        mail_send_outcome(message, max_body, receiver, sender_id, inventory, present_cat, present_id, points, wallet)
            matches MailSendOutcome::Send { points: p, new_points, .. } ==> new_points + p == wallet,
{
}

/// The answer to a send request: 1 and the sender's wallet, or 0 alone.
pub open spec fn mail_send_message(sent_with_wallet: Option<u32>) -> Seq<u8> {
    match sent_with_wallet {
        Some(p) => le16(MSG_MAIL_SEND) + seq![1u8] + le32(p),
        None => le16(MSG_MAIL_SEND) + seq![0u8],
    }
}

/// Builds the answer to a send request (`None`: refused).
pub fn build_mail_send_response(sent_with_wallet: Option<u32>) -> (r: Vec<u8>)
    ensures
        r@ == mail_send_message(sent_with_wallet),
{
    let mut w = MessageWriter::new();
    w.write_u16(MSG_MAIL_SEND);
    match sent_with_wallet {
        Some(p) => {
            w.write_u8(1);
            w.write_u32(p);
        },
        None => {
            w.write_u8(0);
        },
    }
    let r = w.into_bytes();
    assert(r@ =~= mail_send_message(sent_with_wallet));
    r
}

/// A mailbox answer that is only its case byte (2: open, 7: points sent to
/// the bank, 8: item claimed).
pub open spec fn mailbox_case_message(case: u8) -> Seq<u8> {
    le16(MSG_MAILBOX) + seq![case]
}

/// Builds a mailbox answer made of its case byte.
pub fn build_mailbox_case(case: u8) -> (r: Vec<u8>)
    ensures
        r@ == mailbox_case_message(case),
{
    let mut w = MessageWriter::new();
    w.write_u16(MSG_MAILBOX);
    w.write_u8(case);
    let r = w.into_bytes();
    assert(r@ =~= mailbox_case_message(case));
    r
}

/// Whether there is mail (case 1): 1 when the count is positive.
pub open spec fn new_mail_message(count: i64) -> Seq<u8> {
    le16(MSG_MAILBOX) + seq![1u8, if count > 0 { 1u8 } else { 0u8 }]
}

/// Builds the "you have mail" answer.
pub fn build_new_mail(count: i64) -> (r: Vec<u8>)
    ensures
        r@ == new_mail_message(count),
{
    let mut w = MessageWriter::new();
    w.write_u16(MSG_MAILBOX);
    w.write_u8(1);
    w.write_u8(if count > 0 { 1 } else { 0 });
    let r = w.into_bytes();
    assert(r@ =~= new_mail_message(count));
    r
}

/// The wallet after claiming a mail's points (the stored amount read as a
/// `u32`), capped at `max_points`, and how much was actually added.
pub open spec fn claim_points(current: u32, mail_points: i64, max_points: u32) -> (u32, u32) {
    let sum = current + (mail_points as u32);
    let new_points = if sum > max_points { max_points } else { sum as u32 };
    (new_points, (new_points - current) as u32)
}

/// Credits a mail's points to the wallet, up to `max_points`.
pub fn claim_mail_points(current: u32, mail_points: i64, max_points: u32) -> (r: (u32, u32))
    requires
        current <= max_points,
    ensures
        r == claim_points(current, mail_points, max_points),
{
    let sum = current as u64 + (mail_points as u32) as u64;
    let new_points = if sum > max_points as u64 { max_points } else { sum as u32 };
    (new_points, new_points - current)
}

/// The answer to a points claim (case 6): the amount added, truncated to
/// 16 bits.
pub open spec fn points_claimed_message(added: u32) -> Seq<u8> {
    le16(MSG_MAILBOX) + seq![6u8] + le16(added as u16)
}

/// Builds the answer to a points claim.
pub fn build_points_claimed(added: u32) -> (r: Vec<u8>)
    ensures
        r@ == points_claimed_message(added),
{
    let mut w = MessageWriter::new();
    w.write_u16(MSG_MAILBOX);
    w.write_u8(6);
    w.write_u16(added as u16);
    let r = w.into_bytes();
    assert(r@ =~= points_claimed_message(added));
    r
}

/// The answer to a receiver check: 1 when the name exists.
pub open spec fn receiver_check_message(exists: bool) -> Seq<u8> {
    le16(MSG_MAIL_RECEIVER_CHECK) + seq![if exists { 1u8 } else { 0u8 }]
}

/// Builds the answer to a receiver check.
pub fn build_receiver_check(exists: bool) -> (r: Vec<u8>)
    ensures
        r@ == receiver_check_message(exists),
{
    let mut w = MessageWriter::new();
    w.write_u16(MSG_MAIL_RECEIVER_CHECK);
    w.write_u8(if exists { 1 } else { 0 });
    let r = w.into_bytes();
    assert(r@ =~= receiver_check_message(exists));
    r
}

/// The item slot a mail's attachment is claimed into: the first empty item
/// slot, when the mail carries an item (`None` also when every slot is full).
pub fn mail_item_slot(mail_item_id: i64, items: &[u16; 9]) -> (r: Option<u8>)
    ensures
        r == (if mail_item_id == 0 { None } else { first_empty_from(items@.map_values(|v: u16| v as int), 0) }),
{
    if mail_item_id == 0 {
        return None;
    }
    first_empty_slot(*items)
}

/// The bank balance after claiming a mail's points into the bank; `None`
/// when the mail carries no points.
pub fn mail_points_to_bank(current_bank: i64, mail_points: i64) -> (r: Option<i64>)
    requires
        i64::MIN <= current_bank + mail_points <= i64::MAX,
    ensures
        r == (if mail_points == 0 { None } else { Some((current_bank + mail_points) as i64) }),
{
    if mail_points == 0 {
        return None;
    }
    Some(current_bank + mail_points)
}

} // verus!
