//! Mail rows.

use vstd::prelude::*;

verus! {

/// A mail: sender, receiver, text, and the item and points it carries.
#[derive(Debug, Clone)]
pub struct Mail {
    pub id: i64,
    pub from_character_id: i64,
    pub to_character_id: i64,
    pub sender_name: String,
    pub message: String,
    pub item_id: i64,
    pub points: i64,
    pub is_read: i64,
    pub created_at: String,
}

} // verus!
