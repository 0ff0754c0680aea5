//! Account rows.

use vstd::prelude::*;

verus! {

/// An account as stored: login name, bcrypt password hash, the MAC address
/// it registered from, and its ban state.
#[derive(Debug, Clone)]
pub struct Account {
    pub id: i64,
    pub username: String,
    pub password_hash: String,
    pub mac_address: String,
    pub is_banned: bool,
    pub ban_reason: Option<String>,
    pub created_at: String,
    pub last_login: Option<String>,
}

} // verus!
