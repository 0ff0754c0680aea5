//! Data types of the moderator tool's admin API client.

use vstd::prelude::*;
use vstd::string::StringExecFns;
use vstd::string::StrSliceExecFns;

use crate::text::{signed_decimal, signed_decimal_string};

verus! {

/// Admin API data as the client reads it: `ServerStats`.
#[derive(Debug, Clone)]
pub struct ServerStats {
    pub online_players: usize,
    pub total_connections: usize,
    pub rooms_active: usize,
}

/// Admin API data as the client reads it: `OnlinePlayer`.
#[derive(Debug, Clone)]
pub struct OnlinePlayer {
    pub username: String,
    pub player_id: u16,
    pub room_id: u16,
    pub x: u16,
    pub y: u16,
    pub points: u32,
    pub is_moderator: bool,
}

/// Admin API data as the client reads it: `PlayerInfo`.
#[derive(Debug, Clone)]
pub struct PlayerInfo {
    pub account_id: i64,
    pub username: String,
    pub created_at: String,
    pub last_login: Option<String>,
    pub is_banned: bool,
    pub ban_reason: Option<String>,
    pub character_id: i64,
    pub x: i16,
    pub y: i16,
    pub room_id: i16,
    pub body_id: i16,
    pub acs1_id: i16,
    pub acs2_id: i16,
    pub points: i64,
    pub bank_balance: i64,
    pub is_moderator: bool,
    pub clan_id: Option<i64>,
    pub is_online: bool,
    pub current_room: Option<u16>,
    pub current_x: Option<u16>,
    pub current_y: Option<u16>,
    pub items: [u16; 9],
    pub outfits: [u16; 9],
    pub accessories: [u16; 9],
    pub tools: [u8; 9],
    pub emotes: [u8; 5],
}

/// Admin API data as the client reads it: `KickResponse`.
#[derive(Debug, Clone)]
pub struct KickResponse {
    pub kicked: bool,
    pub was_online: bool,
}

/// Admin API data as the client reads it: `BanResponse`.
#[derive(Debug, Clone)]
pub struct BanResponse {
    pub banned: bool,
    pub ban_id: i64,
    pub kicked: bool,
}

/// Admin API data as the client reads it: `TeleportResponse`.
#[derive(Debug, Clone)]
pub struct TeleportResponse {
    pub teleported: bool,
    pub was_online: bool,
}

/// Admin API data as the client reads it: `QueuedResponse`.
#[derive(Debug, Clone)]
pub struct QueuedResponse {
    pub queued: bool,
}

/// Admin API data as the client reads it: `ModeratorResponse`.
#[derive(Debug, Clone)]
pub struct ModeratorResponse {
    pub updated: bool,
}

/// Admin API data as the client reads it: `BanRecord`.
#[derive(Debug, Clone)]
pub struct BanRecord {
    pub id: i64,
    pub ban_type: String,
    pub value: String,
    pub reason: String,
    pub banned_by: Option<String>,
    pub banned_at: String,
    pub expires_at: Option<String>,
    pub is_expired: bool,
}

/// Admin API data as the client reads it: `CreateBanResponse`.
#[derive(Debug, Clone)]
pub struct CreateBanResponse {
    pub id: i64,
}

/// Admin API data as the client reads it: `DeleteBanResponse`.
#[derive(Debug, Clone)]
pub struct DeleteBanResponse {
    pub deleted: bool,
}

/// Admin API data as the client reads it: `MailEntry`.
#[derive(Debug, Clone)]
pub struct MailEntry {
    pub id: i64,
    pub from: String,
    pub message: String,
    pub item_id: i64,
    pub item_category: i64,
    pub points: i64,
    pub is_read: bool,
    pub created_at: String,
}

/// Admin API data as the client reads it: `MailboxResponse`.
#[derive(Debug, Clone)]
pub struct MailboxResponse {
    pub total: i64,
    pub unread: i64,
    pub mail: Vec<MailEntry>,
}

/// Admin API data as the client reads it: `ClanSummary`.
#[derive(Debug, Clone)]
pub struct ClanSummary {
    pub id: i64,
    pub name: String,
    pub leader_id: i64,
    pub member_count: i64,
    pub max_members: i64,
    pub points: i64,
    pub level: i64,
}

/// Admin API data as the client reads it: `ClanMemberInfo`.
#[derive(Debug, Clone)]
pub struct ClanMemberInfo {
    pub character_id: i64,
    pub username: String,
    pub is_leader: bool,
}

/// Admin API data as the client reads it: `ClanDetail`.
#[derive(Debug, Clone)]
pub struct ClanDetail {
    pub id: i64,
    pub name: String,
    pub leader_id: i64,
    pub color_inner: i64,
    pub color_outer: i64,
    pub level: i64,
    pub points: i64,
    pub max_members: i64,
    pub description: Option<String>,
    pub news: Option<String>,
    pub show_name: bool,
    pub has_base: bool,
    pub created_at: String,
    pub members: Vec<ClanMemberInfo>,
}

/// Admin API data as the client reads it: `DissolveClanResponse`.
#[derive(Debug, Clone)]
pub struct DissolveClanResponse {
    pub dissolved: bool,
    pub members_removed: i64,
}

/// Admin API data as the client reads it: `AddPointsResponse`.
#[derive(Debug, Clone)]
pub struct AddPointsResponse {
    pub new_total: i64,
}

/// Admin API data as the client reads it: `AccountSummary`.
#[derive(Debug, Clone)]
pub struct AccountSummary {
    pub id: i64,
    pub username: String,
    pub is_banned: bool,
    pub created_at: String,
    pub last_login: Option<String>,
}

/// Admin API data as the client reads it: `AccountDetail`.
#[derive(Debug, Clone)]
pub struct AccountDetail {
    pub id: i64,
    pub username: String,
    pub mac_address: String,
    pub is_banned: bool,
    pub ban_reason: Option<String>,
    pub created_at: String,
    pub last_login: Option<String>,
    pub has_character: bool,
    pub character_id: Option<i64>,
    pub is_online: bool,
}

/// The response envelope as the client reads it.
pub struct ApiResponse<T> {
    pub success: bool,
    pub data: Option<T>,
    pub error: Option<String>,
}

impl<T> ApiResponse<T> {
    /// The data of a successful response; otherwise its error, or
    /// `Unknown error` when it carries none. A successful response without
    /// data is the error `No data in response`.
    pub fn into_result(self) -> (r: Result<T, String>)
        ensures
            self.success ==> match self.data {
                Some(d) => r == Ok::<T, String>(d),
                None => r matches Err(e) && e@ == "No data in response"@,
            },
            !self.success ==> match self.error {
                Some(m) => r matches Err(e) && e@ == m@,
                None => r matches Err(e) && e@ == "Unknown error"@,
            },
    {
        if self.success {
            match self.data {
                Some(d) => Ok(d),
                None => Err(String::from_str("No data in response")),
            }
        } else {
            match self.error {
                Some(m) => Err(m),
                None => Err(String::from_str("Unknown error")),
            }
        }
    }
}

/// A text with every trailing `/` removed.
pub open spec fn trim_trailing_slashes(s: Seq<char>) -> Seq<char>
    decreases s.len(),
{
    if s.len() > 0 && s.last() == '/' {
        trim_trailing_slashes(s.drop_last())
    } else {
        s
    }
}

/// The server's base URL as the client keeps it: without trailing slashes.
pub fn trim_base_url(url: &str) -> (r: String)
    ensures
        r@ == trim_trailing_slashes(url@),
{
    let mut n = url.unicode_len();
    assert(url@.subrange(0, n as int) =~= url@);
    while n > 0 && url.get_char(n - 1) == '/'
        invariant
            n <= url@.len(),
            trim_trailing_slashes(url@) == trim_trailing_slashes(url@.subrange(0, n as int)),
        decreases n,
    {
        proof {
            assert(url@.subrange(0, n as int).drop_last() =~= url@.subrange(0, n - 1));
        }
        n -= 1;
    }
    proof {
        assert(trim_trailing_slashes(url@.subrange(0, n as int)) == url@.subrange(0, n as int));
    }
    url.substring_char(0, n).to_string()
}

/// The path listing bans: the type filter and the expired flag as query
/// parameters, when given.
pub open spec fn bans_path_spec(ban_type: Option<Seq<char>>, include_expired: bool) -> Seq<char> {
    match ban_type {
        Some(t) => if include_expired {
            "/api/bans?ban_type="@ + t + "&include_expired=true"@
        } else {
            "/api/bans?ban_type="@ + t
        },
        None => if include_expired { "/api/bans?include_expired=true"@ } else { "/api/bans"@ },
    }
}

/// Builds the path listing bans.
pub fn bans_path(ban_type: Option<&str>, include_expired: bool) -> (r: String)
    ensures
        r@ == bans_path_spec(match ban_type { Some(t) => Some(t@), None => None }, include_expired),
{
    match ban_type {
        Some(t) => {
            let mut p = String::from_str("/api/bans?ban_type=");
            p.append(t);
            if include_expired {
                p.append("&include_expired=true");
            }
            p
        },
        None => {
            if include_expired {
                String::from_str("/api/bans?include_expired=true")
            } else {
                String::from_str("/api/bans")
            }
        },
    }
}

/// The path listing accounts: the limit, and the search text when given.
pub open spec fn accounts_path_spec(search: Option<Seq<char>>, limit: i64) -> Seq<char> {
    let base = "/api/accounts?limit="@ + signed_decimal(limit as int);
    match search {
        Some(s) => base + "&search="@ + s,
        None => base,
    }
}

/// Builds the path listing accounts.
pub fn accounts_path(search: Option<&str>, limit: i64) -> (r: String)
    ensures
        r@ == accounts_path_spec(match search { Some(s) => Some(s@), None => None }, limit),
{
    let mut p = String::from_str("/api/accounts?limit=");
    let l = signed_decimal_string(limit);
    p.append(l.as_str());
    match search {
        Some(s) => {
            p.append("&search=");
            p.append(s);
        },
        None => {},
    }
    p
}

/// The path of a page of a player's mailbox.
pub fn mailbox_path(username: &str, page: i64) -> (r: String)
    ensures
        r@ == "/api/mail/"@ + username@ + "?page="@ + signed_decimal(page as int),
{
    let mut p = String::from_str("/api/mail/");
    p.append(username);
    p.append("?page=");
    let n = signed_decimal_string(page);
    p.append(n.as_str());
    p
}

/// The error a failed request reports. `api_error` is what reading the body
/// as an API response gave: `None` when it is not one, else its error field.
/// The API's own message wins; an API response without one gives
/// `HTTP <status>`; any other body gives `HTTP <status>: <body>`.
pub fn request_error(status: &str, api_error: Option<Option<String>>, body: &str) -> (r: String)
    ensures
        r@ == (match api_error {
            Some(Some(m)) => m@,
            Some(None) => "HTTP "@ + status@,
            None => "HTTP "@ + status@ + ": "@ + body@,
        }),
{
    match api_error {
        Some(Some(m)) => m,
        Some(None) => {
            let mut e = String::from_str("HTTP ");
            e.append(status);
            e
        },
        None => {
            let mut e = String::from_str("HTTP ");
            e.append(status);
            e.append(": ");
            e.append(body);
            e
        },
    }
}

} // verus!
