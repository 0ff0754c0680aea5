//! Requests and responses of the admin API endpoints.

use vstd::prelude::*;

verus! {

// ---- accounts endpoints ----

/// Admin API data: `AccountSummary`.
#[derive(Debug, Clone)]
pub struct AccountSummary {
    pub id: i64,
    pub username: String,
    pub is_banned: bool,
    pub created_at: String,
    pub last_login: Option<String>,
}

/// Admin API data: `ListAccountsQuery`.
#[derive(Debug, Clone)]
pub struct ListAccountsQuery {
    pub limit: Option<i64>,
    pub offset: Option<i64>,
    pub search: Option<String>,
}

/// Admin API data: `AccountDetail`.
#[derive(Debug, Clone)]
pub struct AccountDetail {
    pub id: i64,
    pub username: String,
    pub mac_address: String,
    pub is_banned: bool,
    pub ban_reason: Option<String>,
    pub created_at: String,
    pub last_login: Option<String>,
    pub has_character: bool,
    pub character_id: Option<i64>,
    pub is_online: bool,
}

// ---- bans endpoints ----

/// Admin API data: `BanRecord`.
#[derive(Debug, Clone)]
pub struct BanRecord {
    pub id: i64,
    pub ban_type: String,
    pub value: String,
    pub reason: String,
    pub banned_by: Option<String>,
    pub banned_at: String,
    pub expires_at: Option<String>,
    pub is_expired: bool,
}

/// Admin API data: `ListBansQuery`.
#[derive(Debug, Clone)]
pub struct ListBansQuery {
    /// Filter by type: "ip", "mac", "account"
    pub ban_type: Option<String>,
    pub include_expired: Option<bool>,
}

/// Admin API data: `CreateBanRequest`.
#[derive(Debug, Clone)]
pub struct CreateBanRequest {
    /// "ip", "mac", "account"
    pub ban_type: String,
    /// The IP, MAC, or username to ban
    pub value: String,
    pub reason: String,
    /// None = permanent
    pub duration_hours: Option<u32>,
}

/// Admin API data: `CreateBanResponse`.
#[derive(Debug, Clone)]
pub struct CreateBanResponse {
    pub id: i64,
}

/// Admin API data: `DeleteBanResponse`.
#[derive(Debug, Clone)]
pub struct DeleteBanResponse {
    pub deleted: bool,
}

// ---- clans endpoints ----

/// Admin API data: `ClanSummary`.
#[derive(Debug, Clone)]
pub struct ClanSummary {
    pub id: i64,
    pub name: String,
    pub leader_id: i64,
    pub member_count: i64,
    pub max_members: i64,
    pub points: i64,
    pub level: i64,
}

/// Admin API data: `ClanMemberInfo`.
#[derive(Debug, Clone)]
pub struct ClanMemberInfo {
    pub character_id: i64,
    pub username: String,
    pub is_leader: bool,
}

/// Admin API data: `ClanDetail`.
#[derive(Debug, Clone)]
pub struct ClanDetail {
    pub id: i64,
    pub name: String,
    pub leader_id: i64,
    pub color_inner: i64,
    pub color_outer: i64,
    pub level: i64,
    pub points: i64,
    pub max_members: i64,
    pub description: Option<String>,
    pub news: Option<String>,
    pub show_name: bool,
    pub has_base: bool,
    pub created_at: String,
    pub members: Vec<ClanMemberInfo>,
}

/// Admin API data: `DissolveClanResponse`.
#[derive(Debug, Clone)]
pub struct DissolveClanResponse {
    pub dissolved: bool,
    pub members_removed: i64,
}

/// Admin API data: `AddPointsRequest`.
#[derive(Debug, Clone)]
pub struct AddPointsRequest {
    pub points: i64,
}

/// Admin API data: `AddPointsResponse`.
#[derive(Debug, Clone)]
pub struct AddPointsResponse {
    pub new_total: i64,
}

// ---- mail endpoints ----

/// Admin API data: `SendMailRequest`.
#[derive(Debug, Clone)]
pub struct SendMailRequest {
    pub to: String,
    pub message: String,
    pub sender: String,
    pub points: i64,
    pub item_id: u16,
    /// 1=outfit, 2=item, 3=accessory, 4=tool
    pub item_category: u8,
    pub paper: u8,
    pub font_color: u8,
}

/// Admin API data: `SendMailResponse`.
#[derive(Debug, Clone)]
pub struct SendMailResponse {
    pub queued: bool,
}

/// Admin API data: `MailEntry`.
#[derive(Debug, Clone)]
pub struct MailEntry {
    pub id: i64,
    pub from: String,
    pub message: String,
    pub item_id: i64,
    pub item_category: i64,
    pub points: i64,
    pub is_read: bool,
    pub created_at: String,
}

/// Admin API data: `MailboxResponse`.
#[derive(Debug, Clone)]
pub struct MailboxResponse {
    pub total: i64,
    pub unread: i64,
    pub mail: Vec<MailEntry>,
}

/// Admin API data: `MailboxQuery`.
#[derive(Debug, Clone)]
pub struct MailboxQuery {
    pub page: Option<i64>,
}

// ---- players endpoints ----

/// Admin API data: `OnlinePlayer`.
#[derive(Debug, Clone)]
pub struct OnlinePlayer {
    pub username: String,
    pub player_id: u16,
    pub room_id: u16,
    pub x: u16,
    pub y: u16,
    pub points: u32,
    pub is_moderator: bool,
}

/// Admin API data: `PlayerInfo`.
#[derive(Debug, Clone)]
pub struct PlayerInfo {
    pub account_id: i64,
    pub username: String,
    pub created_at: String,
    pub last_login: Option<String>,
    pub is_banned: bool,
    pub ban_reason: Option<String>,
    pub character_id: i64,
    pub x: i16,
    pub y: i16,
    pub room_id: i16,
    pub body_id: i16,
    pub acs1_id: i16,
    pub acs2_id: i16,
    pub points: i64,
    pub bank_balance: i64,
    pub is_moderator: bool,
    pub clan_id: Option<i64>,
    pub is_online: bool,
    pub current_room: Option<u16>,
    pub current_x: Option<u16>,
    pub current_y: Option<u16>,
    pub items: [u16; 9],
    pub outfits: [u16; 9],
    pub accessories: [u16; 9],
    pub tools: [u8; 9],
    pub emotes: [u8; 5],
}

/// Admin API data: `KickRequest`.
#[derive(Debug, Clone)]
pub struct KickRequest {
    pub reason: Option<String>,
}

/// Admin API data: `KickResponse`.
#[derive(Debug, Clone)]
pub struct KickResponse {
    pub kicked: bool,
    pub was_online: bool,
}

/// Admin API data: `BanRequest`.
#[derive(Debug, Clone)]
pub struct BanRequest {
    /// "ip", "mac", "account"
    pub ban_type: String,
    pub reason: String,
    /// None = permanent
    pub duration_hours: Option<u32>,
    /// Also kick if online (default true)
    pub kick: bool,
}

/// Admin API data: `BanResponse`.
#[derive(Debug, Clone)]
pub struct BanResponse {
    pub banned: bool,
    pub ban_id: i64,
    pub kicked: bool,
}

/// Admin API data: `TeleportRequest`.
#[derive(Debug, Clone)]
pub struct TeleportRequest {
    pub room_id: u16,
    pub x: u16,
    pub y: u16,
}

/// Admin API data: `TeleportResponse`.
#[derive(Debug, Clone)]
pub struct TeleportResponse {
    pub teleported: bool,
    pub was_online: bool,
}

/// Admin API data: `SetPointsRequest`.
#[derive(Debug, Clone)]
pub struct SetPointsRequest {
    pub points: i64,
    /// "set", "add", "subtract"
    pub mode: String,
}

/// Admin API data: `SetPointsResponse`.
#[derive(Debug, Clone)]
pub struct SetPointsResponse {
    pub queued: bool,
}

/// Admin API data: `SetBankRequest`.
#[derive(Debug, Clone)]
pub struct SetBankRequest {
    pub balance: i64,
    /// "set", "add", "subtract"
    pub mode: String,
}

/// Admin API data: `SetBankResponse`.
#[derive(Debug, Clone)]
pub struct SetBankResponse {
    pub queued: bool,
}

/// Admin API data: `SetInventorySlotRequest`.
#[derive(Debug, Clone)]
pub struct SetInventorySlotRequest {
    /// "item", "outfit", "accessory", "tool", "emote"
    pub category: String,
    /// 1-9 (or 1-5 for emotes)
    pub slot: u8,
    /// item/outfit/accessory/tool/emote ID (0 = empty)
    pub item_id: u16,
}

/// Admin API data: `SetInventorySlotResponse`.
#[derive(Debug, Clone)]
pub struct SetInventorySlotResponse {
    pub queued: bool,
}

/// Admin API data: `SetModeratorRequest`.
#[derive(Debug, Clone)]
pub struct SetModeratorRequest {
    pub is_moderator: bool,
}

/// Admin API data: `SetModeratorResponse`.
#[derive(Debug, Clone)]
pub struct SetModeratorResponse {
    pub updated: bool,
}

// ---- server endpoints ----

/// Admin API data: `ServerStats`.
#[derive(Debug, Clone)]
pub struct ServerStats {
    pub online_players: usize,
    pub total_connections: usize,
    pub rooms_active: usize,
}

} // verus!
