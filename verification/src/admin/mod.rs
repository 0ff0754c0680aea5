//! Admin API: actions for the game loop, request validation and the
//! response envelope.

pub mod types;

use vstd::prelude::*;
use vstd::string::StringExecFns;
use vstd::utf8::encode_utf8;
use vstd::string::StringSliceAdditionalSpecFns;

use crate::admin::types::{OnlinePlayer, PlayerInfo};
use crate::game::PlayerSession;
use crate::db::accounts::Account;
use crate::db::characters::{Character, Inventory};
use crate::text::{
    ascii_ci_eq, decimal, eq_ignore_ascii_case, starts_with, str_eq, text_less, text_lt, to_lowercase, unicode_lowercase,
};

verus! {

/// How a points or balance value is applied.
#[derive(Debug, Clone, Copy, PartialEq, Eq, Structural)]
pub enum PointsMode {
    /// Replace the value (requested as `set`).
    SetValue,
    Add,
    Subtract,
}

/// The mode named by a (case-insensitive) request string.
pub open spec fn points_mode_of(s: Seq<char>) -> Option<PointsMode> {
    if ascii_ci_eq(s, "set"@) {
        Some(PointsMode::SetValue)
    } else if ascii_ci_eq(s, "add"@) {
        Some(PointsMode::Add)
    } else if ascii_ci_eq(s, "subtract"@) || ascii_ci_eq(s, "sub"@) {
        Some(PointsMode::Subtract)
    } else {
        None
    }
}

/// `a + b` clamped to the `i64` range.
pub open spec fn saturate_i64(v: int) -> i64 {
    if v > i64::MAX {
        i64::MAX
    } else if v < i64::MIN {
        i64::MIN
    } else {
        v as i64
    }
}

/// What applying a mode to a current value gives.
pub open spec fn points_mode_apply(mode: PointsMode, current: i64, value: i64) -> i64 {
    match mode {
        PointsMode::SetValue => value,
        PointsMode::Add => saturate_i64(current + value),
        PointsMode::Subtract => saturate_i64(current - value),
    }
}

/// Clamps a wide value into the `i64` range (what `saturating_add` and
/// `saturating_sub` give).
fn clamp_i64(v: i128) -> (r: i64)
    ensures
        r == saturate_i64(v as int),
{
    if v > i64::MAX as i128 {
        i64::MAX
    } else if v < i64::MIN as i128 {
        i64::MIN
    } else {
        v as i64
    }
}

impl PointsMode {
    /// Parses `set`, `add`, `subtract` or `sub`, ignoring case.
    pub fn from_str(s: &str) -> (r: Option<Self>)
        ensures
            r == points_mode_of(s@),
    {
        if eq_ignore_ascii_case(s, "set") {
            Some(PointsMode::SetValue)
        } else if eq_ignore_ascii_case(s, "add") {
            Some(PointsMode::Add)
        } else if eq_ignore_ascii_case(s, "subtract") || eq_ignore_ascii_case(s, "sub") {
            Some(PointsMode::Subtract)
        } else {
            None
        }
    }

    /// Applies the mode: replace, or add or subtract with saturation.
    pub fn apply(&self, current: i64, value: i64) -> (r: i64)
        ensures
            r == points_mode_apply(*self, current, value),
    {
        match self {
            PointsMode::SetValue => value,
            PointsMode::Add => clamp_i64(current as i128 + value as i128),
            PointsMode::Subtract => clamp_i64(current as i128 - value as i128),
        }
    }
}

/// An inventory section.
#[derive(Debug, Clone, Copy, PartialEq, Eq, Structural)]
pub enum InventoryCategory {
    Item,
    Outfit,
    Accessory,
    Tool,
    Emote,
}

/// The category named by a (case-insensitive) request string.
pub open spec fn inventory_category_of(s: Seq<char>) -> Option<InventoryCategory> {
    if ascii_ci_eq(s, "item"@) || ascii_ci_eq(s, "items"@) {
        Some(InventoryCategory::Item)
    } else if ascii_ci_eq(s, "outfit"@) || ascii_ci_eq(s, "outfits"@) {
        Some(InventoryCategory::Outfit)
    } else if ascii_ci_eq(s, "accessory"@) || ascii_ci_eq(s, "accessories"@) || ascii_ci_eq(s, "acs"@) {
        Some(InventoryCategory::Accessory)
    } else if ascii_ci_eq(s, "tool"@) || ascii_ci_eq(s, "tools"@) {
        Some(InventoryCategory::Tool)
    } else if ascii_ci_eq(s, "emote"@) || ascii_ci_eq(s, "emotes"@) {
        Some(InventoryCategory::Emote)
    } else {
        None
    }
}

/// Slots per category: five emotes, nine of everything else.
pub open spec fn category_max_slot(c: InventoryCategory) -> u8 {
    match c {
        InventoryCategory::Emote => 5,
        _ => 9,
    }
}

/// The category's name as `{:?}` writes it.
pub open spec fn category_name(c: InventoryCategory) -> Seq<char> {
    match c {
        InventoryCategory::Item => "Item"@,
        InventoryCategory::Outfit => "Outfit"@,
        InventoryCategory::Accessory => "Accessory"@,
        InventoryCategory::Tool => "Tool"@,
        InventoryCategory::Emote => "Emote"@,
    }
}

impl InventoryCategory {
    /// Parses a category name (singular, plural, or `acs`), ignoring case.
    pub fn from_str(s: &str) -> (r: Option<Self>)
        ensures
            r == inventory_category_of(s@),
    {
        if eq_ignore_ascii_case(s, "item") || eq_ignore_ascii_case(s, "items") {
            Some(InventoryCategory::Item)
        } else if eq_ignore_ascii_case(s, "outfit") || eq_ignore_ascii_case(s, "outfits") {
            Some(InventoryCategory::Outfit)
        } else if eq_ignore_ascii_case(s, "accessory") || eq_ignore_ascii_case(s, "accessories")
            || eq_ignore_ascii_case(s, "acs") {
            Some(InventoryCategory::Accessory)
        } else if eq_ignore_ascii_case(s, "tool") || eq_ignore_ascii_case(s, "tools") {
            Some(InventoryCategory::Tool)
        } else if eq_ignore_ascii_case(s, "emote") || eq_ignore_ascii_case(s, "emotes") {
            Some(InventoryCategory::Emote)
        } else {
            None
        }
    }

    /// The highest slot number of the category.
    pub fn max_slot(&self) -> (r: u8)
        ensures
            r == category_max_slot(*self),
    {
        match self {
            InventoryCategory::Emote => 5,
            _ => 9,
        }
    }

    /// The category's name.
    pub fn name(&self) -> (r: &'static str)
        ensures
            r@ == category_name(*self),
    {
        match self {
            InventoryCategory::Item => "Item",
            InventoryCategory::Outfit => "Outfit",
            InventoryCategory::Accessory => "Accessory",
            InventoryCategory::Tool => "Tool",
            InventoryCategory::Emote => "Emote",
        }
    }
}

/// An admin action for the game loop to carry out.
#[derive(Debug, Clone)]
pub enum AdminAction {
    /// Kick a player by username.
    KickPlayer { username: String, reason: Option<String> },
    /// Teleport a player.
    TeleportPlayer { username: String, room_id: u16, x: u16, y: u16 },
    /// Give or set a player's points.
    SetPoints { username: String, points: i64, mode: PointsMode },
    /// Put an item into an inventory slot.
    GiveItem { username: String, category: InventoryCategory, slot: u8, item_id: u16 },
    /// Set a bank balance.
    SetBank { username: String, balance: i64, mode: PointsMode },
    /// Send system mail.
    SendMail {
        to_username: String,
        sender_name: String,
        message: String,
        points: i64,
        item_id: u16,
        item_category: u8,
    },
    /// Change a player's appearance.
    SetAppearance { username: String, body_id: Option<u16>, acs1_id: Option<u16>, acs2_id: Option<u16> },
}

/// The response envelope of the admin API.
pub struct ApiResponse<T> {
    pub success: bool,
    pub data: Option<T>,
    pub error: Option<String>,
}

impl<T> ApiResponse<T> {
    /// A successful response carrying `data`.
    pub fn success(data: T) -> (r: Self)
        ensures
            r.success,
            r.data == Some(data),
            r.error is None,
    {
        ApiResponse { success: true, data: Some(data), error: None }
    }

    /// A failed response carrying a message.
    pub fn error(message: &str) -> (r: ApiResponse<()>)
        ensures
            !r.success,
            r.data is None,
            r.error matches Some(m) && m@ == message@,
    {
        ApiResponse { success: false, data: None, error: Some(String::from_str(message)) }
    }
}

/// The outcome of checking a request's API key.
pub open spec fn api_key_check(x_api_key: Option<Seq<char>>, authorization: Option<Seq<char>>, expected: Seq<char>) -> Result<(), Seq<char>> {
    let provided = match x_api_key {
        Some(k) => Some(k),
        None => match authorization {
            Some(a) => if a.len() >= 7 && a.subrange(0, 7) == "Bearer "@ {
                Some(a.subrange(7, a.len() as int))
            } else {
                None
            },
            None => None,
        },
    };
    match provided {
        Some(k) => if k == expected {
            Ok(())
        } else {
            Err("Invalid API key"@)
        },
        None => Err("Missing API key. Use X-API-Key header or Authorization: Bearer <key>"@),
    }
}

/// Checks the API key of a request: the `X-API-Key` header, or else an
/// `Authorization: Bearer` header. Each argument is the header's text, `None`
/// when the header is absent or not visible ASCII.
pub fn verify_api_key(x_api_key: Option<&str>, authorization: Option<&str>, expected_key: &str) -> (r: Result<(), String>)
    ensures
        match (r, api_key_check(
            match x_api_key { Some(k) => Some(k@), None => None },
            match authorization { Some(a) => Some(a@), None => None },
            expected_key@,
        )) {
            (Ok(()), Ok(())) => true,
            (Err(m), Err(e)) => m@ == e,
            _ => false,
        },
{
    proof {
        reveal_strlit("Bearer ");
    }
    let provided: Option<&str> = match x_api_key {
        Some(k) => Some(k),
        None => match authorization {
            Some(a) => {
                if starts_with(a, "Bearer ") {
                    Some(a.substring_char(7, a.unicode_len()))
                } else {
                    None
                }
            },
            None => None,
        },
    };
    match provided {
        Some(k) => {
            if str_eq(k, expected_key) {
                Ok(())
            } else {
                Err(String::from_str("Invalid API key"))
            }
        },
        None => Err(String::from_str("Missing API key. Use X-API-Key header or Authorization: Bearer <key>")),
    }
}

/// The default mode of points and bank requests: `set`.
pub fn default_mode() -> (r: String)
    ensures
        r@ == "set"@,
{
    String::from_str("set")
}

/// The default coordinate of a teleport request.
pub fn default_coord() -> (r: u16)
    ensures
        r == 100,
{
    100
}

/// The default of flags that are on unless stated.
pub fn default_true() -> (r: bool)
    ensures
        r,
{
    true
}

/// The default sender of system mail.
pub fn default_sender() -> (r: String)
    ensures
        r@ == "System"@,
{
    String::from_str("System")
}

/// The default mail paper.
pub fn default_paper() -> (r: u8)
    ensures
        r == 1,
{
    1
}

/// Checks a points request: the mode must parse, and `set` takes no
/// negative value.
pub fn validate_points_request(points: i64, mode: &str) -> (r: Result<PointsMode, String>)
    ensures
        match r {
            Ok(m) => points_mode_of(mode@) == Some(m) && !(points < 0 && m == PointsMode::SetValue),
            Err(e) => {
                ||| points_mode_of(mode@) is None && e@ == "Invalid mode. Use 'set', 'add', or 'subtract'"@
                ||| points_mode_of(mode@) == Some(PointsMode::SetValue) && points < 0
                    && e@ == "Points cannot be negative for 'set' mode"@
            },
        },
{
    match PointsMode::from_str(mode) {
        None => Err(String::from_str("Invalid mode. Use 'set', 'add', or 'subtract'")),
        Some(m) => {
            if points < 0 && m == PointsMode::SetValue {
                Err(String::from_str("Points cannot be negative for 'set' mode"))
            } else {
                Ok(m)
            }
        },
    }
}

/// Checks a bank request: the mode must parse.
pub fn validate_bank_request(mode: &str) -> (r: Result<PointsMode, String>)
    ensures
        match r {
            Ok(m) => points_mode_of(mode@) == Some(m),
            Err(e) => points_mode_of(mode@) is None && e@ == "Invalid mode. Use 'set', 'add', or 'subtract'"@,
        },
{
    match PointsMode::from_str(mode) {
        None => Err(String::from_str("Invalid mode. Use 'set', 'add', or 'subtract'")),
        Some(m) => Ok(m),
    }
}

/// Checks an inventory request: the category must parse and the slot lie in
/// `1..=max_slot`.
pub fn validate_inventory_request(category: &str, slot: u8) -> (r: Result<InventoryCategory, String>)
    ensures
        match r {
            Ok(c) => inventory_category_of(category@) == Some(c) && 1 <= slot <= category_max_slot(c),
            Err(e) => match inventory_category_of(category@) {
                None => e@ == "Invalid category. Use 'item', 'outfit', 'accessory', 'tool', or 'emote'"@,
                Some(c) => !(1 <= slot <= category_max_slot(c)) && e@ == "Invalid slot. Must be 1-"@
                    + decimal(category_max_slot(c) as nat) + " for "@ + category_name(c),
            },
        },
{
    match InventoryCategory::from_str(category) {
        None => Err(String::from_str("Invalid category. Use 'item', 'outfit', 'accessory', 'tool', or 'emote'")),
        Some(c) => {
            if slot < 1 || slot > c.max_slot() {
                let mut m = String::from_str("Invalid slot. Must be 1-");
                let n = crate::text::decimal_string(c.max_slot() as u64);
                m.append(n.as_str());
                m.append(" for ");
                m.append(c.name());
                Err(m)
            } else {
                Ok(c)
            }
        },
    }
}

/// Whether a ban type is one of `ip`, `mac` or `account`.
pub fn is_valid_ban_type(ban_type: &str) -> (r: bool)
    ensures
        r == (ban_type@ == "ip"@ || ban_type@ == "mac"@ || ban_type@ == "account"@),
{
    str_eq(ban_type, "ip") || str_eq(ban_type, "mac") || str_eq(ban_type, "account")
}

/// Checks a direct ban request: a known type, a value and a reason.
pub fn validate_ban_request(ban_type: &str, value: &str, reason: &str) -> (r: Result<(), String>)
    ensures
        match r {
            Ok(()) => (ban_type@ == "ip"@ || ban_type@ == "mac"@ || ban_type@ == "account"@)
                && value@.len() > 0 && reason@.len() > 0,
            Err(e) => if !(ban_type@ == "ip"@ || ban_type@ == "mac"@ || ban_type@ == "account"@) {
                e@ == "Invalid ban_type. Must be 'ip', 'mac', or 'account'"@
            } else if value@.len() == 0 {
                e@ == "Ban value cannot be empty"@
            } else {
                reason@.len() == 0 && e@ == "Ban reason cannot be empty"@
            },
        },
{
    if !is_valid_ban_type(ban_type) {
        return Err(String::from_str("Invalid ban_type. Must be 'ip', 'mac', or 'account'"));
    }
    if value.is_empty() {
        return Err(String::from_str("Ban value cannot be empty"));
    }
    if reason.is_empty() {
        return Err(String::from_str("Ban reason cannot be empty"));
    }
    Ok(())
}

/// Checks a system mail request: a recipient, a message of at most 1000
/// bytes, and a category whenever an item is attached. (The byte length is
/// `str::len`, the length of the UTF-8 encoding as a `usize`.)
pub fn validate_mail_request(to: &str, message: &str, item_id: u16, item_category: u8) -> (r: Result<(), String>)
    ensures
        match r {
            Ok(()) => to@.len() > 0 && message@.len() > 0 && (encode_utf8(message@).len() as usize) <= 1000
                && !(item_id > 0 && item_category == 0),
            Err(e) => if to@.len() == 0 {
                e@ == "Recipient cannot be empty"@
            } else if message@.len() == 0 {
                e@ == "Message cannot be empty"@
            } else if (encode_utf8(message@).len() as usize) > 1000 {
                e@ == "Message too long (max 1000 chars)"@
            } else {
                item_id > 0 && item_category == 0
                    && e@ == "item_category required when item_id is provided (1=outfit, 2=item, 3=accessory, 4=tool)"@
            },
        },
{
    if to.is_empty() {
        return Err(String::from_str("Recipient cannot be empty"));
    }
    if message.is_empty() {
        return Err(String::from_str("Message cannot be empty"));
    }
    let byte_len = message.len();
    proof {
        assert(message.spec_bytes() == encode_utf8(message@));
    }
    if byte_len > 1000 {
        return Err(String::from_str("Message too long (max 1000 chars)"));
    }
    if item_id > 0 && item_category == 0 {
        return Err(String::from_str(
            "item_category required when item_id is provided (1=outfit, 2=item, 3=accessory, 4=tool)",
        ));
    }
    Ok(())
}

/// The value a player ban is recorded under: the lower-cased username for
/// an account ban, the account's MAC address for a MAC ban, and the address
/// of the player's online session for an IP ban.
pub open spec fn player_ban_value_spec(
    ban_type: Seq<char>,
    username_lower: Seq<char>,
    mac_address: Seq<char>,
    online_ip: Option<Seq<char>>,
) -> Result<Seq<char>, Seq<char>> {
    if ban_type == "account"@ {
        Ok(username_lower)
    } else if ban_type == "mac"@ {
        Ok(mac_address)
    } else if ban_type == "ip"@ {
        match online_ip {
            Some(ip) => Ok(ip),
            None => Err("Cannot ban by IP: player is not online"@),
        }
    } else {
        Err("Invalid ban_type. Must be 'ip', 'mac', or 'account'"@)
    }
}

/// Picks the value a ban of a player is recorded under; `online_ip` is the
/// address of the player's session when the player is online.
pub fn player_ban_value(ban_type: &str, username_lower: &str, mac_address: &str, online_ip: Option<&str>) -> (r: Result<String, String>)
    ensures
        match (r, player_ban_value_spec(
            ban_type@,
            username_lower@,
            mac_address@,
            match online_ip { Some(ip) => Some(ip@), None => None },
        )) {
            (Ok(v), Ok(w)) => v@ == w,
            (Err(m), Err(e)) => m@ == e,
            _ => false,
        },
{
    if str_eq(ban_type, "account") {
        Ok(String::from_str(username_lower))
    } else if str_eq(ban_type, "mac") {
        Ok(String::from_str(mac_address))
    } else if str_eq(ban_type, "ip") {
        match online_ip {
            Some(ip) => Ok(String::from_str(ip)),
            None => Err(String::from_str("Cannot ban by IP: player is not online")),
        }
    } else {
        Err(String::from_str("Invalid ban_type. Must be 'ip', 'mac', or 'account'"))
    }
}

/// The page of an account listing: at most 200 rows (50 when not given),
/// from offset 0 when not given.
pub fn account_page(limit: Option<i64>, offset: Option<i64>) -> (r: (i64, i64))
    ensures
        r.0 == (match limit { Some(l) => if l < 200 { l } else { 200 }, None => 50 }),
        r.1 == (match offset { Some(o) => o, None => 0 }),
{
    let l = match limit {
        Some(l) => if l < 200 { l } else { 200 },
        None => 50,
    };
    let o = match offset {
        Some(o) => o,
        None => 0,
    };
    (l, o)
}

/// The `LIKE` pattern of an account search: the lower-cased search text
/// anywhere in the name.
pub fn search_pattern(search: &str) -> (r: String)
    ensures
        r@ == "%"@ + unicode_lowercase(search@) + "%"@,
{
    let lower = to_lowercase(search);
    let mut p = String::from_str("%");
    p.append(lower.as_str());
    p.append("%");
    p
}

/// Whether a ban with expiry `expires_at` has expired at `now` (both in the
/// `YYYY-MM-DD HH:MM:SS` form, compared as text); a ban without expiry never
/// does.
pub fn ban_is_expired(expires_at: Option<&str>, now: &str) -> (r: bool)
    ensures
        r == (match expires_at { Some(e) => text_lt(e@, now@), None => false }),
{
    match expires_at {
        Some(e) => text_less(e, now),
        None => false,
    }
}

/// Checks the type filter of a ban listing.
pub fn check_ban_type_filter(ban_type: Option<&str>) -> (r: Result<(), String>)
    ensures
        match ban_type {
            Some(t) => if t@ == "ip"@ || t@ == "mac"@ || t@ == "account"@ {
                r is Ok
            } else {
                r matches Err(e) && e@ == "Invalid ban_type filter"@
            },
            None => r is Ok,
        },
{
    match ban_type {
        Some(t) => {
            if is_valid_ban_type(t) {
                Ok(())
            } else {
                Err(String::from_str("Invalid ban_type filter"))
            }
        },
        None => Ok(()),
    }
}

/// The details of a player for the admin API: the account, its character and
/// inventory, and where the player stands when online (room, x, y).
pub fn player_info(account: Account, character: Character, inventory: &Inventory, online: Option<(u16, u16, u16)>) -> (r: PlayerInfo)
    ensures
        r.account_id == account.id && r.username == account.username && r.created_at == account.created_at,
        r.last_login == account.last_login && r.is_banned == account.is_banned && r.ban_reason == account.ban_reason,
        r.character_id == character.id && r.x == character.x && r.y == character.y && r.room_id == character.room_id,
        r.body_id == character.body_id && r.acs1_id == character.acs1_id && r.acs2_id == character.acs2_id,
        r.points == character.points && r.bank_balance == character.bank_balance,
        r.is_moderator == character.is_moderator && r.clan_id == character.clan_id,
        r.is_online == online is Some,
        r.current_room == (match online { Some(o) => Some(o.0), None => None }),
        r.current_x == (match online { Some(o) => Some(o.1), None => None }),
        r.current_y == (match online { Some(o) => Some(o.2), None => None }),
        r.items@ == inventory.item_slots() && r.outfits@ == inventory.outfit_slots(),
        r.accessories@ == inventory.accessory_slots() && r.tools@ == inventory.tool_slots(),
        r.emotes@ == inventory.emote_slots(),
{
    let (is_online, current_room, current_x, current_y) = match online {
        Some((room, x, y)) => (true, Some(room), Some(x), Some(y)),
        None => (false, None, None, None),
    };
    PlayerInfo {
        account_id: account.id,
        username: account.username,
        created_at: account.created_at,
        last_login: account.last_login,
        is_banned: account.is_banned,
        ban_reason: account.ban_reason,
        character_id: character.id,
        x: character.x,
        y: character.y,
        room_id: character.room_id,
        body_id: character.body_id,
        acs1_id: character.acs1_id,
        acs2_id: character.acs2_id,
        points: character.points,
        bank_balance: character.bank_balance,
        is_moderator: character.is_moderator,
        clan_id: character.clan_id,
        is_online,
        current_room,
        current_x,
        current_y,
        items: inventory.items(),
        outfits: inventory.outfits(),
        accessories: inventory.accessories(),
        tools: inventory.tools(),
        emotes: inventory.emotes(),
    }
}

/// A logged-in session as listed by the admin API (player id 0 when it has
/// none); sessions that are not logged in, or have no name, are not listed.
pub fn online_player(s: &PlayerSession) -> (r: Option<OnlinePlayer>)
    ensures
        r is Some <==> (s.is_authenticated && s.username is Some),
        r matches Some(p) ==> {
            &&& p.username == s.username->0
            &&& p.player_id == (match s.player_id { Some(id) => id, None => 0 })
            &&& p.room_id == s.room_id && p.x == s.x && p.y == s.y
            &&& p.points == s.points && p.is_moderator == s.is_moderator
        },
{
    if !s.is_authenticated {
        return None;
    }
    match &s.username {
        Some(name) => Some(OnlinePlayer {
            username: name.clone(),
            player_id: match s.player_id {
                Some(id) => id,
                None => 0,
            },
            room_id: s.room_id,
            x: s.x,
            y: s.y,
            points: s.points,
            is_moderator: s.is_moderator,
        }),
        None => None,
    }
}

/// Whether a session is the logged-in session of `username_lower`.
pub fn is_session_of(s: &PlayerSession, username_lower: &str) -> (r: bool)
    ensures
        r == (s.is_authenticated && (s.username matches Some(n) && n@ == username_lower@)),
{
    if !s.is_authenticated {
        return false;
    }
    match &s.username {
        Some(n) => str_eq(n.as_str(), username_lower),
        None => false,
    }
}

} // verus!
