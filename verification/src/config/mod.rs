//! Game configuration: server settings, game rules, prices, shops,
//! collectibles, plants, clans and upgrader slots.
//!
//! The TOML files are read and deserialized at the edge; this module holds
//! the configuration's types, turns the files' string-keyed tables into
//! numerically keyed maps, and answers the lookups the game makes.

pub mod keys;

use std::collections::HashMap;

use vstd::prelude::*;
use vstd::string::StringExecFns;

use crate::config::keys::{key_map_u16, key_map_u8, numeric_key_map, u16_keys, u8_keys};
use crate::text::{decimal, decimal_string, str_eq};

verus! {

broadcast use vstd::std_specs::hash::group_hash_axioms;

// =============================================================================
// server.toml
// =============================================================================

/// Contents of `server.toml`.
#[derive(Debug, Clone)]
pub struct ServerConfig {
    pub server: ServerSettingsConfig,
    pub logging: LoggingConfig,
    pub network: NetworkConfig,
    pub admin: AdminConfig,
}

/// The `[server]` table.
#[derive(Debug, Clone)]
pub struct ServerSettingsConfig {
    pub port: u16,
    pub database_path: String,
    pub max_connections: usize,
    pub version: String,
    pub motd: String,
    pub host: String,
    pub max_connections_per_ip: usize,
    pub auto_save_position: bool,
}

/// The `[logging]` table.
#[derive(Debug, Clone)]
pub struct LoggingConfig {
    pub level: String,
}

/// The `[network]` table.
#[derive(Debug, Clone)]
pub struct NetworkConfig {
    pub max_message_size: usize,
    pub connection_timeout_secs: u64,
    pub ping_interval_secs: u64,
}

impl Default for NetworkConfig {
    fn default() -> (r: Self)
        ensures
            r.max_message_size == 8192,
            r.connection_timeout_secs == 300,
            r.ping_interval_secs == 30,
    {
        NetworkConfig {
            max_message_size: default_max_message_size(),
            connection_timeout_secs: default_connection_timeout(),
            ping_interval_secs: default_ping_interval(),
        }
    }
}

/// The `[admin]` table.
#[derive(Debug, Clone)]
pub struct AdminConfig {
    pub enabled: bool,
    pub port: u16,
    pub host: String,
    pub api_key: String,
}

impl Default for AdminConfig {
    fn default() -> (r: Self)
        ensures
            !r.enabled,
            r.port == 8080,
            r.host@ == "127.0.0.1"@,
            r.api_key@ == Seq::<char>::empty(),
    {
        AdminConfig {
            enabled: false,
            port: default_admin_port(),
            host: default_admin_host(),
            api_key: String::new(),
        }
    }
}

/// Default admin API port.
pub fn default_admin_port() -> (r: u16)
    ensures
        r == 8080,
{
    8080
}

/// Default admin API host.
pub fn default_admin_host() -> (r: String)
    ensures
        r@ == "127.0.0.1"@,
{
    String::from_str("127.0.0.1")
}

/// Default game port.
pub fn default_port() -> (r: u16)
    ensures
        r == 5555,
{
    5555
}

/// Default database file.
pub fn default_database_path() -> (r: String)
    ensures
        r@ == "slime_online2.db"@,
{
    String::from_str("slime_online2.db")
}

/// Default connection limit.
pub fn default_max_connections() -> (r: usize)
    ensures
        r == 500,
{
    500
}

/// Default client version.
pub fn default_version() -> (r: String)
    ensures
        r@ == "0.106"@,
{
    String::from_str("0.106")
}

/// Default message of the day.
pub fn default_motd() -> (r: String)
    ensures
        r@ == "Welcome to Slime Online 2 Private Server!"@,
{
    String::from_str("Welcome to Slime Online 2 Private Server!")
}

/// Default listening host.
pub fn default_host() -> (r: String)
    ensures
        r@ == "0.0.0.0"@,
{
    String::from_str("0.0.0.0")
}

/// Default log level.
pub fn default_log_level() -> (r: String)
    ensures
        r@ == "info"@,
{
    String::from_str("info")
}

/// Default largest message.
pub fn default_max_message_size() -> (r: usize)
    ensures
        r == 8192,
{
    8192
}

/// Default connection timeout in seconds.
pub fn default_connection_timeout() -> (r: u64)
    ensures
        r == 300,
{
    300
}

/// Default ping interval in seconds.
pub fn default_ping_interval() -> (r: u64)
    ensures
        r == 30,
{
    30
}

// =============================================================================
// game.toml
// =============================================================================

/// Contents of `game.toml`.
#[derive(Debug, Clone)]
pub struct GameRulesConfig {
    pub limits: LimitsConfig,
    pub defaults: DefaultsConfig,
    pub welcome_mail: WelcomeMailConfig,
    pub bbs: BbsConfig,
}

/// Length and value limits.
#[derive(Debug, Clone)]
pub struct LimitsConfig {
    pub max_username_length: usize,
    pub min_username_length: usize,
    pub max_password_length: usize,
    pub min_password_length: usize,
    pub max_chat_length: usize,
    pub max_points: u32,
    pub max_bank_balance: u32,
}

/// What a new character starts with.
#[derive(Debug, Clone)]
pub struct DefaultsConfig {
    pub spawn_x: u16,
    pub spawn_y: u16,
    pub spawn_room: u16,
    pub outfit: u16,
    pub accessory1: u16,
    pub accessory2: u16,
    pub signature: u8,
    pub signature_bg: u8,
    pub emotes: [u8; 5],
    pub starting_items: [u16; 9],
    pub starting_outfits: [u16; 9],
    pub starting_accessories: [u16; 9],
    pub starting_tools: [u8; 9],
    pub unlocked_mail_paper: Vec<u8>,
}

/// The mail a new player receives.
#[derive(Debug, Clone)]
pub struct WelcomeMailConfig {
    pub sender: String,
    pub text: String,
    pub points: u16,
    pub paper: u8,
    pub font: u8,
}

/// Bulletin board categories.
#[derive(Debug, Clone)]
pub struct BbsConfig {
    pub categories: Vec<String>,
}

// =============================================================================
// prices.toml
// =============================================================================

/// A priced item.
#[derive(Debug, Clone)]
pub struct ItemPriceEntry {
    pub name: String,
    pub price: u32,
}

/// A priced tool.
#[derive(Debug, Clone)]
pub struct ToolPriceEntry {
    pub name: String,
    pub price: u32,
}

/// `prices.toml` as read: tables keyed by the id's text.
pub struct PriceConfigRaw {
    pub items: Vec<(String, ItemPriceEntry)>,
    pub outfits: Vec<(String, u32)>,
    pub accessories: Vec<(String, u32)>,
    pub tools: Vec<(String, ToolPriceEntry)>,
    pub mail_paper: Vec<(String, u16)>,
    pub discardable: Vec<u16>,
}

/// Prices keyed by numeric id.
#[derive(Debug, Clone)]
pub struct PriceConfig {
    pub items: HashMap<u16, ItemPriceEntry>,
    pub outfits: HashMap<u16, u32>,
    pub accessories: HashMap<u16, u32>,
    pub tools: HashMap<u8, ToolPriceEntry>,
    pub mail_paper: HashMap<u8, u16>,
    pub discardable: Vec<u16>,
}

/// The value stored for `id`, if any.
pub open spec fn lookup<K, V>(m: Map<K, V>, id: K) -> Option<V> {
    if m.contains_key(id) {
        Some(m[id])
    } else {
        None
    }
}

impl PriceConfig {
    /// Keys each table by its numeric id; entries whose key is not a number
    /// in range are dropped, and a later entry for the same id wins.
    pub fn from_raw(raw: PriceConfigRaw) -> (r: Self)
        ensures
            r.items@ == u16_keys(numeric_key_map(raw.items@, 65535)),
            r.outfits@ == u16_keys(numeric_key_map(raw.outfits@, 65535)),
            r.accessories@ == u16_keys(numeric_key_map(raw.accessories@, 65535)),
            r.tools@ == u8_keys(numeric_key_map(raw.tools@, 255)),
            r.mail_paper@ == u8_keys(numeric_key_map(raw.mail_paper@, 255)),
            r.discardable@ == raw.discardable@,
    {
        PriceConfig {
            items: key_map_u16(raw.items),
            outfits: key_map_u16(raw.outfits),
            accessories: key_map_u16(raw.accessories),
            tools: key_map_u8(raw.tools),
            mail_paper: key_map_u8(raw.mail_paper),
            discardable: raw.discardable,
        }
    }

    /// Buy price of an item.
    pub fn get_item_price(&self, item_id: u16) -> (r: Option<u32>)
        ensures
            r == (match lookup(self.items@, item_id) {
                Some(e) => Some(e.price),
                None => None,
            }),
    {
        match self.items.get(&item_id) {
            Some(e) => Some(e.price),
            None => None,
        }
    }

    /// Sell price of an item: its buy price divided by 3, rounded down.
    pub fn get_item_sell_price(&self, item_id: u16) -> (r: Option<u32>)
        ensures
            r == (match lookup(self.items@, item_id) {
                Some(e) => Some((e.price / 3) as u32),
                None => None,
            }),
    {
        match self.items.get(&item_id) {
            Some(e) => Some(e.price / 3),
            None => None,
        }
    }

    /// Buy price of an outfit.
    pub fn get_outfit_price(&self, outfit_id: u16) -> (r: Option<u32>)
        ensures
            r == lookup(self.outfits@, outfit_id),
    {
        match self.outfits.get(&outfit_id) {
            Some(p) => Some(*p),
            None => None,
        }
    }

    /// Sell price of an outfit (a third of its price).
    pub fn get_outfit_sell_price(&self, outfit_id: u16) -> (r: Option<u32>)
        ensures
            r == (match lookup(self.outfits@, outfit_id) {
                Some(p) => Some((p / 3) as u32),
                None => None,
            }),
    {
        match self.outfits.get(&outfit_id) {
            Some(p) => Some(*p / 3),
            None => None,
        }
    }

    /// Buy price of an accessory.
    pub fn get_accessory_price(&self, accessory_id: u16) -> (r: Option<u32>)
        ensures
            r == lookup(self.accessories@, accessory_id),
    {
        match self.accessories.get(&accessory_id) {
            Some(p) => Some(*p),
            None => None,
        }
    }

    /// Sell price of an accessory (a third of its price).
    pub fn get_accessory_sell_price(&self, accessory_id: u16) -> (r: Option<u32>)
        ensures
            r == (match lookup(self.accessories@, accessory_id) {
                Some(p) => Some((p / 3) as u32),
                None => None,
            }),
    {
        match self.accessories.get(&accessory_id) {
            Some(p) => Some(*p / 3),
            None => None,
        }
    }

    /// Buy price of a tool.
    pub fn get_tool_price(&self, tool_id: u8) -> (r: Option<u32>)
        ensures
            r == (match lookup(self.tools@, tool_id) {
                Some(e) => Some(e.price),
                None => None,
            }),
    {
        match self.tools.get(&tool_id) {
            Some(e) => Some(e.price),
            None => None,
        }
    }

    /// Whether an item may be dropped on the ground.
    pub fn is_discardable(&self, item_id: u16) -> (r: bool)
        ensures
            r == self.discardable@.contains(item_id),
    {
        let n = self.discardable.len();
        let mut i: usize = 0;
        while i < n
            invariant
                n == self.discardable@.len(),
                i <= n,
                forall|j: int| 0 <= j < i ==> self.discardable@[j] != item_id,
            decreases n - i,
        {
            if self.discardable[i] == item_id {
                return true;
            }
            i += 1;
        }
        false
    }
}

// =============================================================================
// shops.toml
// =============================================================================

/// One shop slot: category (1 outfit, 2 item, 3 accessory, 4 tool), item id,
/// stock (0 = unlimited) and whether it is on offer.
#[derive(Debug, Clone)]
pub struct ShopSlotConfig {
    pub cat: u8,
    pub item: u16,
    pub stock: u16,
    pub avail: bool,
}

/// The slots of one room's shop.
#[derive(Debug, Clone)]
pub struct RoomShopConfig {
    pub slots: Vec<ShopSlotConfig>,
}

/// `shops.toml` as read.
pub struct ShopsConfigRaw {
    pub room: Vec<(String, RoomShopConfig)>,
}

/// Shops keyed by room id.
#[derive(Debug, Clone)]
pub struct ShopsConfig {
    pub rooms: HashMap<u16, RoomShopConfig>,
}

impl ShopsConfig {
    /// Keys the rooms by numeric id (later entries win, others dropped).
    pub fn from_raw(raw: ShopsConfigRaw) -> (r: Self)
        ensures
            r.rooms@ == u16_keys(numeric_key_map(raw.room@, 65535)),
    {
        ShopsConfig { rooms: key_map_u16(raw.room) }
    }

    /// The shop of a room.
    pub fn get_room(&self, room_id: u16) -> (r: Option<&RoomShopConfig>)
        ensures
            r is Some <==> self.rooms@.contains_key(room_id),
            r matches Some(c) ==> *c == self.rooms@[room_id],
    {
        self.rooms.get(&room_id)
    }
}

// =============================================================================
// collectibles.toml
// =============================================================================

/// An item that turns into another after some minutes.
#[derive(Debug, Clone)]
pub struct EvolvingConfig {
    pub to: u16,
    pub minutes: u32,
    pub variance: u32,
}

/// One spawn point: id, item, position, respawn minutes plus up to
/// `variance` more, and an optional hour window.
#[derive(Debug, Clone)]
pub struct CollectibleSpawnConfig {
    pub id: u8,
    pub item: u16,
    pub x: u16,
    pub y: u16,
    pub respawn: u32,
    pub variance: u32,
    pub start_hour: Option<u8>,
    pub end_hour: Option<u8>,
}

/// The spawn points of a room.
#[derive(Debug, Clone)]
pub struct RoomCollectiblesConfig {
    pub spawns: Vec<CollectibleSpawnConfig>,
}

/// `collectibles.toml` as read.
pub struct CollectiblesConfigRaw {
    pub evolving: Vec<(String, EvolvingConfig)>,
    pub room: Vec<(String, RoomCollectiblesConfig)>,
}

/// Collectibles keyed by item and room id.
#[derive(Debug, Clone)]
pub struct CollectiblesConfig {
    pub evolving: HashMap<u16, EvolvingConfig>,
    pub rooms: HashMap<u16, RoomCollectiblesConfig>,
}

impl CollectiblesConfig {
    /// Keys both tables by numeric id (later entries win, others dropped).
    pub fn from_raw(raw: CollectiblesConfigRaw) -> (r: Self)
        ensures
            r.evolving@ == u16_keys(numeric_key_map(raw.evolving@, 65535)),
            r.rooms@ == u16_keys(numeric_key_map(raw.room@, 65535)),
    {
        CollectiblesConfig { evolving: key_map_u16(raw.evolving), rooms: key_map_u16(raw.room) }
    }

    /// The spawn points of a room.
    pub fn get_room(&self, room_id: u16) -> (r: Option<&RoomCollectiblesConfig>)
        ensures
            r is Some <==> self.rooms@.contains_key(room_id),
            r matches Some(c) ==> *c == self.rooms@[room_id],
    {
        self.rooms.get(&room_id)
    }

    /// How an item evolves, if it does.
    pub fn get_evolution(&self, item_id: u16) -> (r: Option<&EvolvingConfig>)
        ensures
            r is Some <==> self.evolving@.contains_key(item_id),
            r matches Some(c) ==> *c == self.evolving@[item_id],
    {
        self.evolving.get(&item_id)
    }
}

// =============================================================================
// plants.toml
// =============================================================================

/// Bonuses from fairies.
#[derive(Debug, Clone)]
pub struct PlantBonusesConfig {
    pub fairy_chance_bonus: u8,
    pub max_fairies: u8,
}

/// A seed: minutes per growth stage, possible fruits and base fruit chance.
#[derive(Debug, Clone)]
pub struct SeedConfig {
    pub name: String,
    pub stages: [u32; 6],
    pub fruits: [u16; 5],
    pub chance: u8,
}

/// Contents of `plants.toml`; seeds keyed by their table key (keys are
/// distinct, as in the file's table).
#[derive(Debug, Clone)]
pub struct PlantsConfig {
    pub bonuses: PlantBonusesConfig,
    pub seeds: Vec<(String, SeedConfig)>,
}

/// The index of the first seed stored under `key`.
pub open spec fn first_key_index(seeds: Seq<(String, SeedConfig)>, key: Seq<char>) -> Option<int>
    decreases seeds.len(),
{
    if seeds.len() == 0 {
        None
    } else if seeds[0].0@ == key {
        Some(0)
    } else {
        match first_key_index(seeds.drop_first(), key) {
            Some(i) => Some(i + 1),
            None => None,
        }
    }
}

impl PlantsConfig {
    /// The seed configured for seed item `seed_id`: the one stored under
    /// the decimal form of the id (a `[seeds.<id>]` table of the file).
    pub fn get_seed(&self, seed_id: u16) -> (r: Option<&SeedConfig>)
        ensures
            match first_key_index(self.seeds@, decimal(seed_id as nat)) {
                Some(i) => r matches Some(c) && *c == self.seeds@[i].1,
                None => r is None,
            },
    {
        let key = decimal_string(seed_id as u64);
        let ghost k = key@;
        assert(k == decimal(seed_id as nat));
        let n = self.seeds.len();
        assert(self.seeds@.skip(0) =~= self.seeds@);
        let mut i: usize = 0;
        while i < n
            invariant
                n == self.seeds@.len(),
                i <= n,
                k == key@,
                k == decimal(seed_id as nat),
                first_key_index(self.seeds@, k) == (match first_key_index(self.seeds@.skip(i as int), k) {
                    Some(j) => Some(j + i),
                    None => None,
                }),
            decreases n - i,
        {
            proof {
                assert(self.seeds@.skip(i as int).drop_first() =~= self.seeds@.skip(i + 1));
            }
            if str_eq(self.seeds[i].0.as_str(), key.as_str()) {
                assert(self.seeds@.skip(i as int)[0] == self.seeds@[i as int]);
                assert(first_key_index(self.seeds@.skip(i as int), k) == Some(0int));
                return Some(&self.seeds[i].1);
            }
            assert(self.seeds@.skip(i as int)[0] == self.seeds@[i as int]);
            i += 1;
        }
        None
    }
}

// =============================================================================
// upgrader.toml
// =============================================================================

/// A (category, slot) pair an upgrade unlocks when completed.
#[derive(Debug, Clone)]
pub struct UnlockChainEntry {
    pub category: String,
    pub slot: u8,
}

/// One upgrade slot of a town's upgrader.
#[derive(Debug, Clone)]
pub struct UpgradeSlotConfig {
    pub category: String,
    pub slot: u8,
    pub name: String,
    pub need: u32,
    pub unlocked: bool,
    pub option: u8,
    pub other1: i32,
    pub other2: i32,
    pub other3: i32,
    pub other4: i32,
    pub other5: i32,
    pub warp_slot: u8,
    pub warp_category: u8,
    pub unlock_chain: Vec<UnlockChainEntry>,
}

/// One town as read.
pub struct TownUpgraderConfigRaw {
    pub town_id: u16,
    pub warp_center_room: u16,
    pub upgrades: Vec<UpgradeSlotConfig>,
}

/// `upgrader.toml` as read.
pub struct UpgraderConfigRaw {
    pub towns: Vec<TownUpgraderConfigRaw>,
}

/// One town's upgrades. An upgrade is found by (category, slot); when the
/// file lists a pair twice the later entry counts.
#[derive(Debug, Clone)]
pub struct TownUpgraderConfig {
    pub town_id: u16,
    pub warp_center_room: u16,
    pub upgrades: Vec<UpgradeSlotConfig>,
}

/// Upgraders keyed by town id.
#[derive(Debug, Clone)]
pub struct UpgraderConfig {
    pub towns: HashMap<u16, TownUpgraderConfig>,
}

/// Index of the upgrade that counts for (category, slot): the last listed.
pub open spec fn upgrade_index(us: Seq<UpgradeSlotConfig>, category: Seq<char>, slot: u8) -> Option<int>
    decreases us.len(),
{
    if us.len() == 0 {
        None
    } else if us.last().category@ == category && us.last().slot == slot {
        Some(us.len() - 1)
    } else {
        upgrade_index(us.drop_last(), category, slot)
    }
}

/// The upgrade that counts for (category, slot).
pub open spec fn upgrade_for(us: Seq<UpgradeSlotConfig>, category: Seq<char>, slot: u8) -> Option<UpgradeSlotConfig> {
    match upgrade_index(us, category, slot) {
        Some(i) => Some(us[i]),
        None => None,
    }
}

/// The upgrades that count in `category`, in listed order.
pub open spec fn category_upgrades(us: Seq<UpgradeSlotConfig>, category: Seq<char>) -> Seq<UpgradeSlotConfig>
    decreases us.len(),
{
    if us.len() == 0 {
        Seq::empty()
    } else {
        let rest = category_upgrades(us.drop_last(), category);
        let u = us.last();
        if u.category@ == category {
            rest.filter(|v: UpgradeSlotConfig| v.slot != u.slot).push(u)
        } else {
            rest
        }
    }
}

/// No two upgrades share a slot.
pub open spec fn distinct_slots(s: Seq<UpgradeSlotConfig>) -> bool {
    forall|i: int, j: int|
        #![trigger s[i], s[j]]
        0 <= i < s.len() && 0 <= j < s.len() && s[i].slot == s[j].slot ==> i == j
}

proof fn lemma_upgrade_index_found(us: Seq<UpgradeSlotConfig>, category: Seq<char>, slot: u8)
    ensures
        upgrade_index(us, category, slot) matches Some(i) ==> 0 <= i < us.len() && us[i].category@
            == category && us[i].slot == slot,
    decreases us.len(),
{
    if us.len() > 0 {
        lemma_upgrade_index_found(us.drop_last(), category, slot);
    }
}

proof fn lemma_filter_distinct_slots(s: Seq<UpgradeSlotConfig>, p: spec_fn(UpgradeSlotConfig) -> bool)
    requires
        distinct_slots(s),
    ensures
        distinct_slots(s.filter(p)),
    decreases s.len(),
{
    broadcast use vstd::seq_lib::group_filter_ensures;

    reveal(Seq::filter);
    if s.len() > 0 {
        let d = s.drop_last();
        assert(distinct_slots(d)) by {
            assert forall|i: int, j: int|
                #![trigger d[i], d[j]]
                0 <= i < d.len() && 0 <= j < d.len() && d[i].slot == d[j].slot implies i == j by {
                assert(s[i] == d[i] && s[j] == d[j]);
            }
        }
        lemma_filter_distinct_slots(d, p);
        let fd = d.filter(p);
        if p(s.last()) {
            let f = fd.push(s.last());
            assert(s.filter(p) == f);
            assert forall|i: int, j: int|
                #![trigger f[i], f[j]]
                0 <= i < f.len() && 0 <= j < f.len() && f[i].slot == f[j].slot implies i == j by {
                if i < fd.len() && j == fd.len() {
                    assert(fd.contains(fd[i]));
                    d.lemma_filter_contains_rev(p, fd[i]);
                    let k = choose|k: int| 0 <= k < d.len() && d[k] == fd[i];
                    assert(s[k] == fd[i]);
                    assert(s[s.len() - 1] == s.last());
                } else if j < fd.len() && i == fd.len() {
                    assert(fd.contains(fd[j]));
                    d.lemma_filter_contains_rev(p, fd[j]);
                    let k = choose|k: int| 0 <= k < d.len() && d[k] == fd[j];
                    assert(s[k] == fd[j]);
                    assert(s[s.len() - 1] == s.last());
                } else if i < fd.len() && j < fd.len() {
                    assert(f[i] == fd[i] && f[j] == fd[j]);
                }
            }
        }
    }
}

/// What a category lists is each upgrade of the category exactly once: every
/// entry belongs to the category and is the upgrade found for its slot, no
/// slot comes twice, and every slot of the category that has an upgrade is
/// listed with it.
pub proof fn lemma_category_upgrades_exact(us: Seq<UpgradeSlotConfig>, category: Seq<char>)
    ensures
        forall|i: int|
            0 <= i < category_upgrades(us, category).len() ==> (#[trigger] category_upgrades(
                us,
                category,
            )[i]).category@ == category && upgrade_for(
                us,
                category,
                category_upgrades(us, category)[i].slot,
            ) == Some(category_upgrades(us, category)[i]),
        distinct_slots(category_upgrades(us, category)),
        forall|slot: u8|
            #[trigger] upgrade_for(us, category, slot) matches Some(u) ==> category_upgrades(
                us,
                category,
            ).contains(u),
    decreases us.len(),
{
    broadcast use vstd::seq_lib::group_filter_ensures;

    if us.len() > 0 {
        let d = us.drop_last();
        let u = us.last();
        lemma_category_upgrades_exact(d, category);
        let rest = category_upgrades(d, category);
        let cu = category_upgrades(us, category);
        assert forall|slot: u8|
            !(u.category@ == category && u.slot == slot) implies #[trigger] upgrade_for(
            us,
            category,
            slot,
        ) == upgrade_for(d, category, slot) by {
            lemma_upgrade_index_found(d, category, slot);
            if let Some(i) = upgrade_index(d, category, slot) {
                assert(us[i] == d[i]);
            }
        }
        assert(upgrade_index(us, category, u.slot) == (if u.category@ == category {
            Some(us.len() - 1)
        } else {
            upgrade_index(d, category, u.slot)
        }));
        if u.category@ == category {
            let p = |v: UpgradeSlotConfig| v.slot != u.slot;
            let fr = rest.filter(p);
            assert(cu == fr.push(u));
            assert(upgrade_for(us, category, u.slot) == Some(u));
            assert forall|i: int| 0 <= i < cu.len() implies (#[trigger] cu[i]).category@ == category
                && upgrade_for(us, category, cu[i].slot) == Some(cu[i]) by {
                if i < fr.len() {
                    assert(cu[i] == fr[i]);
                    assert(fr.contains(fr[i]));
                    rest.lemma_filter_contains_rev(p, fr[i]);
                    let k = choose|k: int| 0 <= k < rest.len() && rest[k] == fr[i];
                    assert(rest[k].slot != u.slot);
                }
            }
            lemma_filter_distinct_slots(rest, p);
            assert forall|i: int, j: int|
                #![trigger cu[i], cu[j]]
                0 <= i < cu.len() && 0 <= j < cu.len() && cu[i].slot == cu[j].slot implies i == j by {
                if i < fr.len() && j < fr.len() {
                    assert(cu[i] == fr[i] && cu[j] == fr[j]);
                } else if i < fr.len() {
                    assert(cu[i] == fr[i]);
                } else if j < fr.len() {
                    assert(cu[j] == fr[j]);
                }
            }
            assert forall|slot: u8| #[trigger] upgrade_for(us, category, slot) is Some implies cu.contains(
                upgrade_for(us, category, slot)->0,
            ) by {
                if slot == u.slot {
                    assert(cu[cu.len() - 1] == u);
                } else {
                    let v = upgrade_for(d, category, slot)->0;
                    lemma_upgrade_index_found(d, category, slot);
                    assert(rest.contains(v));
                    let k = choose|k: int| 0 <= k < rest.len() && rest[k] == v;
                    assert(p(rest[k]));
                    assert(fr.contains(rest[k]));
                    let m = choose|m: int| 0 <= m < fr.len() && fr[m] == v;
                    assert(cu[m] == v);
                }
            }
        } else {
            assert(cu == rest);
            assert forall|slot: u8| #[trigger] upgrade_for(us, category, slot) is Some implies cu.contains(
                upgrade_for(us, category, slot)->0,
            ) by {
                assert(upgrade_for(us, category, slot) == upgrade_for(d, category, slot));
            }
            assert forall|i: int| 0 <= i < cu.len() implies (#[trigger] cu[i]).category@ == category
                && upgrade_for(us, category, cu[i].slot) == Some(cu[i]) by {
                assert(upgrade_for(us, category, cu[i].slot) == upgrade_for(d, category, cu[i].slot));
            }
        }
    }
}

/// The town map built from the listed towns (a later town with the same id wins).
pub open spec fn town_map(towns: Seq<TownUpgraderConfigRaw>) -> Map<u16, (u16, Seq<UpgradeSlotConfig>)>
    decreases towns.len(),
{
    if towns.len() == 0 {
        Map::empty()
    } else {
        let t = towns.last();
        town_map(towns.drop_last()).insert(t.town_id, (t.warp_center_room, t.upgrades@))
    }
}

impl UpgraderConfig {
    /// Keys the towns by id.
    pub fn from_raw(raw: UpgraderConfigRaw) -> (r: Self)
        ensures
            forall|id: u16| #[trigger] r.towns@.contains_key(id) == town_map(raw.towns@).contains_key(id),
            forall|id: u16| #[trigger] r.towns@.contains_key(id) ==> {
                &&& r.towns@[id].town_id == id
                &&& (r.towns@[id].warp_center_room, r.towns@[id].upgrades@) == town_map(raw.towns@)[id]
            },
    {
        let mut towns_in = raw.towns;
        let ghost all = towns_in@;
        let mut towns: HashMap<u16, TownUpgraderConfig> = HashMap::new();
        // Work from the back: the first town seen for an id is the one that counts.
        while towns_in.len() > 0
            invariant
                forall|id: u16| #[trigger] town_map(all).contains_key(id) == (towns@.contains_key(id)
                    || town_map(towns_in@).contains_key(id)),
                forall|id: u16| #[trigger] towns@.contains_key(id) ==> {
                    &&& towns@[id].town_id == id
                    &&& (towns@[id].warp_center_room, towns@[id].upgrades@) == town_map(all)[id]
                },
                forall|id: u16| #[trigger] town_map(towns_in@).contains_key(id) && !towns@.contains_key(id)
                    ==> town_map(all)[id] == town_map(towns_in@)[id],
            decreases towns_in.len(),
        {
            let ghost before = towns_in@;
            let t = towns_in.pop().unwrap();
            let ghost tm = town_map(towns_in@);
            proof {
                assert(towns_in@ == before.drop_last());
                assert(town_map(before) == tm.insert(t.town_id, (t.warp_center_room, t.upgrades@)));
            }
            let ghost old_towns = towns@;
            if !towns.contains_key(&t.town_id) {
                let id = t.town_id;
                towns.insert(id, TownUpgraderConfig { town_id: id, warp_center_room: t.warp_center_room, upgrades: t.upgrades });
                proof {
                    assert forall|k: u16| #[trigger] towns@.contains_key(k) implies {
                        &&& towns@[k].town_id == k
                        &&& (towns@[k].warp_center_room, towns@[k].upgrades@) == town_map(all)[k]
                    } by {
                        if k != id {
                            assert(old_towns.contains_key(k));
                        } else {
                            assert(town_map(before).contains_key(id));
                            assert(!old_towns.contains_key(id));
                            assert(town_map(all)[id] == town_map(before)[id]);
                        }
                    }
                }
            }
            proof {
                assert forall|k: u16| #[trigger] tm.contains_key(k) && !towns@.contains_key(k)
                    implies town_map(all)[k] == tm[k] by {
                    assert(k != t.town_id);
                    assert(town_map(before).contains_key(k));
                }
            }
        }
        UpgraderConfig { towns }
    }

    /// The upgrader of a town.
    pub fn get_town(&self, town_id: u16) -> (r: Option<&TownUpgraderConfig>)
        ensures
            r is Some <==> self.towns@.contains_key(town_id),
            r matches Some(t) ==> *t == self.towns@[town_id],
    {
        self.towns.get(&town_id)
    }

    /// The upgrade at (category, slot) of a town.
    pub fn get_upgrade(&self, town_id: u16, category: &str, slot: u8) -> (r: Option<&UpgradeSlotConfig>)
        ensures
            !self.towns@.contains_key(town_id) ==> r is None,
            self.towns@.contains_key(town_id) ==> match upgrade_for(self.towns@[town_id].upgrades@, category@, slot) {
                Some(u) => r matches Some(v) && *v == u,
                None => r is None,
            },
    {
        match self.towns.get(&town_id) {
            Some(t) => t.get(category, slot),
            None => None,
        }
    }

    /// All upgrades of a town in a category.
    pub fn get_category_upgrades(&self, town_id: u16, category: &str) -> (r: Vec<&UpgradeSlotConfig>)
        ensures
            !self.towns@.contains_key(town_id) ==> r@.len() == 0,
            self.towns@.contains_key(town_id) ==> r@.map_values(|u: &UpgradeSlotConfig| *u)
                == category_upgrades(self.towns@[town_id].upgrades@, category@),
    {
        match self.towns.get(&town_id) {
            Some(t) => t.category_upgrades(category),
            None => Vec::new(),
        }
    }
}

impl TownUpgraderConfig {
    /// The upgrade at (category, slot).
    pub fn get(&self, category: &str, slot: u8) -> (r: Option<&UpgradeSlotConfig>)
        ensures
            match upgrade_for(self.upgrades@, category@, slot) {
                Some(u) => r matches Some(v) && *v == u,
                None => r is None,
            },
    {
        let mut i = self.upgrades.len();
        assert(self.upgrades@.take(i as int) =~= self.upgrades@);
        while i > 0
            invariant
                i <= self.upgrades@.len(),
                upgrade_index(self.upgrades@, category@, slot) == upgrade_index(self.upgrades@.take(i as int), category@, slot),
            decreases i,
        {
            let u = &self.upgrades[i - 1];
            proof {
                assert(self.upgrades@.take(i as int).drop_last() =~= self.upgrades@.take(i - 1));
                assert(self.upgrades@.take(i as int).last() == self.upgrades@[i - 1]);
            }
            if u.slot == slot && str_eq(u.category.as_str(), category) {
                return Some(u);
            }
            i -= 1;
        }
        None
    }

    /// The upgrades that count in a category, in listed order.
    pub fn category_upgrades(&self, category: &str) -> (r: Vec<&UpgradeSlotConfig>)
        ensures
            r@.map_values(|u: &UpgradeSlotConfig| *u) == category_upgrades(self.upgrades@, category@),
    {
        let mut out: Vec<&UpgradeSlotConfig> = Vec::new();
        let n = self.upgrades.len();
        let mut i: usize = 0;
        while i < n
            invariant
                n == self.upgrades@.len(),
                i <= n,
                out@.map_values(|u: &UpgradeSlotConfig| *u) == category_upgrades(self.upgrades@.take(i as int), category@),
            decreases n - i,
        {
            let u = &self.upgrades[i];
            proof {
                assert(self.upgrades@.take(i + 1).drop_last() =~= self.upgrades@.take(i as int));
                assert(self.upgrades@.take(i + 1).last() == self.upgrades@[i as int]);
            }
            if str_eq(u.category.as_str(), category) {
                let ghost old_view = out@.map_values(|v: &UpgradeSlotConfig| *v);
                let mut kept: Vec<&UpgradeSlotConfig> = Vec::new();
                let m = out.len();
                let mut j: usize = 0;
                while j < m
                    invariant
                        m == out@.len(),
                        j <= m,
                        old_view == out@.map_values(|v: &UpgradeSlotConfig| *v),
                        kept@.map_values(|v: &UpgradeSlotConfig| *v) == old_view.take(j as int).filter(
                            |v: UpgradeSlotConfig| v.slot != u.slot,
                        ),
                    decreases m - j,
                {
                    let v = out[j];
                    proof {
                        assert(old_view.take(j + 1) =~= old_view.take(j as int).push(old_view[j as int]));
                        old_view.take(j as int).lemma_filter_push(old_view[j as int], |w: UpgradeSlotConfig| w.slot != u.slot);
                    }
                    if v.slot != u.slot {
                        kept.push(v);
                    }
                    proof {
                        assert(kept@.map_values(|w: &UpgradeSlotConfig| *w) =~= old_view.take(j + 1).filter(
                            |w: UpgradeSlotConfig| w.slot != u.slot,
                        ));
                    }
                    j += 1;
                }
                proof {
                    assert(old_view.take(m as int) =~= old_view);
                }
                kept.push(u);
                out = kept;
                proof {
                    assert(out@.map_values(|w: &UpgradeSlotConfig| *w) =~= category_upgrades(self.upgrades@.take(i + 1), category@));
                }
            }
            i += 1;
        }
        proof {
            assert(self.upgrades@.take(n as int) =~= self.upgrades@);
        }
        out
    }

    /// The four upgrades shown on a page: slots `page * 4 + 1` to `page * 4 + 4`.
    pub fn get_page_upgrades(&self, category: &str, page: u8) -> (r: Vec<Option<&UpgradeSlotConfig>>)
        requires
            page <= 62,
        ensures
            r@.len() == 4,
            forall|i: int| 0 <= i < 4 ==> match upgrade_for(self.upgrades@, category@, (page * 4 + 1 + i) as u8) {
                Some(u) => #[trigger] r@[i] matches Some(v) && *v == u,
                None => r@[i] is None,
            },
    {
        let start_slot: u8 = page * 4 + 1;
        let mut out: Vec<Option<&UpgradeSlotConfig>> = Vec::new();
        let mut i: u8 = 0;
        while i < 4
            invariant
                start_slot == page * 4 + 1,
                page <= 62,
                i <= 4,
                out@.len() == i,
                forall|k: int| 0 <= k < i ==> match upgrade_for(self.upgrades@, category@, (page * 4 + 1 + k) as u8) {
                    Some(u) => #[trigger] out@[k] matches Some(v) && *v == u,
                    None => out@[k] is None,
                },
            decreases 4 - i,
        {
            out.push(self.get(category, start_slot + i));
            i += 1;
        }
        out
    }

    /// Whether the page after `page` has a first slot.
    pub fn has_more_slots(&self, category: &str, page: u8) -> (r: bool)
        requires
            page <= 62,
        ensures
            r == upgrade_for(self.upgrades@, category@, (page * 4 + 5) as u8) is Some,
    {
        self.get(category, page * 4 + 5).is_some()
    }
}

// =============================================================================
// clans.toml
// =============================================================================

/// An RGB colour.
#[derive(Debug, Clone)]
pub struct ColorConfig {
    pub r: u8,
    pub g: u8,
    pub b: u8,
}

/// What founding a clan costs.
#[derive(Debug, Clone)]
pub struct ClanCreationConfig {
    pub cost: u32,
    pub required_items: Vec<u16>,
}

/// Clan name lengths and member slots.
#[derive(Debug, Clone)]
pub struct ClanLimitsConfig {
    pub min_name_length: usize,
    pub max_name_length: usize,
    pub initial_member_slots: u8,
    pub max_member_slots: u8,
    pub base_unlock_cost: u32,
}

/// A new clan's colours, texts and leader visibility.
#[derive(Debug, Clone)]
pub struct ClanDefaultsConfig {
    pub inner_color: ColorConfig,
    pub outer_color: ColorConfig,
    pub news: String,
    pub info: String,
    pub show_leader: bool,
}

/// Contents of `clans.toml`.
#[derive(Debug, Clone)]
pub struct ClansConfig {
    pub creation: ClanCreationConfig,
    pub limits: ClanLimitsConfig,
    pub defaults: ClanDefaultsConfig,
}

/// Default clan news.
pub fn default_news() -> (r: String)
    ensures
        r@ == "No news"@,
{
    String::from_str("No news")
}

/// Default clan description.
pub fn default_info() -> (r: String)
    ensures
        r@ == "A new clan"@,
{
    String::from_str("A new clan")
}

/// Default of flags that are on unless stated.
pub fn default_true() -> (r: bool)
    ensures
        r,
{
    true
}

// =============================================================================
// The whole configuration
// =============================================================================

/// All configuration files together.
#[derive(Debug, Clone)]
pub struct GameConfig {
    pub server: ServerConfig,
    pub game: GameRulesConfig,
    pub prices: PriceConfig,
    pub shops: ShopsConfig,
    pub collectibles: CollectiblesConfig,
    pub plants: PlantsConfig,
    pub clans: ClansConfig,
    pub upgrader: UpgraderConfig,
}

} // verus!
