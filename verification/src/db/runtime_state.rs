//! Rows of the world state that survives restarts: collectibles, plants,
//! shop stock, ground items, one-time items, race records and the music
//! changer.

use vstd::prelude::*;

verus! {

/// Whether a collectible spawn is available, and when it comes back.
#[derive(Debug, Clone)]
pub struct CollectibleState {
    pub room_id: i64,
    pub spawn_id: i64,
    pub available: i64,
    pub respawn_at: Option<String>,
    pub current_item_id: Option<i64>,
}

/// A planting spot: owner, seed, growth stage and boosts.
#[derive(Debug, Clone)]
pub struct PlantState {
    pub room_id: i64,
    pub spot_id: i64,
    pub owner_id: Option<i64>,
    pub seed_id: Option<i64>,
    pub stage: i64,
    pub fairy_count: i64,
    pub pinwheel_id: Option<i64>,
    pub planted_at: Option<String>,
    pub next_stage_at: Option<String>,
    pub has_fruit: i64,
}

/// The stored stock of a shop slot.
#[derive(Debug, Clone)]
pub struct ShopStock {
    pub room_id: i64,
    pub slot_id: i64,
    pub current_stock: i64,
    pub last_purchase: Option<String>,
    pub last_restock: Option<String>,
}

/// An item lying on the ground of a room; its row id is the instance id
/// players pick it up by.
#[derive(Debug, Clone)]
pub struct GroundItem {
    pub id: i64,
    pub room_id: i64,
    pub item_id: i64,
    pub x: i64,
    pub y: i64,
    pub dropped_by: Option<i64>,
    pub dropped_at: String,
    pub expires_at: Option<String>,
}

/// What a one-time pickup gives: a category and an item id.
#[derive(Debug, Clone, Copy, PartialEq, Eq, Structural)]
pub struct OneTimeItem {
    pub category: u8,
    pub item_id: u16,
}

/// One entry of a race's best times.
#[derive(Debug, Clone, Default)]
pub struct RaceRecord {
    pub name: String,
    pub time_ms: u32,
}

/// The best single and clan times of a race, best first.
#[derive(Debug, Clone, Default)]
pub struct RaceRecords {
    pub single_records: Vec<RaceRecord>,
    pub clan_records: Vec<RaceRecord>,
}

/// The rank a race time earns among the ten best: `None` when it is not
/// faster than the tenth (any time counts while there is no tenth), else one
/// more than the number of strictly faster records.
pub open spec fn race_rank(tenth_time: Option<u32>, time_ms: u32, faster: i64) -> Option<u8> {
    let tenth = match tenth_time {
        Some(t) => t,
        None => u32::MAX,
    };
    if time_ms >= tenth {
        None
    } else {
        Some((faster + 1) as u8)
    }
}

/// Decides the rank of a submitted race time from the current tenth-best
/// time and the count of faster records.
pub fn new_race_rank(tenth_time: Option<u32>, time_ms: u32, faster: i64) -> (r: Option<u8>)
    requires
        0 <= faster <= 10,
    ensures
        r == race_rank(tenth_time, time_ms, faster),
{
    let tenth = match tenth_time {
        Some(t) => t,
        None => u32::MAX,
    };
    if time_ms >= tenth {
        None
    } else {
        Some((faster + 1) as u8)
    }
}

/// Most entries a race's single-player board keeps.
pub const RACE_BOARD_SIZE: usize = 10;

/// A board as the database keeps it: at most ten entries, best time first.
pub open spec fn ordered_board(b: Seq<RaceRecord>) -> bool {
    &&& b.len() <= RACE_BOARD_SIZE
    &&& forall|i: int, j: int| 0 <= i <= j < b.len() ==> #[trigger] b[i].time_ms <= #[trigger] b[j].time_ms
}

/// The number of entries strictly faster than `time_ms`.
pub open spec fn faster_count(b: Seq<RaceRecord>, time_ms: u32) -> nat
    decreases b.len(),
{
    if b.len() == 0 {
        0
    } else {
        faster_count(b.drop_last(), time_ms) + if b.last().time_ms < time_ms {
            1nat
        } else {
            0nat
        }
    }
}

/// The first ten entries.
pub open spec fn keep_ten(b: Seq<RaceRecord>) -> Seq<RaceRecord> {
    if b.len() > RACE_BOARD_SIZE {
        b.take(RACE_BOARD_SIZE as int)
    } else {
        b
    }
}

/// The time of the tenth entry, when there is one.
pub open spec fn tenth_time_of(b: Seq<RaceRecord>) -> Option<u32> {
    if b.len() >= RACE_BOARD_SIZE {
        Some(b[RACE_BOARD_SIZE - 1].time_ms)
    } else {
        None
    }
}

/// In an ordered board the faster entries come first.
proof fn lemma_faster_prefix(b: Seq<RaceRecord>, time_ms: u32)
    requires
        forall|i: int, j: int| 0 <= i <= j < b.len() ==> #[trigger] b[i].time_ms <= #[trigger] b[j].time_ms,
    ensures
        faster_count(b, time_ms) <= b.len(),
        forall|i: int| 0 <= i < faster_count(b, time_ms) ==> #[trigger] b[i].time_ms < time_ms,
        forall|i: int| faster_count(b, time_ms) <= i < b.len() ==> #[trigger] b[i].time_ms >= time_ms,
    decreases b.len(),
{
    if b.len() > 0 {
        let d = b.drop_last();
        assert forall|i: int| 0 <= i < d.len() implies #[trigger] d[i] == b[i] by {}
        assert forall|i: int, j: int| 0 <= i <= j < d.len() implies #[trigger] d[i].time_ms
            <= #[trigger] d[j].time_ms by {
            assert(d[i] == b[i] && d[j] == b[j]);
        }
        lemma_faster_prefix(d, time_ms);
        let fd = faster_count(d, time_ms);
        if b.last().time_ms < time_ms {
            assert forall|i: int| 0 <= i < b.len() implies #[trigger] b[i].time_ms < time_ms by {
                assert(b[i].time_ms <= b[b.len() - 1].time_ms);
            }
            assert forall|i: int| 0 <= i < d.len() implies #[trigger] d[i].time_ms < time_ms by {
                assert(d[i] == b[i]);
            }
            if fd < d.len() {
                assert(d[fd as int].time_ms >= time_ms);
            }
            assert(faster_count(b, time_ms) == b.len());
        } else {
            assert(faster_count(b, time_ms) == fd);
            assert forall|i: int| 0 <= i < fd implies #[trigger] b[i].time_ms < time_ms by {
                assert(d[i] == b[i]);
            }
            assert forall|i: int| fd <= i < b.len() implies #[trigger] b[i].time_ms >= time_ms by {
                if i < d.len() {
                    assert(d[i] == b[i]);
                } else {
                    assert(b[i] == b.last());
                }
            }
        }
    }
}

/// Entering a time at its place in an ordered board and keeping ten
/// entries leaves the board ordered.
proof fn lemma_insert_ordered(b: Seq<RaceRecord>, pos: int, rec: RaceRecord)
    requires
        ordered_board(b),
        0 <= pos <= b.len(),
        forall|i: int| 0 <= i < pos ==> #[trigger] b[i].time_ms < rec.time_ms,
        forall|i: int| pos <= i < b.len() ==> #[trigger] b[i].time_ms >= rec.time_ms,
    ensures
        ordered_board(keep_ten(b.insert(pos, rec))),
{
    let ins = b.insert(pos, rec);
    let t = keep_ten(ins);
    assert forall|x: int| 0 <= x < ins.len() implies #[trigger] ins[x] == (if x < pos {
        b[x]
    } else if x == pos {
        rec
    } else {
        b[x - 1]
    }) by {}
    assert forall|x: int, y: int| 0 <= x <= y < t.len() implies #[trigger] t[x].time_ms
        <= #[trigger] t[y].time_ms by {
        assert(t[x] == ins[x] && t[y] == ins[y]);
        if x < pos && y < pos {
            assert(b[x].time_ms <= b[y].time_ms);
        } else if x < pos && y > pos {
            assert(b[x].time_ms <= b[y - 1].time_ms);
        } else if x > pos {
            assert(b[x - 1].time_ms <= b[y - 1].time_ms);
        }
    }
}

/// Enters a time on a race's board: it earns the rank `race_rank` gives
/// (one more than the entries faster than it, while it beats the tenth),
/// the entries from that rank on move one place down and only the first ten
/// stay. A time that earns no rank leaves the board as it was. The board
/// stays ordered.
pub fn submit_race_time(board: &mut Vec<RaceRecord>, name: String, time_ms: u32) -> (r: Option<u8>)
    requires
        ordered_board(old(board)@),
    ensures
        r == race_rank(tenth_time_of(old(board)@), time_ms, faster_count(old(board)@, time_ms) as i64),
        r is None ==> final(board)@ == old(board)@,
        r matches Some(k) ==> 1 <= k <= RACE_BOARD_SIZE && final(board)@ == keep_ten(
            old(board)@.insert(k - 1, RaceRecord { name, time_ms }),
        ),
        ordered_board(final(board)@),
{
    let ghost b = board@;
    proof {
        lemma_faster_prefix(b, time_ms);
    }
    let n = board.len();
    let tenth = if n >= RACE_BOARD_SIZE { Some(board[RACE_BOARD_SIZE - 1].time_ms) } else { None };
    let mut faster: usize = 0;
    let mut i: usize = 0;
    while i < n
        invariant
            n == b.len(),
            b == board@,
            i <= n,
            faster == faster_count(b.take(i as int), time_ms),
            faster <= i,
        decreases n - i,
    {
        proof {
            assert(b.take(i + 1).drop_last() =~= b.take(i as int));
        }
        if board[i].time_ms < time_ms {
            faster += 1;
        }
        i += 1;
    }
    proof {
        assert(b.take(n as int) =~= b);
    }
    let r = new_race_rank(tenth, time_ms, faster as i64);
    if let Some(k) = r {
        let rec = RaceRecord { name, time_ms };
        let ghost newrec = rec;
        let pos = (k - 1) as usize;
        board.insert(pos, rec);
        if board.len() > RACE_BOARD_SIZE {
            board.truncate(RACE_BOARD_SIZE);
        }
        proof {
            assert(board@ =~= keep_ten(b.insert(pos as int, newrec)));
            lemma_insert_ordered(b, pos as int, newrec);
        }
    }
    r
}

/// The music of a room with a music changer, its unlocked tracks and the
/// time until which it cannot be changed (RFC 3339).
#[derive(Debug, Clone)]
pub struct MusicChangerState {
    pub current_day_music: u8,
    pub current_night_music: u8,
    pub day_track_1: u8,
    pub day_track_2: u8,
    pub day_track_3: u8,
    pub day_track_3_unlocked: bool,
    pub night_track_1: u8,
    pub night_track_2: u8,
    pub night_track_3: u8,
    pub night_track_3_unlocked: bool,
    pub cooldown_until: Option<String>,
}

/// An instant as seconds since the Unix epoch and nanoseconds.
pub type Instant = (i64, u32);

/// Whether instant `a` is later than instant `b`.
pub open spec fn later(a: Instant, b: Instant) -> bool {
    a.0 > b.0 || (a.0 == b.0 && a.1 > b.1)
}

/// What `chrono::DateTime::parse_from_rfc3339` gives for a text, as an
/// instant; `None` when the text is not RFC 3339.
pub uninterp spec fn rfc3339_instant(text: Seq<char>) -> Option<Instant>;

/// Parses an RFC 3339 timestamp with `chrono::DateTime::parse_from_rfc3339`
/// and reads the instant it names (`timestamp`, `timestamp_subsec_nanos`).
/// The result depends on the text alone.
#[verifier::external_body]
pub(crate) fn parse_rfc3339(text: &str) -> (r: Option<Instant>)
    ensures
        r == rfc3339_instant(text@),
{
    chrono::DateTime::parse_from_rfc3339(text).ok().map(|dt| (dt.timestamp(), dt.timestamp_subsec_nanos()))
}

/// The current time from `chrono::Utc::now`, as an instant. It depends on
/// the clock, so nothing is said of it.
#[verifier::external_body]
pub(crate) fn utc_now() -> (r: Instant) {
    let now = chrono::Utc::now();
    (now.timestamp(), now.timestamp_subsec_nanos())
}

/// Whether a cooldown end, as parsed, lies after `now`; an unreadable or
/// missing end means no cooldown.
pub open spec fn cooldown_active_at(until: Option<Instant>, now: Instant) -> bool {
    match until {
        Some(t) => later(t, now),
        None => false,
    }
}

/// Compares a parsed cooldown end with the current time.
pub fn cooldown_active(until: Option<Instant>, now: Instant) -> (r: bool)
    ensures
        r == cooldown_active_at(until, now),
{
    match until {
        Some(t) => t.0 > now.0 || (t.0 == now.0 && t.1 > now.1),
        None => false,
    }
}

impl MusicChangerState {
    /// Whether the music cannot be changed yet: the cooldown end is a valid
    /// timestamp later than now. Without a readable end there is no cooldown.
    pub fn is_on_cooldown(&self) -> (r: bool)
        ensures
            r ==> (self.cooldown_until matches Some(u) && rfc3339_instant(u@) is Some),
            (self.cooldown_until matches Some(u) && rfc3339_instant(u@) is Some)
                ==> exists|now: Instant| r == cooldown_active_at(rfc3339_instant(self.cooldown_until->0@), now),
    {
        match &self.cooldown_until {
            Some(until) => {
                let parsed = parse_rfc3339(until.as_str());
                let now = utc_now();
                cooldown_active(parsed, now)
            },
            None => false,
        }
    }
}

} // verus!
