//! The commands of the moderator tool's interactive mode.
//!
//! A line is split into words at whitespace (as `str::split_whitespace`
//! does) and the words are matched against the known command shapes.

use vstd::prelude::*;

use crate::text::{parse_i64_str, parse_signed, parse_u16_str, parse_unsigned, str_eq};

verus! {

broadcast use vstd::string::group_string_axioms;

/// Whether `c` is whitespace in Unicode's sense (`char::is_whitespace`).
pub open spec fn is_ws(c: char) -> bool {
    ('\u{9}' <= c <= '\u{d}') || c == ' ' || c == '\u{85}' || c == '\u{a0}' || c == '\u{1680}'
        || ('\u{2000}' <= c <= '\u{200a}') || c == '\u{2028}' || c == '\u{2029}' || c == '\u{202f}'
        || c == '\u{205f}' || c == '\u{3000}'
}

fn is_whitespace_char(c: char) -> (r: bool)
    ensures
        r == is_ws(c),
{
    ('\u{9}' <= c && c <= '\u{d}') || c == ' ' || c == '\u{85}' || c == '\u{a0}' || c == '\u{1680}'
        || ('\u{2000}' <= c && c <= '\u{200a}') || c == '\u{2028}' || c == '\u{2029}' || c == '\u{202f}'
        || c == '\u{205f}' || c == '\u{3000}'
}

/// The word spans (start, end) of the first `n` characters of `s`: maximal
/// runs of non-whitespace, in order.
pub open spec fn word_spans(s: Seq<char>, n: nat) -> Seq<(int, int)>
    decreases n,
{
    if n == 0 {
        Seq::empty()
    } else {
        let t = word_spans(s, (n - 1) as nat);
        if is_ws(s[n - 1]) {
            t
        } else if n >= 2 && !is_ws(s[n - 2]) {
            t.update(t.len() - 1, (t.last().0, n as int))
        } else {
            t.push((n - 1, n as int))
        }
    }
}

/// The words of a line.
pub open spec fn words(s: Seq<char>) -> Seq<Seq<char>> {
    word_spans(s, s.len()).map_values(|p: (int, int)| s.subrange(p.0, p.1))
}

/// Splits a line into its words.
pub fn split_words(line: &str) -> (r: Vec<String>)
    ensures
        r@.map_values(|w: String| w@) == words(line@),
{
    let n = line.unicode_len();
    let ghost s = line@;
    let mut spans: Vec<(usize, usize)> = Vec::new();
    let mut cur: Option<usize> = None;
    let mut i: usize = 0;
    while i < n
        invariant
            n == s.len(),
            s == line@,
            i <= n,
            forall|k: int| #![trigger spans@[k]] 0 <= k < spans@.len() ==> spans@[k].0 < spans@[k].1 && spans@[k].1 <= i,
            match cur {
                Some(st) => st < i && !is_ws(s[i - 1]) && word_spans(s, i as nat)
                    == spans@.map_values(|p: (usize, usize)| (p.0 as int, p.1 as int)).push((st as int, i as int)),
                None => (i == 0 || is_ws(s[i - 1])) && word_spans(s, i as nat) == spans@.map_values(
                    |p: (usize, usize)| (p.0 as int, p.1 as int),
                ),
            },
        decreases n - i,
    {
        let c = line.get_char(i);
        let ghost old_spans = spans@;
        let ghost old_i = i;
        if is_whitespace_char(c) {
            match cur {
                Some(st) => {
                    spans.push((st, i));
                    cur = None;
                    proof {
                        assert forall|k: int| #![trigger spans@[k]] 0 <= k < spans@.len() implies spans@[k].0 < spans@[k].1 && spans@[k].1 <= i + 1 by {
                            if k < old_spans.len() {
                                assert(spans@[k] == old_spans[k]);
                            } else {
                                assert(spans@[k] == (st, i));
                            }
                        }
                        assert(spans@.map_values(|p: (usize, usize)| (p.0 as int, p.1 as int)) =~= old_spans.map_values(
                            |p: (usize, usize)| (p.0 as int, p.1 as int),
                        ).push((st as int, i as int)));
                    }
                },
                None => {},
            }
        } else {
            match cur {
                Some(st) => {
                    proof {
                        let t = word_spans(s, i as nat);
                        assert(t.update(t.len() - 1, (t.last().0, i + 1)) =~= spans@.map_values(
                            |p: (usize, usize)| (p.0 as int, p.1 as int),
                        ).push((st as int, i + 1)));
                    }
                },
                None => {
                    cur = Some(i);
                    proof {
                        assert(i + 1 < 2 || is_ws(s[i - 1]));
                    }
                },
            }
        }
        i += 1;
    }
    match cur {
        Some(st) => {
            let ghost old_spans = spans@;
            spans.push((st, n));
            proof {
                assert(spans@.map_values(|p: (usize, usize)| (p.0 as int, p.1 as int)) =~= old_spans.map_values(
                    |p: (usize, usize)| (p.0 as int, p.1 as int),
                ).push((st as int, n as int)));
            }
        },
        None => {},
    }
    let ghost ints = spans@.map_values(|p: (usize, usize)| (p.0 as int, p.1 as int));
    assert(ints == word_spans(s, n as nat));
    let mut out: Vec<String> = Vec::new();
    let mut k: usize = 0;
    while k < spans.len()
        invariant
            k <= spans@.len(),
            s == line@,
            n == s.len(),
            ints == spans@.map_values(|p: (usize, usize)| (p.0 as int, p.1 as int)),
            forall|m: int| #![trigger spans@[m]] 0 <= m < spans@.len() ==> spans@[m].0 < spans@[m].1 && spans@[m].1 <= n,
            out@.map_values(|w: String| w@) == ints.take(k as int).map_values(|p: (int, int)| s.subrange(p.0, p.1)),
        decreases spans@.len() - k,
    {
        let (a, b) = spans[k];
        let sub = line.substring_char(a, b);
        let w = sub.to_string();
        assert(w@ == s.subrange(a as int, b as int));
        assert(ints[k as int] == (a as int, b as int));
        let ghost before = out@;
        out.push(w);
        proof {
            let f = |w: String| w@;
            let g = |p: (int, int)| s.subrange(p.0, p.1);
            assert(before.map_values(f) == ints.take(k as int).map_values(g));
            assert(ints.len() == spans@.len());
            assert(ints.take(k as int).map_values(g).len() == k);
            assert(before.map_values(f).len() == before.len());
            assert(before.len() == k);
            assert(out@.len() == k + 1);
            assert forall|j: int| 0 <= j < k implies #[trigger] out@.map_values(f)[j] == ints.take(k + 1).map_values(g)[j] by {
                assert(out@[j] == before[j]);
                assert(before.map_values(f)[j] == ints.take(k as int).map_values(g)[j]);
            }
            assert(out@.map_values(f)[k as int] == ints.take(k + 1).map_values(g)[k as int]);
            assert(out@.map_values(f) =~= ints.take(k + 1).map_values(g));
        }
        k += 1;
    }
    proof {
        assert(ints.take(k as int) =~= ints);
    }
    out
}

/// A command of the interactive mode.
#[derive(Debug, Clone, PartialEq, Eq)]
pub enum InteractiveCommand {
    /// An empty line: nothing happens.
    Empty,
    /// `quit`, `exit` or `q`.
    Quit,
    /// `help` or `?`.
    Help,
    /// `stats`.
    Stats,
    /// `players`.
    Players,
    /// `player <name>`.
    Player { username: String },
    /// `kick <name>`.
    Kick { username: String },
    /// `give <name> <points>`.
    Give { username: String, amount: i64 },
    /// `give` with an amount that is not an `i64`.
    InvalidAmount,
    /// `tp <name> <room> [<x> <y>]` (position 100, 100 when not given).
    Teleport { username: String, room: u16, x: u16, y: u16 },
    /// `tp <name> <room>` with a room that is not a `u16`.
    InvalidRoom,
    /// `tp <name> <room> <x> <y>` with a number that is not a `u16`.
    InvalidTeleport,
    /// `bans`.
    Bans,
    /// `unban <id>`.
    Unban { id: i64 },
    /// `unban` with an id that is not an `i64`.
    InvalidBanId,
    /// `clans`.
    Clans,
    /// Anything else.
    Unknown,
}

/// The command that the words `w` make.
pub open spec fn command_of(r: InteractiveCommand, w: Seq<Seq<char>>) -> bool {
    if w.len() == 0 {
        r == InteractiveCommand::Empty
    } else if w.len() == 1 && (w[0] == "quit"@ || w[0] == "exit"@ || w[0] == "q"@) {
        r == InteractiveCommand::Quit
    } else if w.len() == 1 && (w[0] == "help"@ || w[0] == "?"@) {
        r == InteractiveCommand::Help
    } else if w.len() == 1 && w[0] == "stats"@ {
        r == InteractiveCommand::Stats
    } else if w.len() == 1 && w[0] == "players"@ {
        r == InteractiveCommand::Players
    } else if w.len() == 2 && w[0] == "player"@ {
        r matches InteractiveCommand::Player { username } && username@ == w[1]
    } else if w.len() == 2 && w[0] == "kick"@ {
        r matches InteractiveCommand::Kick { username } && username@ == w[1]
    } else if w.len() == 3 && w[0] == "give"@ {
        match parse_signed(w[2]) {
            Some(v) => r matches InteractiveCommand::Give { username, amount } && username@ == w[1] && amount == v,
            None => r == InteractiveCommand::InvalidAmount,
        }
    } else if w.len() == 3 && w[0] == "tp"@ {
        match parse_unsigned(w[2], 65535) {
            Some(room) => r matches InteractiveCommand::Teleport { username, room: rm, x, y } && username@ == w[1]
                && rm == room && x == 100 && y == 100,
            None => r == InteractiveCommand::InvalidRoom,
        }
    } else if w.len() == 5 && w[0] == "tp"@ {
        match (parse_unsigned(w[2], 65535), parse_unsigned(w[3], 65535), parse_unsigned(w[4], 65535)) {
            (Some(room), Some(px), Some(py)) => r matches InteractiveCommand::Teleport { username, room: rm, x, y }
                && username@ == w[1] && rm == room && x == px && y == py,
            _ => r == InteractiveCommand::InvalidTeleport,
        }
    } else if w.len() == 1 && w[0] == "bans"@ {
        r == InteractiveCommand::Bans
    } else if w.len() == 2 && w[0] == "unban"@ {
        match parse_signed(w[1]) {
            Some(v) => r == InteractiveCommand::Unban { id: v as i64 },
            None => r == InteractiveCommand::InvalidBanId,
        }
    } else if w.len() == 1 && w[0] == "clans"@ {
        r == InteractiveCommand::Clans
    } else {
        r == InteractiveCommand::Unknown
    }
}

/// Reads a line of the interactive mode as a command.
pub fn parse_interactive_command(line: &str) -> (r: InteractiveCommand)
    ensures
        command_of(r, words(line@)),
{
    let parts = split_words(line);
    let ghost w = words(line@);
    proof {
        assert(parts@.len() == w.len());
        assert forall|i: int| 0 <= i < parts@.len() implies #[trigger] parts@[i]@ == w[i] by {
            assert(parts@.map_values(|s: String| s@)[i] == w[i]);
        }
        reveal_strlit("quit");
        reveal_strlit("exit");
        reveal_strlit("q");
        reveal_strlit("help");
        reveal_strlit("?");
        reveal_strlit("stats");
        reveal_strlit("players");
        reveal_strlit("player");
        reveal_strlit("kick");
        reveal_strlit("give");
        reveal_strlit("tp");
        reveal_strlit("bans");
        reveal_strlit("unban");
        reveal_strlit("clans");
    }
    let n = parts.len();
    if n == 0 {
        return InteractiveCommand::Empty;
    }
    let head = parts[0].as_str();
    if n == 1 && (str_eq(head, "quit") || str_eq(head, "exit") || str_eq(head, "q")) {
        return InteractiveCommand::Quit;
    }
    if n == 1 && (str_eq(head, "help") || str_eq(head, "?")) {
        return InteractiveCommand::Help;
    }
    if n == 1 && str_eq(head, "stats") {
        return InteractiveCommand::Stats;
    }
    if n == 1 && str_eq(head, "players") {
        return InteractiveCommand::Players;
    }
    if n == 2 && str_eq(head, "player") {
        return InteractiveCommand::Player { username: parts[1].as_str().to_string() };
    }
    if n == 2 && str_eq(head, "kick") {
        return InteractiveCommand::Kick { username: parts[1].as_str().to_string() };
    }
    if n == 3 && str_eq(head, "give") {
        return match parse_i64_str(parts[2].as_str()) {
            Some(v) => InteractiveCommand::Give { username: parts[1].as_str().to_string(), amount: v },
            None => InteractiveCommand::InvalidAmount,
        };
    }
    if n == 3 && str_eq(head, "tp") {
        return match parse_u16_str(parts[2].as_str()) {
            Some(room) => InteractiveCommand::Teleport { username: parts[1].as_str().to_string(), room, x: 100, y: 100 },
            None => InteractiveCommand::InvalidRoom,
        };
    }
    if n == 5 && str_eq(head, "tp") {
        let room = parse_u16_str(parts[2].as_str());
        let x = parse_u16_str(parts[3].as_str());
        let y = parse_u16_str(parts[4].as_str());
        return match (room, x, y) {
            (Some(room), Some(x), Some(y)) => InteractiveCommand::Teleport {
                username: parts[1].as_str().to_string(),
                room,
                x,
                y,
            },
            _ => InteractiveCommand::InvalidTeleport,
        };
    }
    if n == 1 && str_eq(head, "bans") {
        return InteractiveCommand::Bans;
    }
    if n == 2 && str_eq(head, "unban") {
        return match parse_i64_str(parts[1].as_str()) {
            Some(v) => InteractiveCommand::Unban { id: v },
            None => InteractiveCommand::InvalidBanId,
        };
    }
    if n == 1 && str_eq(head, "clans") {
        return InteractiveCommand::Clans;
    }
    InteractiveCommand::Unknown
}

} // verus!
