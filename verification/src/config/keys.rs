//! Turning tables keyed by an id's text into maps keyed by the number.

use std::collections::HashMap;

use vstd::prelude::*;

use crate::text::{parse_unsigned, parse_unsigned_str};

verus! {

broadcast use vstd::std_specs::hash::group_hash_axioms;

/// The map from parsed keys to values; entries whose key does not parse
/// (or exceeds `max`) are dropped, and a later entry for a key wins.
pub open spec fn numeric_key_map<V>(entries: Seq<(String, V)>, max: nat) -> Map<nat, V>
    decreases entries.len(),
{
    if entries.len() == 0 {
        Map::empty()
    } else {
        let m = numeric_key_map(entries.drop_last(), max);
        match parse_unsigned(entries.last().0@, max) {
            Some(id) => m.insert(id, entries.last().1),
            None => m,
        }
    }
}

/// A map with natural-number keys seen with `u16` keys.
pub open spec fn u16_keys<V>(m: Map<nat, V>) -> Map<u16, V> {
    Map::new(|k: u16| m.contains_key(k as nat), |k: u16| m[k as nat])
}

/// A map with natural-number keys seen with `u8` keys.
pub open spec fn u8_keys<V>(m: Map<nat, V>) -> Map<u8, V> {
    Map::new(|k: u8| m.contains_key(k as nat), |k: u8| m[k as nat])
}

proof fn lemma_key_map_bounded<V>(entries: Seq<(String, V)>, max: nat)
    ensures
        forall|k: nat| #[trigger] numeric_key_map(entries, max).contains_key(k) ==> k <= max,
    decreases entries.len(),
{
    if entries.len() > 0 {
        lemma_key_map_bounded(entries.drop_last(), max);
        let m = numeric_key_map(entries.drop_last(), max);
        match parse_unsigned(entries.last().0@, max) {
            Some(id) => {
                assert(id <= max);
                assert forall|k: nat| #[trigger] m.insert(id, entries.last().1).contains_key(k) implies k <= max by {
                    if k != id {
                        assert(m.contains_key(k));
                    }
                }
            },
            None => {},
        }
    }
}

/// Builds a map keyed by `u16` ids from a table keyed by the ids' text.
pub fn key_map_u16<V>(entries: Vec<(String, V)>) -> (r: HashMap<u16, V>)
    ensures
        r@ == u16_keys(numeric_key_map(entries@, 65535)),
{
    let ghost all = entries@;
    let mut rest = entries;
    let mut out: HashMap<u16, V> = HashMap::new();
    // Work from the back: the first entry seen for an id is the one that counts.
    while rest.len() > 0
        invariant
            u16_keys(numeric_key_map(all, 65535)) == u16_keys(numeric_key_map(rest@, 65535)).union_prefer_right(out@),
        decreases rest.len(),
    {
        let ghost before = rest@;
        let (k, v) = rest.pop().unwrap();
        proof {
            assert(rest@ == before.drop_last());
            lemma_key_map_bounded(rest@, 65535);
        }
        match parse_unsigned_str(k.as_str(), 65535) {
            Some(id32) => {
                let id = id32 as u16;
                if !out.contains_key(&id) {
                    out.insert(id, v);
                }
                proof {
                    assert(u16_keys(numeric_key_map(before, 65535)) =~= u16_keys(numeric_key_map(rest@, 65535)).insert(id, v));
                    assert(u16_keys(numeric_key_map(all, 65535)) =~= u16_keys(numeric_key_map(rest@, 65535)).union_prefer_right(out@));
                }
            },
            None => {
                proof {
                    assert(u16_keys(numeric_key_map(before, 65535)) =~= u16_keys(numeric_key_map(rest@, 65535)));
                }
            },
        }
    }
    proof {
        assert(u16_keys(numeric_key_map(rest@, 65535)) =~= Map::<u16, V>::empty());
        assert(u16_keys(numeric_key_map(all, 65535)) =~= out@);
    }
    out
}

/// Builds a map keyed by `u8` ids from a table keyed by the ids' text.
pub fn key_map_u8<V>(entries: Vec<(String, V)>) -> (r: HashMap<u8, V>)
    ensures
        r@ == u8_keys(numeric_key_map(entries@, 255)),
{
    let ghost all = entries@;
    let mut rest = entries;
    let mut out: HashMap<u8, V> = HashMap::new();
    while rest.len() > 0
        invariant
            u8_keys(numeric_key_map(all, 255)) == u8_keys(numeric_key_map(rest@, 255)).union_prefer_right(out@),
        decreases rest.len(),
    {
        let ghost before = rest@;
        let (k, v) = rest.pop().unwrap();
        proof {
            assert(rest@ == before.drop_last());
            lemma_key_map_bounded(rest@, 255);
        }
        match parse_unsigned_str(k.as_str(), 255) {
            Some(id32) => {
                let id = id32 as u8;
                if !out.contains_key(&id) {
                    out.insert(id, v);
                }
                proof {
                    assert(u8_keys(numeric_key_map(before, 255)) =~= u8_keys(numeric_key_map(rest@, 255)).insert(id, v));
                    assert(u8_keys(numeric_key_map(all, 255)) =~= u8_keys(numeric_key_map(rest@, 255)).union_prefer_right(out@));
                }
            },
            None => {
                proof {
                    assert(u8_keys(numeric_key_map(before, 255)) =~= u8_keys(numeric_key_map(rest@, 255)));
                }
            },
        }
    }
    proof {
        assert(u8_keys(numeric_key_map(rest@, 255)) =~= Map::<u8, V>::empty());
        assert(u8_keys(numeric_key_map(all, 255)) =~= out@);
    }
    out
}

} // verus!
