//! Clan rows.

use vstd::prelude::*;

verus! {

/// A clan: name, leader, colours, level, points, member slots and texts.
#[derive(Debug, Clone)]
pub struct Clan {
    pub id: i64,
    pub name: String,
    pub leader_id: i64,
    pub color_inner: i64,
    pub color_outer: i64,
    pub level: i64,
    pub points: i64,
    pub max_members: i64,
    pub description: Option<String>,
    pub news: Option<String>,
    pub show_name: i64,
    pub has_base: i64,
    pub created_at: String,
}

/// A member of a clan, by character.
#[derive(Debug, Clone)]
pub struct ClanMember {
    pub character_id: i64,
    pub username: String,
}

} // verus!
