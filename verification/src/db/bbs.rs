//! Bulletin board rows.

use vstd::prelude::*;

verus! {

/// A bulletin board post.
#[derive(Debug, Clone)]
pub struct BbsPost {
    pub id: i64,
    pub character_id: i64,
    pub category_id: i64,
    pub title: String,
    pub content: String,
    pub is_reported: i64,
    pub created_at: String,
}

/// A post as listed, without its content.
#[derive(Debug, Clone)]
pub struct BbsPostSummary {
    pub id: i64,
    pub title: String,
    pub created_at: String,
}

} // verus!
