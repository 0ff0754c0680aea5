//! The bulletin boards of rooms: page counts, listings, reports and posting
//! with a cooldown.

use vstd::prelude::*;

use crate::protocol::{le16, MessageWriter};

verus! {

/// Page count of a board category.
pub const MSG_BBS_REQUEST_MAX_PAGES: u16 = 136;

/// A page of posts.
pub const MSG_BBS_REQUEST_MESSAGES: u16 = 137;

/// Reporting a post.
pub const MSG_BBS_REPORT_MESSAGE: u16 = 139;

/// Whether the player may post.
pub const MSG_BBS_REQUEST_POST: u16 = 140;

/// A new post.
pub const MSG_BBS_POST: u16 = 141;

/// Seconds between two posts of a character.
pub const BBS_POST_COOLDOWN_SECONDS: i64 = 60;

/// The page count of a category, truncated to 16 bits.
pub open spec fn bbs_max_pages_message(page_count: i64) -> Seq<u8> {
    le16(MSG_BBS_REQUEST_MAX_PAGES) + le16(page_count as u16)
}

/// Builds the page count answer.
pub fn build_bbs_max_pages(page_count: i64) -> (r: Vec<u8>)
    ensures
        r@ == bbs_max_pages_message(page_count),
{
    let mut w = MessageWriter::new();
    w.write_u16(MSG_BBS_REQUEST_MAX_PAGES);
    w.write_u16(page_count as u16);
    let r = w.into_bytes();
    assert(r@ =~= bbs_max_pages_message(page_count));
    r
}

/// Posts shown on one page of a category.
pub const BBS_POSTS_PER_PAGE: i64 = 4;

/// The number of pages a category's posts fill: four posts a page, rounded
/// up (truncating division, as for a count).
pub fn bbs_page_count(total_posts: i64) -> (r: i64)
    requires
        total_posts <= i64::MAX - 3,
    ensures
        total_posts + 3 >= 0 ==> r == (total_posts + 3) / 4,
        total_posts + 3 < 0 ==> r == -((-(total_posts + 3)) / 4),
{
    (total_posts + 3) / 4
}

/// The count byte of a post listing: one less than the number of posts
/// (the client reads count + 1 entries), 0xFF for none.
pub fn bbs_listing_count(posts: usize) -> (r: u8)
    ensures
        r == (if posts == 0 { 0xFFu8 } else { ((posts - 1) % 256) as u8 }),
{
    if posts == 0 {
        0xFF
    } else {
        ((posts - 1) % 256) as u8
    }
}

/// The date part of a timestamp: what comes before the first space (the
/// whole text when there is none).
pub open spec fn date_part(created_at: Seq<char>) -> Seq<char> {
    if exists|i: int| 0 <= i < created_at.len() && created_at[i] == ' ' {
        let i = choose|i: int| 0 <= i < created_at.len() && created_at[i] == ' ' && forall|j: int|
            0 <= j < i ==> created_at[j] != ' ';
        created_at.subrange(0, i)
    } else {
        created_at
    }
}

/// Cuts the date out of a post's timestamp.
pub fn bbs_date(created_at: &str) -> (r: String)
    ensures
        r@ == date_part(created_at@),
{
    let n = created_at.unicode_len();
    let mut i: usize = 0;
    while i < n
        invariant
            i <= n == created_at@.len(),
            forall|j: int| 0 <= j < i ==> created_at@[j] != ' ',
        decreases n - i,
    {
        if created_at.get_char(i) == ' ' {
            proof {
                assert(created_at@[i as int] == ' ');
                let k = choose|k: int| 0 <= k < created_at@.len() && created_at@[k] == ' ' && forall|j: int|
                    0 <= j < k ==> created_at@[j] != ' ';
                if k < i {
                    assert(created_at@[k] != ' ');
                }
                if k > i {
                    assert(created_at@[i as int] != ' ');
                }
                assert(k == i);
            }
            return created_at.substring_char(0, i).to_string();
        }
        i += 1;
    }
    created_at.to_string()
}

/// The acknowledgement of a report (no content).
pub open spec fn bbs_report_message() -> Seq<u8> {
    le16(MSG_BBS_REPORT_MESSAGE)
}

/// Builds the acknowledgement of a report.
pub fn build_bbs_report() -> (r: Vec<u8>)
    ensures
        r@ == bbs_report_message(),
{
    let mut w = MessageWriter::new();
    w.write_u16(MSG_BBS_REPORT_MESSAGE);
    w.into_bytes()
}

/// Whether the player may post: 1 yes, 0 no (also the answer to a refused
/// post).
pub open spec fn bbs_request_post_message(allow: bool) -> Seq<u8> {
    le16(MSG_BBS_REQUEST_POST) + seq![if allow { 1u8 } else { 0u8 }]
}

/// Builds the "may post" answer.
pub fn build_bbs_request_post(allow: bool) -> (r: Vec<u8>)
    ensures
        r@ == bbs_request_post_message(allow),
{
    let mut w = MessageWriter::new();
    w.write_u16(MSG_BBS_REQUEST_POST);
    w.write_u8(if allow { 1 } else { 0 });
    let r = w.into_bytes();
    assert(r@ =~= bbs_request_post_message(allow));
    r
}

/// The acknowledgement of an accepted post (no content).
pub open spec fn bbs_post_message() -> Seq<u8> {
    le16(MSG_BBS_POST)
}

/// Builds the acknowledgement of an accepted post.
pub fn build_bbs_post() -> (r: Vec<u8>)
    ensures
        r@ == bbs_post_message(),
{
    let mut w = MessageWriter::new();
    w.write_u16(MSG_BBS_POST);
    w.into_bytes()
}

/// Whether a post is accepted once its texts passed their checks: a
/// logged-in character, a category among the configured ones, and no post
/// within the cooldown.
pub fn bbs_post_allowed(logged_in: bool, category_id: i64, num_categories: usize, can_post: bool) -> (r: bool)
    ensures
        r == (logged_in && 0 <= category_id < num_categories && can_post),
{
    logged_in && category_id >= 0 && (category_id as i128) < (num_categories as i128) && can_post
}

} // verus!
