//! The moderator tool's view of the admin API.

pub mod client;
pub mod interactive;
