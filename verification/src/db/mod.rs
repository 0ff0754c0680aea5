//! Rows of the game database, as the game logic reads them.

pub mod accounts;
pub mod bbs;
pub mod characters;
pub mod clans;
pub mod mail;
pub mod runtime_state;
pub mod upgrader;
