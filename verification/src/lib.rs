//! Verified game logic of a Slime Online 2 server: protocol framing,
//! cipher and archive handling, anti-cheat bookkeeping, configuration
//! lookups, item tables and the decisions the message handlers take.

pub mod constants;
pub mod crypto;
pub mod protocol;
pub mod text;
pub mod sor;
pub mod anticheat;
pub mod admin;
pub mod mod_tools;
pub mod config;
pub mod db;
pub mod game;
pub mod handlers;
pub mod validation;
