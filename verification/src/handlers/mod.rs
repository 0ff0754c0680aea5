//! Decisions taken by the message handlers, apart from the I/O around them.

pub mod items;
pub mod shop;
pub mod bank;
pub mod sell;
pub mod use_item;
pub mod auth;
pub mod clan;
pub mod clan_members;
pub mod mail;
pub mod ground;
pub mod movement;
pub mod planting;
pub mod storage;
pub mod switches;
pub mod racing;
pub mod quest;
pub mod collectibles;
pub mod cannon;
pub mod chat;
pub mod gameplay;
pub mod music;
pub mod one_time;
pub mod bbs;
pub mod connection;
