//! Hack categories tracked by the anti-cheat system and the responses to them.

use vstd::prelude::*;
use vstd::string::StringExecFns;

use crate::anticheat::movement::MovementFinding;

verus! {

/// Kinds of exploit attempts the server records.
#[derive(Debug, Clone, Copy, PartialEq, Eq, Hash, Structural)]
pub enum HackType {
    /// Attempted to spend more points than available (bank, shop)
    InsufficientFunds,
    /// Invalid inventory slot number
    InvalidSlot,
    /// Tried to use item from empty slot
    ItemNotInSlot,
    /// Tried to begin already-cleared quest
    QuestAlreadyCleared,
    /// Tried to clear quest not in progress
    QuestNotActive,
    /// Invalid building placement spot
    InvalidBuildSpot,
    /// Building spot already occupied
    SpotNotFree,
    /// Tried to buy out-of-stock item
    ShopOutOfStock,
    /// Missing required items/points for clan creation
    ClanMissingRequirements,
    /// Invalid race checkpoint sequence
    RaceSequenceViolation,
    /// Teleported impossibly far (movement hack)
    PositionTeleport,
    /// Moving faster than possible (speed hack)
    SpeedHack,
    /// Invalid item ID or manipulation attempt
    InvalidItem,
    /// Sending malformed or invalid messages
    ProtocolViolation,
    /// Generic suspicious activity
    SuspiciousActivity,
}

/// The name of a hack type, as written in logs.
pub open spec fn hack_type_name(h: HackType) -> Seq<char> {
    match h {
        HackType::InsufficientFunds => "InsufficientFunds"@,
        HackType::InvalidSlot => "InvalidSlot"@,
        HackType::ItemNotInSlot => "ItemNotInSlot"@,
        HackType::QuestAlreadyCleared => "QuestAlreadyCleared"@,
        HackType::QuestNotActive => "QuestNotActive"@,
        HackType::InvalidBuildSpot => "InvalidBuildSpot"@,
        HackType::SpotNotFree => "SpotNotFree"@,
        HackType::ShopOutOfStock => "ShopOutOfStock"@,
        HackType::ClanMissingRequirements => "ClanMissingRequirements"@,
        HackType::RaceSequenceViolation => "RaceSequenceViolation"@,
        HackType::PositionTeleport => "PositionTeleport"@,
        HackType::SpeedHack => "SpeedHack"@,
        HackType::InvalidItem => "InvalidItem"@,
        HackType::ProtocolViolation => "ProtocolViolation"@,
        HackType::SuspiciousActivity => "SuspiciousActivity"@,
    }
}

/// The human-readable description of a hack type.
pub open spec fn hack_type_description(h: HackType) -> Seq<char> {
    match h {
        HackType::InsufficientFunds => "Attempted transaction with insufficient funds"@,
        HackType::InvalidSlot => "Referenced invalid inventory slot"@,
        HackType::ItemNotInSlot => "Attempted to use item from empty slot"@,
        HackType::QuestAlreadyCleared => "Attempted to start already-completed quest"@,
        HackType::QuestNotActive => "Attempted to complete inactive quest"@,
        HackType::InvalidBuildSpot => "Attempted to build at invalid location"@,
        HackType::SpotNotFree => "Attempted to build on occupied spot"@,
        HackType::ShopOutOfStock => "Attempted to buy out-of-stock item"@,
        HackType::ClanMissingRequirements => "Attempted clan creation without requirements"@,
        HackType::RaceSequenceViolation => "Invalid race checkpoint sequence"@,
        HackType::PositionTeleport => "Impossible position change detected"@,
        HackType::SpeedHack => "Movement speed exceeds maximum"@,
        HackType::InvalidItem => "Invalid or manipulated item data"@,
        HackType::ProtocolViolation => "Malformed or invalid message"@,
        HackType::SuspiciousActivity => "Generic suspicious behavior"@,
    }
}

/// Severity from 1 (possibly a client bug or lag) to 5 (protocol manipulation).
pub open spec fn hack_type_severity(h: HackType) -> u8 {
    match h {
        HackType::InsufficientFunds => 2,
        HackType::InvalidSlot => 1,
        HackType::ItemNotInSlot => 1,
        HackType::QuestAlreadyCleared => 2,
        HackType::QuestNotActive => 2,
        HackType::InvalidBuildSpot => 3,
        HackType::SpotNotFree => 3,
        HackType::ShopOutOfStock => 2,
        HackType::ClanMissingRequirements => 3,
        HackType::RaceSequenceViolation => 3,
        HackType::PositionTeleport => 4,
        HackType::SpeedHack => 4,
        HackType::InvalidItem => 4,
        HackType::ProtocolViolation => 5,
        HackType::SuspiciousActivity => 5,
    }
}

impl HackType {
    /// The name of the hack type.
    pub fn name(&self) -> (r: &'static str)
        ensures
            r@ == hack_type_name(*self),
    {
        match self {
            HackType::InsufficientFunds => "InsufficientFunds",
            HackType::InvalidSlot => "InvalidSlot",
            HackType::ItemNotInSlot => "ItemNotInSlot",
            HackType::QuestAlreadyCleared => "QuestAlreadyCleared",
            HackType::QuestNotActive => "QuestNotActive",
            HackType::InvalidBuildSpot => "InvalidBuildSpot",
            HackType::SpotNotFree => "SpotNotFree",
            HackType::ShopOutOfStock => "ShopOutOfStock",
            HackType::ClanMissingRequirements => "ClanMissingRequirements",
            HackType::RaceSequenceViolation => "RaceSequenceViolation",
            HackType::PositionTeleport => "PositionTeleport",
            HackType::SpeedHack => "SpeedHack",
            HackType::InvalidItem => "InvalidItem",
            HackType::ProtocolViolation => "ProtocolViolation",
            HackType::SuspiciousActivity => "SuspiciousActivity",
        }
    }

    /// The name of the hack type as an owned string.
    pub fn to_string(&self) -> (r: String)
        ensures
            r@ == hack_type_name(*self),
    {
        String::from_str(self.name())
    }

    /// A human-readable description of the hack type.
    pub fn description(&self) -> (r: &'static str)
        ensures
            r@ == hack_type_description(*self),
    {
        match self {
            HackType::InsufficientFunds => "Attempted transaction with insufficient funds",
            HackType::InvalidSlot => "Referenced invalid inventory slot",
            HackType::ItemNotInSlot => "Attempted to use item from empty slot",
            HackType::QuestAlreadyCleared => "Attempted to start already-completed quest",
            HackType::QuestNotActive => "Attempted to complete inactive quest",
            HackType::InvalidBuildSpot => "Attempted to build at invalid location",
            HackType::SpotNotFree => "Attempted to build on occupied spot",
            HackType::ShopOutOfStock => "Attempted to buy out-of-stock item",
            HackType::ClanMissingRequirements => "Attempted clan creation without requirements",
            HackType::RaceSequenceViolation => "Invalid race checkpoint sequence",
            HackType::PositionTeleport => "Impossible position change detected",
            HackType::SpeedHack => "Movement speed exceeds maximum",
            HackType::InvalidItem => "Invalid or manipulated item data",
            HackType::ProtocolViolation => "Malformed or invalid message",
            HackType::SuspiciousActivity => "Generic suspicious behavior",
        }
    }

    /// The severity level (1-5, higher is more severe).
    pub fn severity(&self) -> (r: u8)
        ensures
            r == hack_type_severity(*self),
            1 <= r <= 5,
    {
        match self {
            HackType::InvalidSlot | HackType::ItemNotInSlot => 1,
            HackType::InsufficientFunds
            | HackType::QuestAlreadyCleared
            | HackType::QuestNotActive
            | HackType::ShopOutOfStock => 2,
            HackType::InvalidBuildSpot
            | HackType::SpotNotFree
            | HackType::ClanMissingRequirements
            | HackType::RaceSequenceViolation => 3,
            HackType::PositionTeleport | HackType::SpeedHack | HackType::InvalidItem => 4,
            HackType::ProtocolViolation | HackType::SuspiciousActivity => 5,
        }
    }
}

/// Action to take after a hack is detected.
#[derive(Debug, Clone, PartialEq, Eq)]
pub enum HackResponse {
    /// Logged, no further action.
    Logged,
    /// Warning to the player, with the current and maximum hack counts.
    Warning { hack_count: u32, max_hacks: u32 },
    /// The player is kicked.
    Kick { reason: String },
    /// The player is banned (account and IP/MAC).
    Ban { reason: String },
}

impl HackResponse {
    /// Whether the response disconnects the player.
    pub fn should_disconnect(&self) -> (r: bool)
        ensures
            r == (self is Kick || self is Ban),
    {
        match self {
            HackResponse::Kick { .. } | HackResponse::Ban { .. } => true,
            _ => false,
        }
    }

    /// Whether the response is a ban.
    pub fn is_ban(&self) -> (r: bool)
        ensures
            r == self is Ban,
    {
        match self {
            HackResponse::Ban { .. } => true,
            _ => false,
        }
    }
}

/// Result of checking a movement update.
#[derive(Debug, Clone)]
pub enum CheatResult {
    /// No cheating detected.
    Clean,
    /// Suspicious but not definitive.
    Suspicious { reason: MovementFinding, severity: u8 },
    /// Definite cheat.
    Cheating { reason: MovementFinding },
}

impl CheatResult {
    /// Whether nothing was detected.
    pub fn is_clean(&self) -> (r: bool)
        ensures
            r == self is Clean,
    {
        match self {
            CheatResult::Clean => true,
            _ => false,
        }
    }

    /// Whether a definite cheat was detected.
    pub fn is_cheating(&self) -> (r: bool)
        ensures
            r == self is Cheating,
    {
        match self {
            CheatResult::Cheating { .. } => true,
            _ => false,
        }
    }
}

} // verus!
