//! Game constants of the v0.106 client protocol.

use vstd::prelude::*;

verus! {

/// Key the client uses to encrypt messages (the server decrypts with it):
/// the ASCII bytes of `retrtz7jmijb5467n47`.
pub const CLIENT_ENCRYPT_KEY: [u8; 19] = [
    114, 101, 116, 114, 116, 122, 55, 106, 109, 105, 106, 98, 53, 52, 54, 55, 110, 52, 55,
];

/// Key the client uses to decrypt messages (the server encrypts with it):
/// the ASCII bytes of `t54gz65u74njb6zg6`.
pub const CLIENT_DECRYPT_KEY: [u8; 17] = [
    116, 53, 52, 103, 122, 54, 53, 117, 55, 52, 110, 106, 98, 54, 122, 103, 54,
];

/// TCP port the game server listens on by default.
pub const DEFAULT_PORT: u16 = 5555;

/// Client version the server speaks.
pub const PROTOCOL_VERSION: &'static str = "0.106";

/// Direction codes sent with a movement message.
#[derive(Debug, Clone, Copy, PartialEq, Eq, Structural)]
pub enum Direction {
    StartLeftGround,
    StartRightGround,
    Jump,
    Duck,
    StopLeftGround,
    StopRightGround,
    ReleaseJump,
    ReleaseDuck,
    Landing,
    StartLeftAir,
    StartRightAir,
    StopLeftAir,
    StopRightAir,
}

/// The wire code of a direction (1 to 13, in declaration order).
pub open spec fn direction_code(d: Direction) -> u8 {
    match d {
        Direction::StartLeftGround => 1,
        Direction::StartRightGround => 2,
        Direction::Jump => 3,
        Direction::Duck => 4,
        Direction::StopLeftGround => 5,
        Direction::StopRightGround => 6,
        Direction::ReleaseJump => 7,
        Direction::ReleaseDuck => 8,
        Direction::Landing => 9,
        Direction::StartLeftAir => 10,
        Direction::StartRightAir => 11,
        Direction::StopLeftAir => 12,
        Direction::StopRightAir => 13,
    }
}

/// The name of a direction, as it is displayed.
pub open spec fn direction_name(d: Direction) -> Seq<char> {
    match d {
        Direction::StartLeftGround => "StartLeftGround"@,
        Direction::StartRightGround => "StartRightGround"@,
        Direction::Jump => "Jump"@,
        Direction::Duck => "Duck"@,
        Direction::StopLeftGround => "StopLeftGround"@,
        Direction::StopRightGround => "StopRightGround"@,
        Direction::ReleaseJump => "ReleaseJump"@,
        Direction::ReleaseDuck => "ReleaseDuck"@,
        Direction::Landing => "Landing"@,
        Direction::StartLeftAir => "StartLeftAir"@,
        Direction::StartRightAir => "StartRightAir"@,
        Direction::StopLeftAir => "StopLeftAir"@,
        Direction::StopRightAir => "StopRightAir"@,
    }
}

impl Direction {
    /// Decodes a wire code; codes outside 1..=13 have no direction.
    pub fn from_u8(value: u8) -> (r: Option<Self>)
        ensures
            r matches Some(d) ==> direction_code(d) == value,
            r is Some <==> 1 <= value <= 13,
    {
        match value {
            1 => Some(Direction::StartLeftGround),
            2 => Some(Direction::StartRightGround),
            3 => Some(Direction::Jump),
            4 => Some(Direction::Duck),
            5 => Some(Direction::StopLeftGround),
            6 => Some(Direction::StopRightGround),
            7 => Some(Direction::ReleaseJump),
            8 => Some(Direction::ReleaseDuck),
            9 => Some(Direction::Landing),
            10 => Some(Direction::StartLeftAir),
            11 => Some(Direction::StartRightAir),
            12 => Some(Direction::StopLeftAir),
            13 => Some(Direction::StopRightAir),
            _ => None,
        }
    }

    /// The wire code of this direction.
    pub fn code(&self) -> (r: u8)
        ensures
            r == direction_code(*self),
    {
        match self {
            Direction::StartLeftGround => 1,
            Direction::StartRightGround => 2,
            Direction::Jump => 3,
            Direction::Duck => 4,
            Direction::StopLeftGround => 5,
            Direction::StopRightGround => 6,
            Direction::ReleaseJump => 7,
            Direction::ReleaseDuck => 8,
            Direction::Landing => 9,
            Direction::StartLeftAir => 10,
            Direction::StartRightAir => 11,
            Direction::StopLeftAir => 12,
            Direction::StopRightAir => 13,
        }
    }

    /// The name of this direction, as it is displayed.
    pub fn to_string(&self) -> (r: String)
        ensures
            r@ == direction_name(*self),
    {
        let name = match self {
            Direction::StartLeftGround => "StartLeftGround",
            Direction::StartRightGround => "StartRightGround",
            Direction::Jump => "Jump",
            Direction::Duck => "Duck",
            Direction::StopLeftGround => "StopLeftGround",
            Direction::StopRightGround => "StopRightGround",
            Direction::ReleaseJump => "ReleaseJump",
            Direction::ReleaseDuck => "ReleaseDuck",
            Direction::Landing => "Landing",
            Direction::StartLeftAir => "StartLeftAir",
            Direction::StartRightAir => "StartRightAir",
            Direction::StopLeftAir => "StopLeftAir",
            Direction::StopRightAir => "StopRightAir",
        };
        String::from_str(name)
    }
}

/// Maximum distance a player may move in one update, in pixels.
pub const MAX_MOVEMENT_DISTANCE_PER_UPDATE: u64 = 600;

/// Maximum reasonable player speed, in pixels per second.
pub const MAX_PLAYER_SPEED: u64 = 300;

/// Maximum valid X coordinate in any room.
pub const MAX_ROOM_X: u16 = 5000;

/// Maximum valid Y coordinate in any room.
pub const MAX_ROOM_Y: u16 = 3000;

/// Number of cheat violations within the window that makes a player a cheater.
pub const CHEAT_VIOLATION_THRESHOLD: u32 = 5;

/// Time window for counting violations, in seconds.
pub const CHEAT_VIOLATION_WINDOW_SECS: u64 = 60;

/// Number of flags before a player is kicked.
pub const CHEAT_FLAGS_TO_KICK: u32 = 3;

/// Number of flags before a player is banned.
pub const CHEAT_FLAGS_TO_BAN: u32 = 10;

/// Largest message payload accepted from a client, in bytes.
pub const MAX_MESSAGE_SIZE: usize = 8192;

/// Seconds of silence after which a connection is closed.
pub const CONNECTION_TIMEOUT_SECS: u64 = 300;

/// Seconds a connection may stay unauthenticated.
pub const UNAUTHENTICATED_TIMEOUT_SECS: u64 = 30;

/// Connections allowed from one IP address.
pub const MAX_CONNECTIONS_PER_IP: usize = 3;

/// Connections allowed in total.
pub const MAX_TOTAL_CONNECTIONS: usize = 1000;

/// Login answer: success.
pub const LOGIN_SUCCESS: u8 = 1;

/// Login answer: no such account.
pub const LOGIN_NO_ACCOUNT: u8 = 2;

/// Login answer: wrong password.
pub const LOGIN_WRONG_PASSWORD: u8 = 3;

/// Login answer: the account is already logged in.
pub const LOGIN_ALREADY_LOGGED_IN: u8 = 4;

/// Login answer: the client's version does not match.
pub const LOGIN_VERSION_MISMATCH: u8 = 5;

/// Login answer: the account is banned.
pub const LOGIN_ACCOUNT_BANNED: u8 = 6;

/// Login answer: the IP address is banned.
pub const LOGIN_IP_BANNED_1: u8 = 7;

/// Login answer: the IP address is banned (second code).
pub const LOGIN_IP_BANNED_2: u8 = 8;

/// Registration answer: success.
pub const REGISTER_SUCCESS: u8 = 1;

/// Registration answer: the name is taken.
pub const REGISTER_EXISTS: u8 = 2;

/// Registration answer: the IP address is banned.
pub const REGISTER_IP_BANNED: u8 = 3;

/// Registration answer: the MAC address is banned.
pub const REGISTER_MAC_BANNED: u8 = 4;

/// Seconds between saves of the game state.
pub const SAVE_INTERVAL_SECS: u64 = 300;

/// Seconds between cleanups of stale sessions.
pub const CLEANUP_INTERVAL_SECS: u64 = 60;

/// Day-of-week code for Sunday.
pub const SUNDAY: u8 = 1;

/// Day-of-week code for Monday.
pub const MONDAY: u8 = 2;

/// Day-of-week code for Tuesday.
pub const TUESDAY: u8 = 3;

/// Day-of-week code for Wednesday.
pub const WEDNESDAY: u8 = 4;

/// Day-of-week code for Thursday.
pub const THURSDAY: u8 = 5;

/// Day-of-week code for Friday.
pub const FRIDAY: u8 = 6;

/// Day-of-week code for Saturday.
pub const SATURDAY: u8 = 7;

/// Points of a new character.
pub const DEFAULT_POINTS: u32 = 0;

} // verus!
