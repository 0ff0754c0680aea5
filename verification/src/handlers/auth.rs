//! Login and registration decisions.
//!
//! A login is refused, in this order, for a malformed request, a banned IP
//! address, a banned MAC address, an unknown account, a banned account, a
//! wrong password, or an account that is already online. Passwords are
//! checked against their bcrypt hashes; new passwords are hashed with a
//! fresh random salt.

use vstd::prelude::*;

use crate::constants::{
    FRIDAY, LOGIN_ACCOUNT_BANNED, LOGIN_ALREADY_LOGGED_IN, LOGIN_IP_BANNED_1, LOGIN_IP_BANNED_2,
    LOGIN_NO_ACCOUNT, LOGIN_VERSION_MISMATCH, LOGIN_WRONG_PASSWORD, MONDAY, REGISTER_EXISTS,
    REGISTER_IP_BANNED, REGISTER_MAC_BANNED, REGISTER_SUCCESS, SATURDAY, SUNDAY, THURSDAY, TUESDAY,
    WEDNESDAY,
};
use crate::db::accounts::Account;
use crate::db::characters::Character;

verus! {

/// The bcrypt cost used for new password hashes.
pub const PASSWORD_HASH_COST: u32 = 12;

/// What `bcrypt::verify` answers for a password and a stored hash: `None`
/// when the hash cannot be read, else whether the password matches.
pub uninterp spec fn bcrypt_verify(password: Seq<char>, hash: Seq<char>) -> Option<bool>;

/// Checks a password against a bcrypt hash with `bcrypt::verify`. The answer
/// depends on the two strings alone (the salt and cost are in the hash);
/// an unreadable hash gives `None`.
#[verifier::external_body]
fn bcrypt_verify_call(password: &str, hash: &str) -> (r: Option<bool>)
    ensures
        r == bcrypt_verify(password@, hash@),
{
    bcrypt::verify(password, hash).ok()
}

/// The cost as bcrypt writes it into a hash: two decimal digits, the first
/// one zero for costs under ten.
pub open spec fn two_digits(cost: u32) -> Seq<char> {
    seq![((48 + cost / 10) as u8) as char, ((48 + cost % 10) as u8) as char]
}

/// Hashes a password with `bcrypt::hash` and a fresh random salt. The crate
/// refuses costs outside 4..=31 and fails when no random salt can be had.
/// A hash it returns is the 60 characters `$2b$`, the cost in two digits,
/// `$`, then the encoded salt and digest, and it verifies the password it
/// was made from. The salt and digest depend on the random salt, so nothing
/// more is said of them.
#[verifier::external_body]
fn bcrypt_hash_call(password: &str, cost: u32) -> (r: Option<String>)
    ensures
        !(4 <= cost <= 31) ==> r is None,
        r matches Some(h) ==> h@.len() == 60 && h@.subrange(0, 7) == "$2b$"@ + two_digits(cost)
            + "$"@,
        r matches Some(h) ==> bcrypt_verify(password@, h@) == Some(true),
{
    bcrypt::hash(password, cost).ok()
}

/// The answer to a login: `Ok` or the failure code. `account` holds, for a
/// found account, whether it is banned and what checking the password
/// against its hash gave.
pub open spec fn login_code(
    request_valid: bool,
    ip_banned: bool,
    mac_banned: bool,
    account: Option<(bool, Option<bool>)>,
    already_online: bool,
) -> Result<(), u8> {
    if !request_valid {
        Err(LOGIN_VERSION_MISMATCH)
    } else if ip_banned {
        Err(LOGIN_IP_BANNED_1)
    } else if mac_banned {
        Err(LOGIN_IP_BANNED_2)
    } else {
        match account {
            None => Err(LOGIN_NO_ACCOUNT),
            Some((banned, password_ok)) => if banned {
                Err(LOGIN_ACCOUNT_BANNED)
            } else if !(password_ok == Some(true)) {
                Err(LOGIN_WRONG_PASSWORD)
            } else if already_online {
                Err(LOGIN_ALREADY_LOGGED_IN)
            } else {
                Ok(())
            },
        }
    }
}

/// Decides a login from the facts gathered about it; `account` holds, for a
/// found account, whether it is banned and what checking the password
/// against its hash gave.
pub fn login_decision(
    request_valid: bool,
    ip_banned: bool,
    mac_banned: bool,
    account: Option<(bool, Option<bool>)>,
    already_online: bool,
) -> (r: Result<(), u8>)
    ensures
        r == login_code(request_valid, ip_banned, mac_banned, account, already_online),
{
    if !request_valid {
        return Err(LOGIN_VERSION_MISMATCH);
    }
    if ip_banned {
        return Err(LOGIN_IP_BANNED_1);
    }
    if mac_banned {
        return Err(LOGIN_IP_BANNED_2);
    }
    match account {
        None => Err(LOGIN_NO_ACCOUNT),
        Some((banned, password_ok)) => {
            if banned {
                Err(LOGIN_ACCOUNT_BANNED)
            } else if !matches!(password_ok, Some(true)) {
                Err(LOGIN_WRONG_PASSWORD)
            } else if already_online {
                Err(LOGIN_ALREADY_LOGGED_IN)
            } else {
                Ok(())
            }
        },
    }
}

/// Checks a login: the password is verified against the account's bcrypt
/// hash (only when every earlier check passed), and the answer is `Ok` or
/// the failure code sent to the client.
pub fn check_login(
    request_valid: bool,
    ip_banned: bool,
    mac_banned: bool,
    account: Option<&Account>,
    password: &str,
    already_online: bool,
) -> (r: Result<(), u8>)
    ensures
        r == login_code(
            request_valid,
            ip_banned,
            mac_banned,
            match account {
                Some(a) => Some((a.is_banned, bcrypt_verify(password@, a.password_hash@))),
                None => None,
            },
            already_online,
        ),
{
    let facts = match account {
        Some(a) => {
            if !request_valid || ip_banned || mac_banned || a.is_banned {
                Some((a.is_banned, None))
            } else {
                Some((a.is_banned, bcrypt_verify_call(password, a.password_hash.as_str())))
            }
        },
        None => None,
    };
    login_decision(request_valid, ip_banned, mac_banned, facts, already_online)
}

/// A login only succeeds with a password that verifies against the stored
/// hash, for an account that is not banned, from an address that is not.
pub proof fn lemma_login_requires_password(
    request_valid: bool,
    ip_banned: bool,
    mac_banned: bool,
    account: Option<(bool, Option<bool>)>,
    already_online: bool,
)
    ensures
        login_code(request_valid, ip_banned, mac_banned, account, already_online) is Ok ==> {
            &&& request_valid && !ip_banned && !mac_banned && !already_online
            &&& account matches Some((banned, ok)) && !banned && ok == Some(true)
        },
{
}

/// The answer to a registration request before the account is created:
/// `Some(code)` refuses it, `None` lets it go on.
pub open spec fn register_refusal(request_valid: bool, ip_banned: bool, mac_banned: bool, name_taken: bool) -> Option<u8> {
    if !request_valid {
        Some(REGISTER_EXISTS)
    } else if ip_banned {
        Some(REGISTER_IP_BANNED)
    } else if mac_banned {
        Some(REGISTER_MAC_BANNED)
    } else if name_taken {
        Some(REGISTER_EXISTS)
    } else {
        None
    }
}

/// Decides whether a registration may create its account.
pub fn register_decision(request_valid: bool, ip_banned: bool, mac_banned: bool, name_taken: bool) -> (r: Option<u8>)
    ensures
        r == register_refusal(request_valid, ip_banned, mac_banned, name_taken),
{
    if !request_valid {
        Some(REGISTER_EXISTS)
    } else if ip_banned {
        Some(REGISTER_IP_BANNED)
    } else if mac_banned {
        Some(REGISTER_MAC_BANNED)
    } else if name_taken {
        Some(REGISTER_EXISTS)
    } else {
        None
    }
}

/// Hashes the password of a new account; `None` when hashing failed (the
/// registration is then answered as a taken name). A hash that comes back
/// is a bcrypt hash of version 2b and cost 12, and verifies the password.
pub fn hash_new_password(password: &str) -> (r: Option<String>)
    ensures
        r matches Some(h) ==> h@.len() == 60 && h@.subrange(0, 7) == "$2b$12$"@,
        r matches Some(h) ==> bcrypt_verify(password@, h@) == Some(true),
{
    let r = bcrypt_hash_call(password, PASSWORD_HASH_COST);
    proof {
        reveal_strlit("$2b$");
        reveal_strlit("$");
        reveal_strlit("$2b$12$");
        assert(two_digits(PASSWORD_HASH_COST) =~= seq!['1', '2']);
        assert("$2b$"@ + two_digits(PASSWORD_HASH_COST) + "$"@ =~= "$2b$12$"@);
    }
    r
}

/// The answer to a registration once the account and its character were (or
/// were not) created.
pub fn register_result(created: bool) -> (r: u8)
    ensures
        r == (if created { REGISTER_SUCCESS } else { REGISTER_EXISTS }),
{
    if created { REGISTER_SUCCESS } else { REGISTER_EXISTS }
}

/// The day code of a weekday counted from Sunday (0) to Saturday (6).
pub open spec fn day_code_of(days_from_sunday: u32) -> u8 {
    (days_from_sunday + 1) as u8
}

/// Converts a weekday (0 = Sunday .. 6 = Saturday) to the client's day code
/// (`SUNDAY` .. `SATURDAY`).
pub fn day_code(days_from_sunday: u32) -> (r: u8)
    requires
        days_from_sunday < 7,
    ensures
        r == day_code_of(days_from_sunday),
        days_from_sunday == 0 ==> r == SUNDAY,
        days_from_sunday == 6 ==> r == SATURDAY,
{
    match days_from_sunday {
        0 => SUNDAY,
        1 => MONDAY,
        2 => TUESDAY,
        3 => WEDNESDAY,
        4 => THURSDAY,
        5 => FRIDAY,
        _ => SATURDAY,
    }
}

/// What a session takes from a character at login: room, position,
/// appearance and points, each column read as unsigned.
#[derive(Debug, Clone, Copy, PartialEq, Eq, Structural)]
pub struct SessionStart {
    pub room_id: u16,
    pub x: u16,
    pub y: u16,
    pub body_id: u16,
    pub acs1_id: u16,
    pub acs2_id: u16,
    pub points: u32,
}

/// Reads the session fields off a character row.
pub fn session_start(character: &Character) -> (r: SessionStart)
    ensures
        r == (SessionStart {
            room_id: character.room_id as u16,
            x: character.x as u16,
            y: character.y as u16,
            body_id: character.body_id as u16,
            acs1_id: character.acs1_id as u16,
            acs2_id: character.acs2_id as u16,
            points: character.points as u32,
        }),
{
    SessionStart {
        room_id: character.room_id as u16,
        x: character.x as u16,
        y: character.y as u16,
        body_id: character.body_id as u16,
        acs1_id: character.acs1_id as u16,
        acs2_id: character.acs2_id as u16,
        points: character.points as u32,
    }
}

} // verus!
