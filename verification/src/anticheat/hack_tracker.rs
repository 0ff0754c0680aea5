//! Escalating responses to reported hacks, and the hack log's text.
//!
//! The account's hack counter lives in the database; each report increments
//! it and the new count decides the response: a ban at the maximum, a
//! warning from half of it, otherwise only a log entry.

use vstd::prelude::*;
use vstd::string::StringExecFns;

use crate::anticheat::types::{hack_type_name, HackResponse, HackType};
use crate::text::{decimal, decimal_string, signed_decimal, signed_decimal_string};

verus! {

/// Hack count that triggers a permanent ban when no configuration is at hand.
pub const DEFAULT_MAX_HACKS: u32 = 8;

/// Whether hacks are logged to files when no configuration is at hand.
pub const DEFAULT_LOG_TO_FILE: bool = true;

/// The reason recorded for a ban after too many hacks.
pub open spec fn ban_reason(hack_count: u32, max_hacks: u32, hack_type: HackType) -> Seq<char> {
    "Maximum hack attempts reached ("@ + decimal(hack_count as nat) + "/"@ + decimal(max_hacks as nat)
        + "). Last: "@ + hack_type_name(hack_type)
}

/// Decides the response to a hack from the account's new hack count: ban at
/// `max_hacks`, warn from `max_hacks / 2`, otherwise just log.
pub fn hack_response(hack_count: u32, max_hacks: u32, hack_type: HackType) -> (r: HackResponse)
    ensures
        hack_count >= max_hacks <==> r is Ban,
        r matches HackResponse::Ban { reason } ==> reason@ == ban_reason(hack_count, max_hacks, hack_type),
        hack_count < max_hacks && hack_count >= max_hacks / 2 ==> r == (HackResponse::Warning { hack_count, max_hacks }),
        hack_count < max_hacks / 2 ==> r is Logged,
{
    if hack_count >= max_hacks {
        let mut reason = String::from_str("Maximum hack attempts reached (");
        let c = decimal_string(hack_count as u64);
        reason.append(c.as_str());
        reason.append("/");
        let m = decimal_string(max_hacks as u64);
        reason.append(m.as_str());
        reason.append("). Last: ");
        reason.append(hack_type.name());
        HackResponse::Ban { reason }
    } else if hack_count >= max_hacks / 2 {
        HackResponse::Warning { hack_count, max_hacks }
    } else {
        HackResponse::Logged
    }
}

/// `N/A` for an absent value.
pub open spec fn or_na(s: Option<Seq<char>>) -> Seq<char> {
    match s {
        Some(t) => t,
        None => "N/A"@,
    }
}

/// One line of the hack log file.
pub open spec fn hack_log_line_spec(
    timestamp: Seq<char>,
    account_id: i64,
    character_id: Option<i64>,
    hack_type: HackType,
    description: Seq<char>,
    ip: Option<Seq<char>>,
    mac: Option<Seq<char>>,
) -> Seq<char> {
    let chr = match character_id {
        Some(c) => signed_decimal(c as int),
        None => "N/A"@,
    };
    "["@ + timestamp + "] Account:"@ + signed_decimal(account_id as int) + " Char:"@ + chr + " Type:"@
        + hack_type_name(hack_type) + " IP:"@ + or_na(ip) + " MAC:"@ + or_na(mac) + " - "@ + description
        + "\n"@
}

fn push_or_na(line: &mut String, v: Option<&str>)
    ensures
        final(line)@ == old(line)@ + or_na(
            match v {
                Some(t) => Some(t@),
                None => None,
            },
        ),
{
    match v {
        Some(t) => line.append(t),
        None => line.append("N/A"),
    }
}

/// Formats one line of the hack log:
/// `[time] Account:id Char:id Type:name IP:ip MAC:mac - description`.
pub fn hack_log_line(
    timestamp: &str,
    account_id: i64,
    character_id: Option<i64>,
    hack_type: HackType,
    description: &str,
    ip_address: Option<&str>,
    mac_address: Option<&str>,
) -> (r: String)
    ensures
        r@ == hack_log_line_spec(
            timestamp@,
            account_id,
            character_id,
            hack_type,
            description@,
            match ip_address {
                Some(t) => Some(t@),
                None => None,
            },
            match mac_address {
                Some(t) => Some(t@),
                None => None,
            },
        ),
{
    let mut line = String::from_str("[");
    line.append(timestamp);
    line.append("] Account:");
    let acc = signed_decimal_string(account_id);
    line.append(acc.as_str());
    line.append(" Char:");
    match character_id {
        Some(c) => {
            let cs = signed_decimal_string(c);
            line.append(cs.as_str());
        },
        None => line.append("N/A"),
    }
    line.append(" Type:");
    line.append(hack_type.name());
    line.append(" IP:");
    push_or_na(&mut line, ip_address);
    line.append(" MAC:");
    push_or_na(&mut line, mac_address);
    line.append(" - ");
    line.append(description);
    line.append("\n");
    line
}

/// The name of the day's hack log file: `[Hacks]date.txt`.
pub fn hack_log_file_name(date: &str) -> (r: String)
    ensures
        r@ == "[Hacks]"@ + date@ + ".txt"@,
{
    let mut name = String::from_str("[Hacks]");
    name.append(date);
    name.append(".txt");
    name
}

} // verus!
