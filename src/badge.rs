//! The JSON badge documents that answer a query.

use vstd::prelude::*;

use crate::color::color_name;
use crate::uptime::{Uptime, tier_color, tier_label};

verus! {

/// A badge document with the given label, message and color.
pub open spec fn badge_text(label: Seq<char>, message: Seq<char>, color: Seq<char>) -> Seq<char> {
    "{\"schemaVersion\":1,\"label\":\""@ + label + "\",\"message\":\""@ + message
        + "\",\"color\":\""@ + color + "\"}"@
}

/// The badge document of an uptime error with the given message.
pub open spec fn error_badge_text(message: Seq<char>) -> Seq<char> {
    "{\"schemaVersion\":1,\"label\":\"uptime\",\"message\":\""@ + message
        + "\",\"color\":\"critical\",\"isError\":true}"@
}

/// The uptime badge of a tier.
pub open spec fn tier_badge_text(u: Uptime) -> Seq<char> {
    badge_text("uptime"@, tier_label(u), color_name(tier_color(u)))
}

/// The character of a decimal digit.
pub open spec fn digit_char(d: nat) -> char {
    if d == 0 {
        '0'
    } else if d == 1 {
        '1'
    } else if d == 2 {
        '2'
    } else if d == 3 {
        '3'
    } else if d == 4 {
        '4'
    } else if d == 5 {
        '5'
    } else if d == 6 {
        '6'
    } else if d == 7 {
        '7'
    } else if d == 8 {
        '8'
    } else {
        '9'
    }
}

/// The decimal notation of `n`, without leading zeros.
pub open spec fn decimal(n: nat) -> Seq<char>
    decreases n,
{
    if n < 10 {
        seq![digit_char(n)]
    } else {
        decimal(n / 10).push(digit_char(n % 10))
    }
}

/// Why a query is answered with an error badge.
#[derive(Clone, Copy, Debug, PartialEq, Eq, Structural)]
pub enum BadgeError {
    InvalidParameters,
    UnresolvableHostname,
}

/// The message of an error badge.
pub open spec fn error_message(e: BadgeError) -> Seq<char> {
    match e {
        BadgeError::InvalidParameters => "invalid parameters"@,
        BadgeError::UnresolvableHostname => "unresolvable hostname"@,
    }
}

fn digit_str(d: u64) -> (r: &'static str)
    requires
        d < 10,
    ensures
        r@ == seq![digit_char(d as nat)],
{
    proof {
        reveal_strlit("0");
        reveal_strlit("1");
        reveal_strlit("2");
        reveal_strlit("3");
        reveal_strlit("4");
        reveal_strlit("5");
        reveal_strlit("6");
        reveal_strlit("7");
        reveal_strlit("8");
        reveal_strlit("9");
    }
    if d == 0 {
        "0"
    } else if d == 1 {
        "1"
    } else if d == 2 {
        "2"
    } else if d == 3 {
        "3"
    } else if d == 4 {
        "4"
    } else if d == 5 {
        "5"
    } else if d == 6 {
        "6"
    } else if d == 7 {
        "7"
    } else if d == 8 {
        "8"
    } else {
        "9"
    }
}

/// Appends the decimal notation of `n` to `s`.
pub fn push_decimal(s: &mut String, n: u64)
    ensures
        final(s)@ == old(s)@ + decimal(n as nat),
    decreases n,
{
    if n >= 10 {
        push_decimal(s, n / 10);
    }
    s.append(digit_str(n % 10));
    proof {
        if n >= 10 {
            assert(decimal(n as nat) == decimal((n / 10) as nat).push(digit_char((n % 10) as nat)));
        }
    }
    assert(final(s)@ =~= old(s)@ + decimal(n as nat));
}

/// A badge document with the given label, message and color.
pub fn badge(label: &str, message: &str, color: &str) -> (r: String)
    ensures
        r@ == badge_text(label@, message@, color@),
{
    let mut s = String::from_str("{\"schemaVersion\":1,\"label\":\"");
    s.append(label);
    s.append("\",\"message\":\"");
    s.append(message);
    s.append("\",\"color\":\"");
    s.append(color);
    s.append("\"}");
    assert(s@ =~= badge_text(label@, message@, color@));
    s
}

/// The uptime badge of a tier.
pub fn tier_badge(u: Uptime) -> (r: String)
    ensures
        r@ == tier_badge_text(u),
{
    let (label, color) = u.as_str();
    badge("uptime", label, color)
}

/// The error badge for `e`.
pub fn error_badge(e: BadgeError) -> (r: String)
    ensures
        r@ == error_badge_text(error_message(e)),
{
    let message = match e {
        BadgeError::InvalidParameters => "invalid parameters",
        BadgeError::UnresolvableHostname => "unresolvable hostname",
    };
    let mut s = String::from_str("{\"schemaVersion\":1,\"label\":\"uptime\",\"message\":\"");
    s.append(message);
    s.append("\",\"color\":\"critical\",\"isError\":true}");
    assert(s@ =~= error_badge_text(error_message(e)));
    s
}

/// The badge that gives the number of tracked hosts.
pub fn count_badge(n: u64) -> (r: String)
    ensures
        r@ == badge_text("tracked hosts"@, decimal(n as nat), "blue"@),
{
    let mut message = String::new();
    push_decimal(&mut message, n);
    assert(message@ =~= decimal(n as nat));
    badge("tracked hosts", message.as_str(), "blue")
}

/// The badge that gives the version of the running service.
pub fn version_badge(version: &str) -> (r: String)
    ensures
        r@ == badge_text("hosted version"@, version@, "blue"@),
{
    badge("hosted version", version, "blue")
}

} // verus!
