//! Decimal rendering of counters and durations.
//!
//! Snapshot fields such as cache sizes and the system uptime are reported as
//! text; the functions here build those strings and pin their exact contents.

use vstd::prelude::*;
use vstd::string::*;

verus! {

/// Appends one character to a string.
///
/// Relies on `String::push` from std: the string grows by exactly the pushed
/// character, as its documentation states.
#[verifier::external_body]
pub(crate) fn push_char(s: &mut String, c: char)
    ensures
        final(s)@ == old(s)@.push(c),
{
    s.push(c);
}

/// The ASCII digit for a value below ten.
pub open spec fn digit_char(d: nat) -> char {
    ((48 + d) as u8) as char
}

/// Decimal representation of a number, most significant digit first.
pub open spec fn dec_rep(n: nat) -> Seq<char>
    decreases n,
{
    if n < 10 {
        seq![digit_char(n)]
    } else {
        dec_rep(n / 10).push(digit_char(n % 10))
    }
}

/// Appends the decimal representation of `n`.
pub fn push_dec(s: &mut String, n: u64)
    ensures
        final(s)@ == old(s)@ + dec_rep(n as nat),
    decreases n,
{
    if n >= 10 {
        push_dec(s, n / 10);
    }
    let d: u64 = n % 10;
    let c: char = ((48 + d) as u8) as char;
    proof {
        assert(c == digit_char((n as nat) % 10));
    }
    push_char(s, c);
    proof {
        if n >= 10 {
            assert(old(s)@ + dec_rep((n / 10) as nat).push(digit_char((n as nat) % 10))
                =~= (old(s)@ + dec_rep((n / 10) as nat)).push(digit_char((n as nat) % 10)));
        } else {
            assert(old(s)@ + seq![digit_char(n as nat)] =~= old(s)@.push(
                digit_char(n as nat),
            ));
        }
    }
}

/// The decimal representation of `n` as a fresh string.
pub fn dec_string(n: u64) -> (r: String)
    ensures
        r@ == dec_rep(n as nat),
{
    let mut s = String::new();
    push_dec(&mut s, n);
    proof {
        assert(Seq::<char>::empty() + dec_rep(n as nat) =~= dec_rep(n as nat));
    }
    s
}

/// A cache size in kilobytes rendered as `"<n> KB"`.
pub fn kb_label(n: u32) -> (r: String)
    ensures
        r@ == dec_rep(n as nat) + " KB"@,
{
    let mut s = dec_string(n as u64);
    s.append(" KB");
    s
}

/// The reported uptime text: the leading zero units among days and hours are
/// omitted, the remaining units are always shown down to minutes.
pub open spec fn uptime_rep(secs: u64) -> Seq<char> {
    let days = secs as int / 86400;
    let hours = (secs as int % 86400) / 3600;
    let mins = (secs as int % 3600) / 60;
    if days > 0 {
        dec_rep(days as nat) + "d "@ + dec_rep(hours as nat) + "h "@ + dec_rep(mins as nat)
            + "m"@
    } else if hours > 0 {
        dec_rep(hours as nat) + "h "@ + dec_rep(mins as nat) + "m"@
    } else {
        dec_rep(mins as nat) + "m"@
    }
}

/// Formats a system uptime, given in seconds, as its reported text.
pub fn format_uptime(secs: u64) -> (r: String)
    ensures
        r@ == uptime_rep(secs),
{
    let days: u64 = secs / 86400;
    let hours: u64 = (secs % 86400) / 3600;
    let mins: u64 = (secs % 3600) / 60;
    let mut s = String::new();
    if days > 0 {
        push_dec(&mut s, days);
        s.append("d ");
        push_dec(&mut s, hours);
        s.append("h ");
        push_dec(&mut s, mins);
        s.append("m");
        proof {
            assert(s@ =~= uptime_rep(secs));
        }
    } else if hours > 0 {
        push_dec(&mut s, hours);
        s.append("h ");
        push_dec(&mut s, mins);
        s.append("m");
        proof {
            assert(s@ =~= uptime_rep(secs));
        }
    } else {
        push_dec(&mut s, mins);
        s.append("m");
        proof {
            assert(s@ =~= uptime_rep(secs));
        }
    }
    s
}

} // verus!
