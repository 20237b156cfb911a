//! Wall-clock access and time rendering: relative ages and the
//! time-of-day form of a timestamp.
//!
//! The single trusted item here reads the current time; everything that
//! turns seconds into display text is verified.

use vstd::prelude::*;
use vstd::string::StrSliceExecFns;
use vstd::string::StringExecFns;
use vstd::arithmetic::div_mod::lemma_fundamental_div_mod;
use vstd::arithmetic::div_mod::lemma_fundamental_div_mod_converse;
use crate::text::dec_chars;
use crate::text::dec_digit;
use crate::text::digit_literal;
use crate::text::u64_to_string;

verus! {

/// Relies on chrono::Utc::now, reduced to whole seconds since the Unix
/// epoch. The clock can return anything, so nothing is promised; the
/// call itself aborts on a machine whose clock reads before the epoch.
#[verifier::external_body]
pub(crate) fn now_timestamp() -> i64 {
    chrono::Utc::now().timestamp()
}

/// `a - b`, clamped into the range of `i64`.
pub open spec fn sat_sub_i64(a: int, b: int) -> int {
    if a - b > i64::MAX {
        i64::MAX as int
    } else if a - b < i64::MIN {
        i64::MIN as int
    } else {
        a - b
    }
}

/// Saturating subtraction on `i64` values.
pub fn saturating_sub_i64(a: i64, b: i64) -> (r: i64)
    ensures
        r as int == sat_sub_i64(a as int, b as int),
{
    match a.checked_sub(b) {
        Some(d) => d,
        None => {
            if b < 0 {
                i64::MAX
            } else {
                i64::MIN
            }
        },
    }
}

/// A short age, as a container row shows it: whole days, else whole
/// hours, else whole minutes, else "just now".
pub open spec fn spec_relative_short(delta: int) -> Seq<char> {
    if delta / 86400 > 0 {
        dec_chars((delta / 86400) as nat) + "d ago"@
    } else if delta / 3600 > 0 {
        dec_chars((delta / 3600) as nat) + "h ago"@
    } else if delta / 60 > 0 {
        dec_chars((delta / 60) as nat) + "m ago"@
    } else {
        "just now"@
    }
}

/// `a / b >= k` exactly when `a >= k * b`, for a positive divisor.
proof fn lemma_div_at_least(a: int, b: int, k: int)
    requires
        b > 0,
        k >= 0,
    ensures
        (a / b >= k) <==> (a >= k * b),
{
    vstd::arithmetic::div_mod::lemma_fundamental_div_mod(a, b);
    let q = a / b;
    let r = a % b;
    vstd::arithmetic::div_mod::lemma_mod_bound(a, b);
    if q >= k {
        assert(a == b * q + r);
        assert(b * q >= k * b) by (nonlinear_arith)
            requires
                q >= k,
                b > 0,
        ;
    } else {
        assert(a == b * q + r);
        assert(b * q <= (k - 1) * b) by (nonlinear_arith)
            requires
                q <= k - 1,
                b > 0,
        ;
        assert((k - 1) * b + r < k * b) by (nonlinear_arith)
            requires
                r < b,
                b > 0,
        ;
    }
}

/// Renders a short age from a difference in seconds.
pub fn format_relative_short(delta_secs: i64) -> (r: String)
    ensures
        r@ == spec_relative_short(delta_secs as int),
{
    proof {
        lemma_div_at_least(delta_secs as int, 86400, 1);
        lemma_div_at_least(delta_secs as int, 3600, 1);
        lemma_div_at_least(delta_secs as int, 60, 1);
    }
    if delta_secs >= 86400 {
        let n = (delta_secs as u64) / 86400;
        u64_to_string(n).concat("d ago")
    } else if delta_secs >= 3600 {
        let n = (delta_secs as u64) / 3600;
        u64_to_string(n).concat("h ago")
    } else if delta_secs >= 60 {
        let n = (delta_secs as u64) / 60;
        u64_to_string(n).concat("m ago")
    } else {
        "just now".to_owned()
    }
}

/// A count with its (possibly pluralized) unit, e.g. "3 weeks ago".
pub open spec fn spec_count_noun(n: nat, noun: Seq<char>) -> Seq<char> {
    dec_chars(n) + noun + (if n > 1 {
        "s ago"@
    } else {
        " ago"@
    })
}

/// A long age, as the image, network and volume rows show it: months,
/// else weeks, else days, else hours, else "just now".
pub open spec fn spec_relative_long(delta: int) -> Seq<char> {
    let days = delta / 86400;
    let hours = delta / 3600;
    if days >= 30 {
        spec_count_noun((days / 30) as nat, " month"@)
    } else if days >= 7 {
        spec_count_noun((days / 7) as nat, " week"@)
    } else if days > 0 {
        spec_count_noun(days as nat, " day"@)
    } else if hours > 0 {
        spec_count_noun(hours as nat, " hour"@)
    } else {
        "just now"@
    }
}

/// Builds `"<n><noun>[s] ago"`.
fn count_noun(n: u64, noun: &str) -> (r: String)
    ensures
        r@ == spec_count_noun(n as nat, noun@),
{
    let mut r = u64_to_string(n);
    r.append(noun);
    if n > 1 {
        r.append("s ago");
    } else {
        r.append(" ago");
    }
    r
}

/// Renders a long age from a difference in seconds.
pub fn format_relative_long(delta_secs: i64) -> (r: String)
    ensures
        r@ == spec_relative_long(delta_secs as int),
{
    proof {
        lemma_div_at_least(delta_secs as int, 86400, 30);
        lemma_div_at_least(delta_secs as int, 86400, 7);
        lemma_div_at_least(delta_secs as int, 86400, 1);
        lemma_div_at_least(delta_secs as int, 3600, 1);
    }
    if delta_secs >= 2592000 {
        let n = (delta_secs as u64) / 86400 / 30;
        count_noun(n, " month")
    } else if delta_secs >= 604800 {
        let n = (delta_secs as u64) / 86400 / 7;
        count_noun(n, " week")
    } else if delta_secs >= 86400 {
        let n = (delta_secs as u64) / 86400;
        count_noun(n, " day")
    } else if delta_secs >= 3600 {
        let n = (delta_secs as u64) / 3600;
        count_noun(n, " hour")
    } else {
        "just now".to_owned()
    }
}

/// Two decimal digits, zero padded (meaningful for `0 <= n < 100`).
pub open spec fn spec_two_digits(n: int) -> Seq<char> {
    seq![dec_digit((n / 10) as nat), dec_digit((n % 10) as nat)]
}

/// A time of day, given as seconds into the day, as `HH:MM:SS`.
pub open spec fn spec_clock_text(tod: int) -> Seq<char> {
    spec_two_digits(tod / 3600) + ":"@ + spec_two_digits((tod % 3600) / 60) + ":"@
        + spec_two_digits(tod % 60)
}

/// The time of day of a nanosecond timestamp, as `HH:MM:SS` in UTC.
/// A negative timestamp that is not a whole second has no valid
/// second/nanosecond split, so it renders as no text at all.
pub open spec fn spec_format_timestamp(ns: int) -> Seq<char> {
    if ns >= 0 || ns % 1000000000 == 0 {
        spec_clock_text((ns / 1000000000) % 86400)
    } else {
        Seq::empty()
    }
}

/// Builds two zero-padded decimal digits.
fn two_digits(n: u64) -> (r: String)
    requires
        n < 100,
    ensures
        r@ == spec_two_digits(n as int),
{
    let mut r = digit_literal((n / 10) as u8).to_owned();
    r.append(digit_literal((n % 10) as u8));
    proof {
        assert(r@ =~= spec_two_digits(n as int));
    }
    r
}

/// Builds `HH:MM:SS` from a time of day in seconds.
fn clock_text(tod: u64) -> (r: String)
    requires
        tod < 86400,
    ensures
        r@ == spec_clock_text(tod as int),
{
    let mut r = two_digits(tod / 3600);
    r.append(":");
    let minutes = two_digits((tod % 3600) / 60);
    r.append(minutes.as_str());
    r.append(":");
    let seconds = two_digits(tod % 60);
    r.append(seconds.as_str());
    r
}

/// Renders the time of day of a log entry's nanosecond timestamp.
pub fn format_timestamp(timestamp_ns: i64) -> (r: String)
    ensures
        r@ == spec_format_timestamp(timestamp_ns as int),
{
    if timestamp_ns >= 0 {
        let total = (timestamp_ns as u64) / 1000000000;
        let tod = total % 86400;
        clock_text(tod)
    } else {
        let m: u64 = ((-(timestamp_ns + 1)) as u64) + 1;
        proof {
            assert(m as int == -(timestamp_ns as int));
        }
        let rem = m % 1000000000;
        let k = m / 1000000000;
        if rem != 0 {
            proof {
                let b: int = 1000000000;
                let ki = k as int;
                lemma_fundamental_div_mod(m as int, b);
                assert((timestamp_ns as int) == (-ki - 1) * b + (b - rem)) by (nonlinear_arith)
                    requires
                        (m as int) == b * ki + rem,
                        (timestamp_ns as int) == -(m as int),
                        b == 1000000000,
                ;
                lemma_fundamental_div_mod_converse(
                    timestamp_ns as int,
                    b,
                    -ki - 1,
                    b - rem,
                );
            }
            return String::new();
        }
        let t = k % 86400;
        let tod: u64 = if t == 0 {
            0
        } else {
            86400 - t
        };
        proof {
            let b: int = 1000000000;
            let d: int = 86400;
            let ki = k as int;
            lemma_fundamental_div_mod(m as int, b);
            assert((timestamp_ns as int) == (-ki) * b + 0) by (nonlinear_arith)
                requires
                    (m as int) == b * ki + rem,
                    rem == 0,
                    (timestamp_ns as int) == -(m as int),
            ;
            lemma_fundamental_div_mod_converse(timestamp_ns as int, b, -ki, 0);
            lemma_fundamental_div_mod(ki, d);
            let u = ki / d;
            if t == 0 {
                assert(-ki == (-u) * d + 0) by (nonlinear_arith)
                    requires
                        ki == d * u + (t as int),
                        t == 0,
                ;
                lemma_fundamental_div_mod_converse(-ki, d, -u, 0);
            } else {
                assert(-ki == (-u - 1) * d + (d - t)) by (nonlinear_arith)
                    requires
                        ki == d * u + (t as int),
                ;
                lemma_fundamental_div_mod_converse(-ki, d, -u - 1, d - t);
            }
            assert((-ki) % d == tod as int);
        }
        clock_text(tod)
    }
}

} // verus!
