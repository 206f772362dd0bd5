//! The query of a poll: open alerts, and everything touched since the
//! watermark.

use crate::time::Timestamp;
use vstd::prelude::*;
use vstd::string::StringExecFns;

verus! {

/// The character of the decimal digit `d`.
pub open spec fn digit(d: int) -> char {
    if d == 0 {
        '0'
    } else if d == 1 {
        '1'
    } else if d == 2 {
        '2'
    } else if d == 3 {
        '3'
    } else if d == 4 {
        '4'
    } else if d == 5 {
        '5'
    } else if d == 6 {
        '6'
    } else if d == 7 {
        '7'
    } else if d == 8 {
        '8'
    } else {
        '9'
    }
}

/// The decimal digits of `n`, most significant first and without leading
/// zeros; `0` is the single digit `0`.
pub open spec fn decimal_digits(n: nat) -> Seq<char>
    decreases n,
{
    if n < 10 {
        seq![digit(n as int)]
    } else {
        decimal_digits(n / 10).push(digit((n % 10) as int))
    }
}

/// `n` in decimal, with a leading `-` where it is negative.
pub open spec fn decimal(n: int) -> Seq<char> {
    if n < 0 {
        seq!['-'] + decimal_digits((-n) as nat)
    } else {
        decimal_digits(n as nat)
    }
}

/// What every query begins with; the watermark's seconds follow it.
pub open spec fn query_prefix() -> Seq<char> {
    "status: open OR updatedAt >= "@
}

/// The query that asks for every open alert, whatever its age, and for every
/// alert updated at or after the second `since` of the Unix epoch.
pub open spec fn query_text(since: int) -> Seq<char> {
    query_prefix() + decimal(since)
}

/// The instant from which a poll asks for updates: the latest update seen so
/// far, or, where there is none, `history_days` days before `now`.
pub open spec fn watermark_of(latest: Option<Timestamp>, now: Timestamp, history_days: int)
    -> Timestamp {
    match latest {
        Some(t) => t,
        None => now.minus_days(history_days),
    }
}

fn digit_text(d: u64) -> (text: &'static str)
    requires
        d < 10,
    ensures
        text@ == seq![digit(d as int)],
{
    proof {
        reveal_strlit("0");
        reveal_strlit("1");
        reveal_strlit("2");
        reveal_strlit("3");
        reveal_strlit("4");
        reveal_strlit("5");
        reveal_strlit("6");
        reveal_strlit("7");
        reveal_strlit("8");
        reveal_strlit("9");
    }
    let text = if d == 0 {
        "0"
    } else if d == 1 {
        "1"
    } else if d == 2 {
        "2"
    } else if d == 3 {
        "3"
    } else if d == 4 {
        "4"
    } else if d == 5 {
        "5"
    } else if d == 6 {
        "6"
    } else if d == 7 {
        "7"
    } else if d == 8 {
        "8"
    } else {
        "9"
    };
    assert(text@ =~= seq![digit(d as int)]);
    text
}

fn digits_text(n: u64) -> (text: String)
    ensures
        text@ == decimal_digits(n as nat),
{
    let mut text = String::from_str(digit_text(n % 10));
    let mut rest: u64 = n / 10;
    proof {
        if rest > 0 {
            assert(decimal_digits(n as nat) =~= decimal_digits(rest as nat) + text@);
        }
    }
    while rest > 0
        invariant
            rest > 0 ==> decimal_digits(n as nat) == decimal_digits(rest as nat) + text@,
            rest == 0 ==> decimal_digits(n as nat) == text@,
        decreases rest,
    {
        let ghost tail = text@;
        let head = String::from_str(digit_text(rest % 10));
        text = head.concat(text.as_str());
        proof {
            let next = (rest / 10) as nat;
            if next > 0 {
                assert(decimal_digits(rest as nat) == decimal_digits(next).push(
                    digit((rest % 10) as int),
                ));
                assert(decimal_digits(rest as nat) + tail =~= decimal_digits(next) + text@);
            } else {
                assert(decimal_digits(rest as nat) + tail =~= text@);
            }
        }
        rest = rest / 10;
    }
    text
}

/// `n` in decimal.
pub fn decimal_text(n: i64) -> (text: String)
    ensures
        text@ == decimal(n as int),
{
    if n < 0 {
        // -(n + 1) fits for every negative n, i64::MIN included
        let magnitude: u64 = (-(n + 1)) as u64 + 1;
        proof {
            reveal_strlit("-");
            assert("-"@ =~= seq!['-']);
        }
        String::from_str("-").concat(digits_text(magnitude).as_str())
    } else {
        digits_text(n as u64)
    }
}

/// The query of a poll whose watermark is `watermark`: the service compares
/// update times by whole seconds, so the watermark's nanoseconds play no part.
pub fn query_for(watermark: Timestamp) -> (query: String)
    ensures
        query@ == query_text(watermark.secs as int),
{
    String::from_str("status: open OR updatedAt >= ").concat(decimal_text(watermark.secs).as_str())
}

/// The instant from which a poll asks for updates: `latest` where there is
/// one, else `history_days` days before `now`.
pub fn watermark(latest: Option<Timestamp>, now: Timestamp, history_days: u8) -> (w: Timestamp)
    requires
        latest is None ==> now.secs - crate::time::SECONDS_PER_DAY * history_days >= i64::MIN,
    ensures
        w == watermark_of(latest, now, history_days as int),
{
    match latest {
        Some(t) => t,
        None => now.days_before(history_days),
    }
}

} // verus!
