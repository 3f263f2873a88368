//! Human-relative age of a resource, measured against a caller-supplied instant.
use vstd::prelude::*;
use vstd::string::*;
use crate::text::{decimal_string, decimal_text};

verus! {

pub const SECONDS_PER_MINUTE: u64 = 60;

pub const SECONDS_PER_HOUR: u64 = 3600;

pub const SECONDS_PER_DAY: u64 = 86400;

pub const SECONDS_PER_WEEK: u64 = 604800;

/// Seconds from `created` to `now`; an instant in the future counts as no time at all.
pub open spec fn elapsed_seconds(created: int, now: int) -> nat {
    if now > created {
        (now - created) as nat
    } else {
        0
    }
}

/// `n` followed by its unit, or nothing when `n` is zero.
pub open spec fn unit_text(n: nat, unit: Seq<char>) -> Seq<char> {
    if n == 0 {
        Seq::<char>::empty()
    } else {
        decimal_text(n) + unit
    }
}

/// Whole weeks, then the remaining days and hours; minutes only for spans under a day.
/// A span under a minute reads `0m`.
pub open spec fn age_text(e: nat) -> Seq<char> {
    let weeks = e / 604800;
    let days = (e / 86400) % 7;
    let hours = (e / 3600) % 24;
    let minutes = (e / 60) % 60;
    let s = unit_text(weeks, seq!['w']) + unit_text(days, seq!['d']) + unit_text(hours, seq!['h'])
        + (if weeks == 0 && days == 0 {
        unit_text(minutes, seq!['m'])
    } else {
        Seq::<char>::empty()
    });
    if s.len() == 0 {
        seq!['0', 'm']
    } else {
        s
    }
}

/// The age shown for an optional creation instant: empty when there is none.
pub open spec fn age_of(created: Option<i64>, now: i64) -> Seq<char> {
    match created {
        Some(c) => age_text(elapsed_seconds(c as int, now as int)),
        None => Seq::<char>::empty(),
    }
}

fn append_unit(acc: String, n: u64, unit: &str) -> (r: String)
    ensures
        r@ == acc@ + unit_text(n as nat, unit@),
{
    if n == 0 {
        acc
    } else {
        let digits = decimal_string(n);
        let r = acc.concat(digits.as_str()).concat(unit);
        r
    }
}

/// Age of a resource created at `created` (seconds since the Unix epoch) as seen at `now`.
pub fn to_age(created: Option<i64>, now: i64) -> (r: String)
    ensures
        r@ == age_of(created, now),
{
    match created {
        None => String::new(),
        Some(c) => {
            let e: u64 = if now > c {
                (now as i128 - c as i128) as u64
            } else {
                0
            };
            let weeks: u64 = e / SECONDS_PER_WEEK;
            let days: u64 = (e / SECONDS_PER_DAY) % 7;
            let hours: u64 = (e / SECONDS_PER_HOUR) % 24;
            let minutes: u64 = (e / SECONDS_PER_MINUTE) % 60;
            proof {
                reveal_strlit("w");
                reveal_strlit("d");
                reveal_strlit("h");
                reveal_strlit("m");
                reveal_strlit("0m");
            }
            if weeks == 0 && days == 0 && hours == 0 && minutes == 0 {
                return String::from_str("0m");
            }
            let mut out = append_unit(String::new(), weeks, "w");
            out = append_unit(out, days, "d");
            out = append_unit(out, hours, "h");
            if weeks == 0 && days == 0 {
                out = append_unit(out, minutes, "m");
            }
            assert(out@ =~= unit_text(weeks as nat, seq!['w']) + unit_text(days as nat, seq!['d'])
                + unit_text(hours as nat, seq!['h']) + (if weeks == 0 && days == 0 {
                unit_text(minutes as nat, seq!['m'])
            } else {
                Seq::<char>::empty()
            }));
            out
        },
    }
}

} // verus!
