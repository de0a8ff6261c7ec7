//! Rendering of an uptime in seconds as days, hours, minutes and seconds.
//!
//! A unit is shown once it or a more significant unit is non-zero; the
//! seconds are always shown.

use vstd::prelude::*;
use vstd::string::*;
use crate::text::{decimal, push_decimal};

verus! {

pub const SECONDS_PER_MINUTE: u64 = 60;

pub const SECONDS_PER_HOUR: u64 = 3600;

pub const SECONDS_PER_DAY: u64 = 86400;

/// Whole days in `total` seconds.
pub open spec fn uptime_days(total: nat) -> nat {
    total / 86400
}

/// Hours left after the whole days.
pub open spec fn uptime_hours(total: nat) -> nat {
    (total % 86400) / 3600
}

/// Minutes left after the whole hours.
pub open spec fn uptime_minutes(total: nat) -> nat {
    (total % 3600) / 60
}

/// Seconds left after the whole minutes.
pub open spec fn uptime_seconds(total: nat) -> nat {
    total % 60
}

/// One component of the text: the numeral of `value`, the unit letter, and a
/// space; or nothing where the component is not shown.
pub open spec fn uptime_part(shown: bool, value: nat, unit: char) -> Seq<char> {
    if shown {
        decimal(value) + seq![unit, ' ']
    } else {
        Seq::empty()
    }
}

/// The text for an uptime of `total` seconds.
pub open spec fn uptime_text(total: nat) -> Seq<char> {
    let days = uptime_days(total);
    let hours = uptime_hours(total);
    let minutes = uptime_minutes(total);
    uptime_part(days > 0, days, 'd') + uptime_part(days > 0 || hours > 0, hours, 'h')
        + uptime_part(days > 0 || hours > 0 || minutes > 0, minutes, 'm') + decimal(
        uptime_seconds(total),
    ) + seq!['s']
}

/// The four components add up to the total, and each but the days stays
/// within its unit.
pub proof fn lemma_uptime_decomposition(total: nat)
    ensures
        total == uptime_days(total) * 86400 + uptime_hours(total) * 3600 + uptime_minutes(total)
            * 60 + uptime_seconds(total),
        uptime_hours(total) < 24,
        uptime_minutes(total) < 60,
        uptime_seconds(total) < 60,
{
}

/// Renders an uptime given in seconds.
pub fn format_uptime(total_seconds: u64) -> (r: String)
    ensures
        r@ == uptime_text(total_seconds as nat),
{
    let days: u64 = total_seconds / SECONDS_PER_DAY;
    let hours: u64 = (total_seconds % SECONDS_PER_DAY) / SECONDS_PER_HOUR;
    let minutes: u64 = (total_seconds % SECONDS_PER_HOUR) / SECONDS_PER_MINUTE;
    let seconds: u64 = total_seconds % SECONDS_PER_MINUTE;
    proof {
        reveal_strlit("d ");
        reveal_strlit("h ");
        reveal_strlit("m ");
        reveal_strlit("s");
        assert("d "@ =~= seq!['d', ' ']);
        assert("h "@ =~= seq!['h', ' ']);
        assert("m "@ =~= seq!['m', ' ']);
        assert("s"@ =~= seq!['s']);
    }
    let mut r = String::new();
    if days > 0 {
        push_decimal(&mut r, days);
        r.append("d ");
    }
    assert(r@ =~= uptime_part(days > 0, days as nat, 'd'));
    if days > 0 || hours > 0 {
        push_decimal(&mut r, hours);
        r.append("h ");
    }
    if days > 0 || hours > 0 || minutes > 0 {
        push_decimal(&mut r, minutes);
        r.append("m ");
    }
    push_decimal(&mut r, seconds);
    r.append("s");
    assert(r@ =~= uptime_text(total_seconds as nat));
    r
}

} // verus!
