//! Scaling of a byte count to a magnitude with a unit symbol.
//!
//! A count is shown in the largest unit of `B`, `KB`, `MB`, `GB`, `TB` (steps
//! of 1000) in which its magnitude is at least one, with two decimals. The
//! magnitude is the exact quotient rounded to the nearest hundredth, a tie
//! going to the even hundredth.

use vstd::prelude::*;
use vstd::string::*;
use crate::text::{decimal, digit_char, digit_str, push_decimal};

verus! {

/// Index of the last unit, `TB`.
pub const LAST_UNIT: usize = 4;

/// The unit in which `n` bytes are shown: one step for every factor of 1000
/// that `n` reaches, up to the last unit.
pub open spec fn unit_index(n: nat) -> nat {
    if n < 1_000 {
        0
    } else if n < 1_000_000 {
        1
    } else if n < 1_000_000_000 {
        2
    } else if n < 1_000_000_000_000 {
        3
    } else {
        4
    }
}

/// The number of bytes in one unit of the given index.
pub open spec fn unit_divisor(index: nat) -> nat {
    if index == 0 {
        1
    } else if index == 1 {
        1_000
    } else if index == 2 {
        1_000_000
    } else if index == 3 {
        1_000_000_000
    } else {
        1_000_000_000_000
    }
}

/// The symbol of the unit of the given index.
pub open spec fn unit_symbol(index: nat) -> Seq<char> {
    if index == 0 {
        seq!['B']
    } else if index == 1 {
        seq!['K', 'B']
    } else if index == 2 {
        seq!['M', 'B']
    } else if index == 3 {
        seq!['G', 'B']
    } else {
        seq!['T', 'B']
    }
}

/// The integer nearest to `num / den`; of two equally near ones, the even one.
pub open spec fn round_half_even(num: nat, den: nat) -> nat
    recommends
        den > 0,
{
    let q = num / den;
    let r = num % den;
    if 2 * r < den {
        q
    } else if 2 * r > den {
        q + 1
    } else if q % 2 == 0 {
        q
    } else {
        q + 1
    }
}

/// The magnitude of `n` bytes in its unit, counted in hundredths.
pub open spec fn scaled_hundredths(n: nat) -> nat {
    round_half_even(100 * n, unit_divisor(unit_index(n)))
}

/// A value below one hundred as exactly two digits.
pub open spec fn two_digits(v: nat) -> Seq<char>
    recommends
        v < 100,
{
    seq![digit_char(v / 10), digit_char(v % 10)]
}

/// The text for `n` bytes: whole part, a point, two decimals, a space, and
/// the unit symbol.
pub open spec fn scale_bytes(n: nat) -> Seq<char> {
    let h = scaled_hundredths(n);
    decimal(h / 100) + seq!['.'] + two_digits(h % 100) + seq![' '] + unit_symbol(unit_index(n))
}

/// No bytes are shown as `0.00 B`.
pub proof fn lemma_scale_bytes_zero()
    ensures
        scale_bytes(0) == seq!['0', '.', '0', '0', ' ', 'B'],
{
    assert(scaled_hundredths(0) == 0);
    assert(scale_bytes(0) =~= seq!['0', '.', '0', '0', ' ', 'B']);
}

/// The unit of a count is the largest whose size the count reaches, and the
/// magnitude shown is the count divided by that size, off by at most half a
/// hundredth.
pub proof fn lemma_scaled_hundredths_nearest(n: nat)
    ensures
        ({
            let d = unit_divisor(unit_index(n));
            let h = scaled_hundredths(n);
            &&& unit_index(n) <= 4
            &&& unit_index(n) > 0 ==> n >= d
            &&& unit_index(n) < 4 ==> n < 1000 * d
            &&& 2 * (h * d - 100 * n) <= d
            &&& 2 * (100 * n - h * d) <= d
        }),
{
    let d = unit_divisor(unit_index(n)) as int;
    let q = (100 * n) as int / d;
    let r = (100 * n) as int % d;
    assert(100 * n == q * d + r && 0 <= r < d) by (nonlinear_arith)
        requires
            d > 0,
            q == (100 * n) as int / d,
            r == (100 * n) as int % d,
    ;
    let h = scaled_hundredths(n) as int;
    assert(h == q || h == q + 1);
    assert(h * d == q * d || h * d == q * d + d) by (nonlinear_arith)
        requires
            h == q || h == q + 1,
    ;
}

/// The symbol of a unit as a string.
fn unit_str(index: usize) -> (r: &'static str)
    requires
        index <= LAST_UNIT,
    ensures
        r@ == unit_symbol(index as nat),
{
    proof {
        reveal_strlit("B");
        reveal_strlit("KB");
        reveal_strlit("MB");
        reveal_strlit("GB");
        reveal_strlit("TB");
    }
    let r: &'static str = if index == 0 {
        "B"
    } else if index == 1 {
        "KB"
    } else if index == 2 {
        "MB"
    } else if index == 3 {
        "GB"
    } else {
        "TB"
    };
    assert(r@ =~= unit_symbol(index as nat));
    r
}

/// Splitting off whole units first does not change the rounded hundredths.
proof fn lemma_hundredths_split(n: nat, index: nat)
    requires
        index <= 4,
    ensures
        ({
            let d = unit_divisor(index);
            &&& (100 * n) / d == 100 * (n / d) + (100 * (n % d)) / d
            &&& (100 * n) % d == (100 * (n % d)) % d
        }),
{
    let d = unit_divisor(index) as int;
    let w = (n / (d as nat)) as int;
    let m = (n % (d as nat)) as int;
    assert(n == w * d + m) by (nonlinear_arith)
        requires
            d > 0,
            w == (n as int) / d,
            m == (n as int) % d,
    ;
    let q = (100 * m) / d;
    let r = (100 * m) % d;
    assert(100 * m == q * d + r && 0 <= r < d) by (nonlinear_arith)
        requires
            d > 0,
            q == (100 * m) / d,
            r == (100 * m) % d,
    ;
    assert(100 * n == (100 * w + q) * d + r) by (nonlinear_arith)
        requires
            n == w * d + m,
            100 * m == q * d + r,
    ;
    vstd::arithmetic::div_mod::lemma_fundamental_div_mod_converse(
        100 * n as int,
        d,
        100 * w + q,
        r,
    );
}

/// Renders a byte count with two decimals in the largest fitting unit.
pub fn bytes_to_human_readable(bytes: u64) -> (r: String)
    ensures
        r@ == scale_bytes(bytes as nat),
{
    let mut divisor: u64 = 1;
    let mut unit: usize = 0;
    while unit < LAST_UNIT && bytes / divisor >= 1000
        invariant
            unit <= LAST_UNIT,
            divisor == unit_divisor(unit as nat),
            unit <= unit_index(bytes as nat),
        decreases LAST_UNIT - unit,
    {
        divisor = divisor * 1000;
        unit = unit + 1;
    }
    assert(unit == unit_index(bytes as nat));
    let mut whole: u64 = bytes / divisor;
    let scaled: u64 = (bytes % divisor) * 100;
    let mut hundredths: u64 = scaled / divisor;
    let rest: u64 = scaled % divisor;
    if 2 * rest > divisor || (2 * rest == divisor && hundredths % 2 == 1) {
        hundredths = hundredths + 1;
    }
    if hundredths == 100 {
        whole = whole + 1;
        hundredths = 0;
    }
    proof {
        lemma_hundredths_split(bytes as nat, unit as nat);
        assert(whole * 100 + hundredths == scaled_hundredths(bytes as nat));
    }
    let mut r = String::new();
    push_decimal(&mut r, whole);
    r.append(".");
    r.append(digit_str(hundredths / 10));
    r.append(digit_str(hundredths % 10));
    r.append(" ");
    r.append(unit_str(unit));
    proof {
        reveal_strlit(".");
        reveal_strlit(" ");
        assert("."@ =~= seq!['.']);
        assert(" "@ =~= seq![' ']);
        let h = scaled_hundredths(bytes as nat);
        assert(h / 100 == whole && h % 100 == hundredths);
        assert(r@ =~= scale_bytes(bytes as nat));
    }
    r
}

} // verus!
