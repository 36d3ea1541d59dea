//! Lengths of time in words: "a minute ago", "3 days ago".

use std::borrow::Cow;
use std::time::Duration;
use vstd::arithmetic::div_mod::*;
use vstd::prelude::*;
use vstd::string::StringExecFns;

verus! {

/// Seconds in a minute.
pub const MINUTE: u64 = 60;

/// Seconds in an hour.
pub const HOUR: u64 = 3_600;

/// Seconds in a day.
pub const DAY: u64 = 86_400;

/// Seconds in a month, which counts thirty days. A year counts twelve months.
pub const MONTH: u64 = 2_592_000;

/// The whole seconds of a duration.
pub uninterp spec fn seconds(d: Duration) -> u64;

/// `Duration::as_secs`: the number of whole seconds that the duration holds.
pub assume_specification[ Duration::as_secs ](d: &Duration) -> (secs: u64)
    ensures
        secs == seconds(*d),
;

/// `n / d`, rounded up.
pub open spec fn div_ceil(n: nat, d: nat) -> nat {
    if n % d == 0 {
        n / d
    } else {
        n / d + 1
    }
}

/// `n / d`, rounded to the nearest whole number; a quotient half way between
/// two whole numbers goes to the even one.
pub open spec fn div_round(n: nat, d: nat) -> nat {
    if 2 * (n % d) > d || (2 * (n % d) == d && (n / d) % 2 == 1) {
        n / d + 1
    } else {
        n / d
    }
}

/// The weight of the last of the 24 leading bits of `n`: `1` below `2^24`,
/// and doubling with every further bit.
pub open spec fn grain(n: nat) -> nat
    decreases n,
{
    if n < 0x100_0000 {
        1
    } else {
        2 * grain(n / 2)
    }
}

/// `n` kept to its 24 leading bits, rounded to the nearest such number (to the
/// one with the even 24th bit when half way): `n` as single precision holds
/// it.
pub open spec fn coarse(n: nat) -> nat {
    div_round(n, grain(n)) * grain(n)
}

/// `n / d` as single precision gives it, counted in 64ths: the quotient kept
/// to its 24 leading bits, rounded to the nearest (to the even 24th bit when
/// half way). It is meant for `n` of `2^23` and more and `d` up to 64, which
/// leaves the quotient in 64ths its 24 bits.
pub open spec fn single_div(n: nat, d: nat) -> nat {
    div_round(64 * n, d * grain(64 * n / d)) * grain(64 * n / d)
}

/// The months in `secs` seconds, as single precision counts them: the
/// seconds are held in 24 leading bits and divided by 30, 24, 60 and 60, one
/// after another; the last quotient is rounded to the nearest whole number
/// (to the even one when half way).
pub open spec fn months(secs: nat) -> nat {
    div_round(
        single_div(single_div(single_div(single_div(coarse(secs) * 0x100_0000, 30), 24), 60), 60),
        0x1_0000_0000_0000,
    )
}

/// The years in `secs` seconds, as single precision counts them: the seconds
/// are held in 24 leading bits and divided by 12, 30, 24, 60 and 60, one
/// after another; the last quotient is rounded to the nearest whole number
/// (to the even one when half way).
pub open spec fn years(secs: nat) -> nat {
    div_round(
        single_div(
            single_div(
                single_div(single_div(single_div(coarse(secs) * 0x100_0000, 12), 30), 24),
                60,
            ),
            60,
        ),
        0x40_0000_0000_0000,
    )
}

/// The decimal digit `d`.
pub open spec fn digit(d: nat) -> char {
    if d == 0 {
        '0'
    } else if d == 1 {
        '1'
    } else if d == 2 {
        '2'
    } else if d == 3 {
        '3'
    } else if d == 4 {
        '4'
    } else if d == 5 {
        '5'
    } else if d == 6 {
        '6'
    } else if d == 7 {
        '7'
    } else if d == 8 {
        '8'
    } else {
        '9'
    }
}

/// `n` in decimal, without leading zeros.
pub open spec fn decimal(n: nat) -> Seq<char>
    decreases n,
{
    if n < 10 {
        seq![digit(n)]
    } else {
        decimal(n / 10).push(digit(n % 10))
    }
}

/// The words for a span of `secs` seconds.
///
/// Up to 44 seconds are "a few seconds", up to 89 "a minute"; then minutes,
/// up to 44 of them; up to 89 minutes are "an hour"; then hours, up to 21;
/// up to 35 hours are "a day"; then days, up to 25; up to 45 days are "a
/// month"; then months, up to 10; up to 17 months are "a year"; then years.
/// Minutes, hours and days are rounded up. Months and years are rounded to
/// the nearest, and counted in single precision.
pub open spec fn ago(secs: u64) -> Seq<char> {
    let n = secs as nat;
    if secs <= 44 {
        "a few seconds ago"@
    } else if secs <= 89 {
        "a minute ago"@
    } else if secs <= 44 * MINUTE {
        decimal(div_ceil(n, MINUTE as nat)) + " minutes ago"@
    } else if secs <= 89 * MINUTE {
        "an hour ago"@
    } else if secs <= 21 * HOUR {
        decimal(div_ceil(n, HOUR as nat)) + " hours ago"@
    } else if secs <= 35 * HOUR {
        "a day ago"@
    } else if secs <= 25 * DAY {
        decimal(div_ceil(n, DAY as nat)) + " days ago"@
    } else if secs <= 45 * DAY {
        "a month ago"@
    } else if secs <= 10 * MONTH {
        decimal(months(n)) + " months ago"@
    } else if secs <= 17 * MONTH {
        "a year ago"@
    } else {
        decimal(years(n)) + " years ago"@
    }
}

/// Says in words how long ago something happened that lies `d` in the past.
pub fn format_ago(d: Duration) -> (text: Cow<'static, str>)
    ensures
        text@ == ago(seconds(d)),
{
    ago_text(d.as_secs())
}

/// Says in words how long ago something happened that lies `x` seconds in
/// the past.
pub fn ago_text(x: u64) -> (text: Cow<'static, str>)
    ensures
        text@ == ago(x),
{
    if x <= 44 {
        Cow::Borrowed("a few seconds ago")
    } else if x <= 89 {
        Cow::Borrowed("a minute ago")
    } else if x <= 44 * MINUTE {
        Cow::Owned(counted(ceil_div(x, MINUTE) as u128, " minutes ago"))
    } else if x <= 89 * MINUTE {
        Cow::Borrowed("an hour ago")
    } else if x <= 21 * HOUR {
        Cow::Owned(counted(ceil_div(x, HOUR) as u128, " hours ago"))
    } else if x <= 35 * HOUR {
        Cow::Borrowed("a day ago")
    } else if x <= 25 * DAY {
        Cow::Owned(counted(ceil_div(x, DAY) as u128, " days ago"))
    } else if x <= 45 * DAY {
        Cow::Borrowed("a month ago")
    } else if x <= 10 * MONTH {
        Cow::Owned(counted(count_months(x), " months ago"))
    } else if x <= 17 * MONTH {
        Cow::Borrowed("a year ago")
    } else {
        Cow::Owned(counted(count_years(x), " years ago"))
    }
}

/// The text of `text` as a `String` of its own.
pub fn owned(text: Cow<'static, str>) -> (s: String)
    ensures
        s@ == text@,
{
    match text {
        Cow::Borrowed(b) => String::from_str(b),
        Cow::Owned(o) => o,
    }
}

/// `n` in decimal, followed by `unit`.
fn counted(n: u128, unit: &str) -> (text: String)
    ensures
        text@ == decimal(n as nat) + unit@,
{
    let mut text = to_decimal(n);
    text.append(unit);
    text
}

/// `n / d`, rounded up.
fn ceil_div(n: u64, d: u64) -> (q: u64)
    requires
        d > 0,
    ensures
        q == div_ceil(n as nat, d as nat),
{
    if n % d == 0 {
        n / d
    } else {
        assert(n / d < n) by {
            lemma_ceil_fits(n as int, d as int);
        }
        n / d + 1
    }
}

proof fn lemma_ceil_fits(n: int, d: int)
    requires
        0 <= n,
        0 < d,
        n % d != 0,
    ensures
        n / d < n,
{
    lemma_fundamental_div_mod(n, d);
    lemma_mod_bound(n, d);
    assert(d * (n / d) >= n / d) by (nonlinear_arith)
        requires
            d >= 1,
            n / d >= 0,
    ;
}

/// `n / d`, rounded to the nearest whole number, half way to the even one.
fn round_div(n: u128, d: u128) -> (q: u128)
    requires
        d > 0,
        n < u128::MAX,
    ensures
        q == div_round(n as nat, d as nat),
        q <= n / d + 1,
{
    let whole = n / d;
    let rest = n % d;
    assert(whole <= n) by {
        lemma_fundamental_div_mod(n as int, d as int);
        assert(d * whole >= whole) by (nonlinear_arith)
            requires
                d >= 1,
                whole >= 0,
        ;
    }
    if rest > d - rest || (rest == d - rest && whole % 2 == 1) {
        whole + 1
    } else {
        whole
    }
}

/// The grain of `n`, and how many grains `n` holds.
fn grain_of(n: u128) -> (r: (u128, u128))
    ensures
        r.0 == grain(n as nat),
        r.1 == n / r.0,
        r.0 >= 1,
        r.1 < 0x100_0000,
        r.0 > 1 ==> r.1 >= 0x80_0000,
        r.0 * r.1 <= n,
{
    let mut unit: u128 = 1;
    let mut lead: u128 = n;
    while lead >= 0x100_0000
        invariant
            grain(n as nat) == unit * grain(lead as nat),
            unit * lead <= n < unit * (lead + 1),
            1 <= unit,
            unit > 1 ==> lead >= 0x80_0000,
        decreases lead,
    {
        assert(unit < 0x100_0000_0000_0000_0000_0000_0000) by (nonlinear_arith)
            requires
                unit * lead <= n,
                lead >= 0x100_0000,
                n < 0x1_0000_0000_0000_0000_0000_0000_0000_0000,
        ;
        assert(2 * unit * (lead / 2) <= unit * lead && unit * (lead + 1) <= 2 * unit * (lead / 2
            + 1)) by (nonlinear_arith)
            requires
                unit >= 0,
                lead >= 0,
        ;
        assert(unit * grain(lead as nat) == 2 * unit * grain((lead / 2) as nat))
            by (nonlinear_arith)
            requires
                grain(lead as nat) == 2 * grain((lead / 2) as nat),
        ;
        unit = unit * 2;
        lead = lead / 2;
    }
    assert(unit == grain(n as nat)) by (nonlinear_arith)
        requires
            grain(n as nat) == unit * grain(lead as nat),
            grain(lead as nat) == 1,
    ;
    assert(lead == n / unit) by {
        assert(unit * (lead + 1) == lead * unit + unit && unit * lead == lead * unit)
            by (nonlinear_arith);
        lemma_fundamental_div_mod_converse(n as int, unit as int, lead as int, n - lead * unit);
    }
    (unit, lead)
}

/// `n` kept to its 24 leading bits, rounded to the nearest.
fn coarsen(n: u64) -> (c: u128)
    ensures
        c == coarse(n as nat),
        c <= 0x2_0000_0000_0000_0000,
{
    let (unit, lead) = grain_of(n as u128);
    let count = round_div(n as u128, unit);
    assert(unit <= 0x200_0000_0000) by (nonlinear_arith)
        requires
            unit * lead <= n,
            unit > 1 ==> lead >= 0x80_0000,
            n < 0x1_0000_0000_0000_0000,
            unit >= 1,
    ;
    assert(count * unit <= 0x2_0000_0000_0000_0000) by (nonlinear_arith)
        requires
            count <= 0x100_0000,
            0 <= unit <= 0x200_0000_0000,
    ;
    count * unit
}

/// `n / d` in single precision, counted in 64ths.
fn divide(n: u128, d: u128) -> (r: u128)
    requires
        n <= 0x100_0000_0000_0000_0000_0000_0000_0000,
        2 <= d <= 64,
    ensures
        r == single_div(n as nat, d as nat),
        r <= 64 * n + 1,
{
    let p = 64 * n;
    let whole = p / d;
    let (unit, lead) = grain_of(whole);
    assert(whole <= 32 * n) by {
        lemma_fundamental_div_mod(p as int, d as int);
        assert(whole <= 32 * n) by (nonlinear_arith)
            requires
                p == d * whole + p % d,
                p % d >= 0,
                d >= 2,
                p == 64 * n,
                whole >= 0,
        ;
    }
    assert(unit * 0x80_0000 <= whole || unit == 1) by (nonlinear_arith)
        requires
            unit * lead <= whole,
            unit > 1 ==> lead >= 0x80_0000,
            unit >= 1,
    ;
    assert(0 < d * unit <= 64 * unit) by (nonlinear_arith)
        requires
            2 <= d <= 64,
            unit >= 1,
    ;
    let count = round_div(p, d * unit);
    assert(p as int / (d * unit) == lead) by {
        lemma_div_denominator(p as int, d as int, unit as int);
    }
    assert(count * unit <= whole + unit) by (nonlinear_arith)
        requires
            count <= lead + 1,
            unit * lead <= whole,
            unit >= 0,
    ;
    count * unit
}

/// The months in `secs` seconds, in single precision.
fn count_months(secs: u64) -> (n: u128)
    ensures
        n == months(secs as nat),
{
    let held = coarsen(secs) * 0x100_0000;
    round_div(divide(divide(divide(divide(held, 30), 24), 60), 60), 0x1_0000_0000_0000)
}

/// The years in `secs` seconds, in single precision.
fn count_years(secs: u64) -> (n: u128)
    ensures
        n == years(secs as nat),
{
    let held = coarsen(secs) * 0x100_0000;
    round_div(
        divide(divide(divide(divide(divide(held, 12), 30), 24), 60), 60),
        0x40_0000_0000_0000,
    )
}

/// The text of one decimal digit.
fn digit_text(d: u128) -> (text: &'static str)
    requires
        d < 10,
    ensures
        text@ == seq![digit(d as nat)],
{
    proof {
        reveal_strlit("0");
        reveal_strlit("1");
        reveal_strlit("2");
        reveal_strlit("3");
        reveal_strlit("4");
        reveal_strlit("5");
        reveal_strlit("6");
        reveal_strlit("7");
        reveal_strlit("8");
        reveal_strlit("9");
    }
    let text = if d == 0 {
        "0"
    } else if d == 1 {
        "1"
    } else if d == 2 {
        "2"
    } else if d == 3 {
        "3"
    } else if d == 4 {
        "4"
    } else if d == 5 {
        "5"
    } else if d == 6 {
        "6"
    } else if d == 7 {
        "7"
    } else if d == 8 {
        "8"
    } else {
        "9"
    };
    text
}

/// `n` in decimal, without leading zeros.
fn to_decimal(n: u128) -> (text: String)
    ensures
        text@ == decimal(n as nat),
    decreases n,
{
    if n < 10 {
        String::from_str(digit_text(n))
    } else {
        let mut text = to_decimal(n / 10);
        text.append(digit_text(n % 10));
        text
    }
}

} // verus!
