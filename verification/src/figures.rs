//! Token counts, shares and ages as the window shows them.
//!
//! Scaled counts and percentages go through double precision: a number is
//! first rounded to the nearest double, of two to the even one, a quotient
//! likewise, and what is shown is the nearest decimal of that double. All of
//! it is done here in integers.
use vstd::prelude::*;

use crate::text::{cat, cat3, decimal, digit, digit_char, i64_text, signed_decimal, u64_text};

verus! {

// ---------------------------------------------------------------------
// Rounding to doubles
// ---------------------------------------------------------------------

/// The whole number nearest to `a / b`, and of two the even one.
pub open spec fn nearest(a: nat, b: nat) -> nat {
    let q = a / b;
    let r = a % b;
    if 2 * r < b || (2 * r == b && q % 2 == 0) {
        q
    } else {
        q + 1
    }
}

/// The distance between neighbouring doubles from `n` on.
pub open spec fn spacing(n: nat) -> nat
    decreases n,
{
    if n < 0x20_0000_0000_0000 {
        1
    } else {
        2 * spacing(n / 2)
    }
}

/// The double nearest to a whole number.
pub open spec fn as_double(n: nat) -> nat {
    nearest(n, spacing(n)) * spacing(n)
}

/// The double nearest to `a / b`, as a fraction `m / p` where `p` is a power of
/// two: `a` and `p` are doubled until the quotient has 53 bits.
pub open spec fn double_quotient(a: nat, b: nat, p: nat) -> (nat, nat)
    decreases 0x20_0000_0000_0000 * b - a,
{
    if a == 0 || a >= 0x10_0000_0000_0000 * b {
        (nearest(a, b), p)
    } else {
        double_quotient(2 * a, b, 2 * p)
    }
}

proof fn nearest_bounds(a: nat, b: nat)
    requires
        b > 0,
    ensures
        a / b <= nearest(a, b) <= a / b + 1,
        nearest(a, b) * b <= a + b,
        2 * (nearest(a, b) * b) <= 2 * a + b,
        2 * a <= 2 * (nearest(a, b) * b) + b,
        nearest(a, b) <= a,
{
    let q = a / b;
    let r = a % b;
    vstd::arithmetic::div_mod::lemma_fundamental_div_mod(a as int, b as int);
    assert(b * q == q * b) by (nonlinear_arith);
    assert((q + 1) * b == q * b + b) by (nonlinear_arith);
    if r == 0 {
        assert(nearest(a, b) == q);
    }
    assert(nearest(a, b) <= a) by {
        if b == 1 {
            assert(r == 0);
            assert(q * 1 == q) by (nonlinear_arith);
        } else if r > 0 || q > 0 {
            assert(q + 1 <= q * b + r) by (nonlinear_arith)
                requires
                    b >= 2,
                    r > 0 || q > 0,
                    q >= 0,
                    r >= 0,
            ;
        }
    }
}

fn nearest_of(a: u128, b: u128) -> (r: u128)
    requires
        b > 0,
    ensures
        r == nearest(a as nat, b as nat),
{
    let q = a / b;
    let r = a % b;
    proof {
        nearest_bounds(a as nat, b as nat);
    }
    if r < b - r || (r == b - r && q % 2 == 0) {
        q
    } else {
        q + 1
    }
}

proof fn spacing_bounds(n: nat)
    ensures
        1 <= spacing(n),
        spacing(n) == 1 || spacing(n) * 0x10_0000_0000_0000 <= n,
    decreases n,
{
    if n >= 0x20_0000_0000_0000 {
        spacing_bounds(n / 2);
    }
}

fn spacing_of(n: u128) -> (r: u128)
    ensures
        r == spacing(n as nat),
        1 <= r,
        r == 1 || r <= n,
    decreases n,
{
    if n < 0x20_0000_0000_0000 {
        1
    } else {
        2 * spacing_of(n / 2)
    }
}

fn as_double_of(n: u128) -> (r: u128)
    requires
        n < 0x40_0000_0000_0000_0000_0000_0000_0000,
    ensures
        r == as_double(n as nat),
        r <= 2 * n,
        n > 0 ==> r > 0,
{
    let u = spacing_of(n);
    let m = nearest_of(n, u);
    proof {
        nearest_bounds(n as nat, u as nat);
        double_is_close(n as nat);
        if n > 0 {
            spacing_bounds(n as nat);
            double_is_positive(n as nat);
        }
    }
    m * u
}

/// Rounding to a double moves a number by at most half the distance between
/// doubles; below 2^53 it does not move it at all.
pub proof fn double_is_close(n: nat)
    ensures
        2 * as_double(n) <= 2 * n + spacing(n),
        2 * n <= 2 * as_double(n) + spacing(n),
        n < 0x20_0000_0000_0000 ==> as_double(n) == n,
{
    spacing_bounds(n);
    nearest_bounds(n, spacing(n));
    if n < 0x20_0000_0000_0000 {
        assert(n / 1 == n && n % 1 == 0);
        assert(nearest(n, 1) == n);
        assert(n * 1 == n) by (nonlinear_arith);
    }
}

proof fn double_is_positive(n: nat)
    requires
        n > 0,
    ensures
        as_double(n) > 0,
{
    double_is_close(n);
    spacing_bounds(n);
}

/// The double nearest to `a / b`.
fn quotient_of(a: u128, b: u128) -> (r: (u128, u128))
    requires
        0 < a < 0x20_0000_0000_0000 * b,
        0 < b <= 0x1_0000_0000_0000_0000,
    ensures
        (r.0 as nat, r.1 as nat) == double_quotient(a as nat, b as nat, 1),
        0 < r.1,
        r.0 < 0x40_0000_0000_0000,
{
    let mut x: u128 = a;
    let mut p: u128 = 1;
    while x < 0x10_0000_0000_0000 * b
        invariant
            0 < x < 0x20_0000_0000_0000 * b,
            0 < p <= x,
            0 < b <= 0x1_0000_0000_0000_0000,
            double_quotient(x as nat, b as nat, p as nat) == double_quotient(a as nat, b as nat, 1),
        decreases 0x20_0000_0000_0000 * b - x,
    {
        x = 2 * x;
        p = 2 * p;
    }
    let m = nearest_of(x, b);
    proof {
        nearest_bounds(x as nat, b as nat);
        assert(m < 0x40_0000_0000_0000) by (nonlinear_arith)
            requires
                m * b <= x + b,
                x < 0x20_0000_0000_0000 * b,
                b > 0,
        ;
    }
    (m, p)
}

// ---------------------------------------------------------------------
// Scaled counts
// ---------------------------------------------------------------------

/// `v / d` in tenths, through double precision.
pub open spec fn tenths(v: nat, d: nat) -> nat {
    let q = double_quotient(as_double(v), d, 1);
    nearest(10 * q.0, q.1)
}

/// `v / d` with one decimal.
pub open spec fn one_decimal(v: nat, d: nat) -> Seq<char> {
    decimal(tenths(v, d) / 10).push('.').push(digit((tenths(v, d) % 10) as int))
}

fn tenths_of(v: u64, d: u64) -> (r: u64)
    requires
        0 < d <= v <= 0x8000_0000_0000_0000,
        d == 1_000_000 || (d == 1_000 && v < 1_000_000),
    ensures
        r == tenths(v as nat, d as nat),
{
    let a = as_double_of(v as u128);
    let (m, p) = quotient_of(a, d as u128);
    let t = nearest_of(10 * m, p);
    proof {
        nearest_bounds((10 * m) as nat, p as nat);
        assert(t <= 10 * m);
        assert(t < 0x1_0000_0000_0000_0000);
    }
    t as u64
}

fn one_decimal_text(v: u64, d: u64) -> (r: String)
    requires
        0 < d <= v <= 0x8000_0000_0000_0000,
        d == 1_000_000 || (d == 1_000 && v < 1_000_000),
    ensures
        r@ == one_decimal(v as nat, d as nat),
{
    let t = tenths_of(v, d);
    let mut out = u64_text(t / 10);
    out.push('.');
    out.push(digit_char(t % 10));
    out
}

fn at_most_one_decimal_text(v: u64, d: u64) -> (r: String)
    requires
        0 < d <= v <= 0x8000_0000_0000_0000,
        d == 1_000_000 || (d == 1_000 && v < 1_000_000),
    ensures
        r@ == at_most_one_decimal(v as nat, d as nat),
{
    let t = tenths_of(v, d);
    if t % 10 == 0 {
        u64_text(t / 10)
    } else {
        one_decimal_text(v, d)
    }
}

/// The magnitude of a number.
pub open spec fn magnitude(n: int) -> nat {
    if n < 0 {
        (-n) as nat
    } else {
        n as nat
    }
}

fn magnitude_of(n: i64) -> (r: u64)
    ensures
        r == magnitude(n as int),
{
    if n >= 0 {
        n as u64
    } else if n == i64::MIN {
        0x8000_0000_0000_0000
    } else {
        (-n) as u64
    }
}

/// The minus sign of a negative number.
pub open spec fn sign(n: int) -> Seq<char> {
    if n < 0 {
        "-"@
    } else {
        ""@
    }
}

/// A count with one decimal and the suffix `M` from a million on, `k` from a
/// thousand on, and in full below.
pub open spec fn short_count(n: int) -> Seq<char> {
    let v = magnitude(n);
    if v >= 1_000_000 {
        sign(n) + one_decimal(v, 1_000_000) + "M"@
    } else if v >= 1_000 {
        sign(n) + one_decimal(v, 1_000) + "k"@
    } else {
        sign(n) + decimal(v)
    }
}

/// Compact token count: `500`, `12.4k`, `2.3M`.
pub fn short_count_text(n: i64) -> (r: String)
    ensures
        r@ == short_count(n as int),
{
    let v = magnitude_of(n);
    let s = if n < 0 {
        "-"
    } else {
        ""
    };
    if v >= 1_000_000 {
        cat3(s, one_decimal_text(v, 1_000_000).as_str(), "M")
    } else if v >= 1_000 {
        cat3(s, one_decimal_text(v, 1_000).as_str(), "k")
    } else {
        cat(s, u64_text(v).as_str())
    }
}

/// `v / d` with one decimal, or with none where that would be a zero.
pub open spec fn at_most_one_decimal(v: nat, d: nat) -> Seq<char> {
    if tenths(v, d) % 10 == 0 {
        decimal(tenths(v, d) / 10)
    } else {
        one_decimal(v, d)
    }
}

/// A count as a chart shows it: like [`short_count`], but never with a zero
/// behind the point.
pub open spec fn chart_count(n: int) -> Seq<char> {
    let v = magnitude(n);
    if v >= 1_000_000 {
        sign(n) + at_most_one_decimal(v, 1_000_000) + "M"@
    } else if v >= 1_000 {
        sign(n) + at_most_one_decimal(v, 1_000) + "k"@
    } else {
        sign(n) + decimal(v)
    }
}

/// Compact token count without a trailing zero: `500`, `2k`, `12.4k`, `2.3M`.
pub fn chart_count_text(n: i64) -> (r: String)
    ensures
        r@ == chart_count(n as int),
{
    let v = magnitude_of(n);
    let s = if n < 0 {
        "-"
    } else {
        ""
    };
    if v >= 1_000_000 {
        cat3(s, at_most_one_decimal_text(v, 1_000_000).as_str(), "M")
    } else if v >= 1_000 {
        cat3(s, at_most_one_decimal_text(v, 1_000).as_str(), "k")
    } else {
        cat(s, u64_text(v).as_str())
    }
}

/// A whole number of thousands, or of millions, is shown in a chart without
/// any decimal.
pub proof fn whole_counts_have_no_point(t: nat, d: nat)
    requires
        0 < t,
        0 < d,
        d % 10 == 0,
        t * d < 0x20_0000_0000_0000,
        10 * t < 0x1_0000_0000_0000,
    ensures
        at_most_one_decimal(t * d, d) == decimal(t),
{
    assert((10 * t) * (d / 10) == t * d) by (nonlinear_arith)
        requires
            d % 10 == 0,
    ;
    whole_tenths_show_exactly(10 * t, d);
}

/// A count with one decimal and `M` from a million on, whole thousands and `K`
/// from a thousand on, and in full below.
pub open spec fn bare_count(n: int) -> Seq<char> {
    let v = magnitude(n);
    if v >= 1_000_000 {
        sign(n) + one_decimal(v, 1_000_000) + "M"@
    } else if v >= 1_000 {
        sign(n) + decimal(v / 1_000) + "K"@
    } else {
        signed_decimal(n)
    }
}

/// Short-form token count: `420`, `34K`, `1.2M`.
pub fn bare_count_text(n: i64) -> (r: String)
    ensures
        r@ == bare_count(n as int),
{
    let v = magnitude_of(n);
    let s = if n < 0 {
        "-"
    } else {
        ""
    };
    if v >= 1_000_000 {
        cat3(s, one_decimal_text(v, 1_000_000).as_str(), "M")
    } else if v >= 1_000 {
        cat3(s, u64_text(v / 1_000).as_str(), "K")
    } else {
        i64_text(n)
    }
}

/// A count of whole tenths is shown as it is: `tenth` tenths of `d`, where `d`
/// is a multiple of ten.
pub proof fn whole_tenths_show_exactly(t: nat, d: nat)
    requires
        0 < t,
        d > 0,
        d % 10 == 0,
        t * (d / 10) < 0x20_0000_0000_0000,
        t < 0x1_0000_0000_0000,
    ensures
        tenths(t * (d / 10), d) == t,
{
    let v = t * (d / 10);
    assert(v > 0) by (nonlinear_arith)
        requires
            v == t * (d / 10),
            t > 0,
            d > 0,
            d % 10 == 0,
    ;
    double_is_close(v);
    assert(10 * v == t * d) by (nonlinear_arith)
        requires
            v == t * (d / 10),
            d % 10 == 0,
    ;
    quotient_is_close(v, d, 1);
    let (m, p) = double_quotient(v, d, 1);
    // The quotient is below 2^45, so that at least 7 doublings were made.
    assert(p > 10) by (nonlinear_arith)
        requires
            v * p >= 0x10_0000_0000_0000 * d,
            10 * v == t * d,
            t < 0x1_0000_0000_0000,
            d > 0,
            v > 0,
    ;
    nearest_bounds(10 * m, p);
    let got = nearest(10 * m, p);
    // |got * p - 10 * m| <= p / 2 and |m * d - v * p| <= d / 2.
    let x = (got * p) * d;
    let y = m * d;
    let z = v * p;
    let w = (t * p) * d;
    let f = p * d;
    assert(2 * x <= 20 * y + f && 20 * y <= 2 * x + f) by (nonlinear_arith)
        requires
            x == (got * p) * d,
            y == m * d,
            f == p * d,
            2 * (got * p) <= 2 * (10 * m) + p,
            2 * (10 * m) <= 2 * (got * p) + p,
            d > 0,
    ;
    assert(10 * z == w) by (nonlinear_arith)
        requires
            z == v * p,
            w == (t * p) * d,
            10 * v == t * d,
    ;
    assert(10 * d < f) by (nonlinear_arith)
        requires
            f == p * d,
            p > 10,
            d > 0,
    ;
    assert(2 * y <= 2 * z + d && 2 * z <= 2 * y + d) by (nonlinear_arith)
        requires
            2 * 1 * (m * d) <= 2 * (v * p) + 1 * d,
            2 * (v * p) <= 2 * 1 * (m * d) + 1 * d,
            y == m * d,
            z == v * p,
    ;
    assert(x < w + f && w < x + f) by (nonlinear_arith)
        requires
            2 * x <= 20 * y + f,
            20 * y <= 2 * x + f,
            10 * z == w,
            10 * d < f,
            2 * y <= 2 * z + d,
            2 * z <= 2 * y + d,
    ;
    assert(got < t + 1 && t < got + 1) by (nonlinear_arith)
        requires
            x == (got * p) * d,
            w == (t * p) * d,
            f == p * d,
            x < w + f,
            w < x + f,
            p > 0,
            d > 0,
    ;
}

proof fn quotient_is_close(a: nat, b: nat, p: nat)
    requires
        0 < a < 0x20_0000_0000_0000 * b,
        0 < b,
        0 < p,
    ensures
        ({
            let q = double_quotient(a, b, p);
            &&& q.1 >= p
            &&& 2 * p * (q.0 * b) <= 2 * (a * q.1) + p * b
            &&& 2 * (a * q.1) <= 2 * p * (q.0 * b) + p * b
            &&& a * q.1 >= 0x10_0000_0000_0000 * b * p
        }),
    decreases 0x20_0000_0000_0000 * b - a,
{
    let q = double_quotient(a, b, p);
    if a >= 0x10_0000_0000_0000 * b {
        nearest_bounds(a, b);
        let m = nearest(a, b);
        assert(2 * p * (m * b) <= 2 * (a * p) + p * b) by (nonlinear_arith)
            requires
                2 * (m * b) <= 2 * a + b,
                p > 0,
        ;
        assert(2 * (a * p) <= 2 * p * (m * b) + p * b) by (nonlinear_arith)
            requires
                2 * a <= 2 * (m * b) + b,
                p > 0,
        ;
        assert(a * p >= 0x10_0000_0000_0000 * b * p) by (nonlinear_arith)
            requires
                a >= 0x10_0000_0000_0000 * b,
                p > 0,
        ;
    } else {
        quotient_is_close(2 * a, b, 2 * p);
        assert(2 * (2 * p) * (q.0 * b) == 2 * (2 * p * (q.0 * b))) by (nonlinear_arith);
        assert(2 * (2 * a * q.1) == 2 * (2 * (a * q.1))) by (nonlinear_arith);
        assert(2 * p * b == 2 * (p * b)) by (nonlinear_arith);
        assert(0x10_0000_0000_0000 * b * (2 * p) == 2 * (0x10_0000_0000_0000 * b * p))
            by (nonlinear_arith);
        assert(2 * a * q.1 == 2 * (a * q.1)) by (nonlinear_arith);
    }
}

// ---------------------------------------------------------------------
// Shares
// ---------------------------------------------------------------------

/// How many percent `part` is of `whole`, from 0 to 999, through double
/// precision; 0 where there is no whole.
pub open spec fn percent(part: int, whole: int) -> nat {
    if part <= 0 || whole <= 0 {
        0
    } else {
        let a = as_double(part as nat);
        let b = as_double(whole as nat);
        if a >= 10 * b {
            999
        } else {
            let q = double_quotient(a, b, 1);
            let r = nearest(as_double(100 * q.0), q.1);
            if r < 999 {
                r
            } else {
                999
            }
        }
    }
}

/// How many percent `part` is of `whole`, at most 999.
pub fn percent_of(part: i64, whole: i64) -> (r: u64)
    ensures
        r == percent(part as int, whole as int),
        r <= 999,
{
    if part <= 0 || whole <= 0 {
        return 0;
    }
    let a = as_double_of(part as u128);
    let b = as_double_of(whole as u128);
    if a >= 10 * b {
        return 999;
    }
    let (m, p) = quotient_of(a, b);
    let r = nearest_of(as_double_of(100 * m), p);
    if r < 999 {
        r as u64
    } else {
        999
    }
}

/// The double nearest to 0.8, times 2^53.
pub const FOUR_FIFTHS: u128 = 7205759403792794;

/// Whether `total` is at least 0.8 times `whole`, in double precision.
pub open spec fn mostly_used(total: int, whole: int) -> bool {
    total >= 0 && as_double(total as nat) * 0x20_0000_0000_0000 >= as_double(
        as_double(whole as nat) * FOUR_FIFTHS as nat,
    )
}

/// Whether `total` is at least four fifths of `whole`.
pub fn is_mostly_used(total: i64, whole: i64) -> (r: bool)
    requires
        whole > 0,
    ensures
        r == mostly_used(total as int, whole as int),
{
    if total < 0 {
        return false;
    }
    let t = as_double_of(total as u128);
    let w = as_double_of(whole as u128);
    assert(w * FOUR_FIFTHS < 0x40_0000_0000_0000_0000_0000_0000_0000) by (nonlinear_arith)
        requires
            w < 0x1_0000_0000_0000_0000,
            FOUR_FIFTHS == 7205759403792794,
    ;
    t * 0x20_0000_0000_0000 >= as_double_of(w * FOUR_FIFTHS)
}

// ---------------------------------------------------------------------
// Ages
// ---------------------------------------------------------------------

/// A number of seconds in its largest unit: seconds, minutes, hours, days.
pub open spec fn in_largest_unit(secs: nat) -> Seq<char> {
    if secs < 60 {
        decimal(secs) + "s"@
    } else if secs < 3600 {
        decimal(secs / 60) + "m"@
    } else if secs < 86400 {
        decimal(secs / 3600) + "h"@
    } else {
        decimal(secs / 86400) + "d"@
    }
}

/// A number of seconds in its largest unit.
pub fn largest_unit_text(secs: u64) -> (r: String)
    ensures
        r@ == in_largest_unit(secs as nat),
{
    if secs < 60 {
        cat(u64_text(secs).as_str(), "s")
    } else if secs < 3600 {
        cat(u64_text(secs / 60).as_str(), "m")
    } else if secs < 86400 {
        cat(u64_text(secs / 3600).as_str(), "h")
    } else {
        cat(u64_text(secs / 86400).as_str(), "d")
    }
}

/// How many whole seconds lie between `then` and `now`, in milliseconds;
/// `None` where `then` is still to come.
pub open spec fn seconds_since(now_ms: int, then_ms: int) -> Option<nat> {
    if then_ms <= now_ms {
        Some(((now_ms - then_ms) / 1000) as nat)
    } else {
        None
    }
}

/// How many whole seconds lie between `then` and `now`.
pub fn seconds_between(now_ms: i64, then_ms: i64) -> (r: Option<u64>)
    ensures
        match r {
            Some(s) => seconds_since(now_ms as int, then_ms as int) == Some(s as nat),
            None => seconds_since(now_ms as int, then_ms as int) is None,
        },
{
    if then_ms <= now_ms {
        let delta: i128 = now_ms as i128 - then_ms as i128;
        Some((delta / 1000) as u64)
    } else {
        None
    }
}

/// A percentage is the nearest whole one: it is off by no more than half a
/// percent, for every count up to a million million and every share up to
/// nine hundred percent.
pub proof fn percent_is_the_nearest(part: nat, whole: nat)
    requires
        0 < part <= 0x100_0000_0000,
        0 < whole <= 0x100_0000_0000,
        part < 9 * whole,
    ensures
        2 * (percent(part as int, whole as int) * whole) <= 200 * part + whole,
        200 * part <= 2 * (percent(part as int, whole as int) * whole) + whole,
{
    double_is_close(part);
    double_is_close(whole);
    let a = part;
    let b = whole;
    assert(a < 0x20_0000_0000_0000 * b) by (nonlinear_arith)
        requires
            a <= 0x100_0000_0000,
            b > 0,
    ;
    quotient_is_close(a, b, 1);
    let q = double_quotient(a, b, 1);
    let m = q.0;
    let k = q.1;
    let d = as_double(100 * m);
    let sp = spacing(100 * m);
    double_is_close(100 * m);
    spacing_bounds(100 * m);
    assert(2 * 1 * (m * b) == 2 * (m * b)) by (nonlinear_arith);
    assert(1 * b == b) by (nonlinear_arith);
    assert(0x10_0000_0000_0000 * b * 1 == 0x10_0000_0000_0000 * b) by (nonlinear_arith);
    nearest_bounds(d, k);
    let r = nearest(d, k);
    // The rounded quotient is large, so that its own rounding is small.
    assert(k >= 0x1000 * b) by (nonlinear_arith)
        requires
            a * k >= 0x10_0000_0000_0000 * b,
            0 < a <= 0x100_0000_0000,
            b > 0,
    ;
    assert(m >= 0x8_0000_0000_0000) by (nonlinear_arith)
        requires
            2 * (a * k) <= 2 * (m * b) + b,
            a * k >= 0x10_0000_0000_0000 * b,
            b > 0,
    ;
    let off = b * (100 + sp);
    assert(off < k) by {
        assert(sp * 0x10_0000_0000_0000 <= 100 * m);
        assert(0x10_0000_0000_0000 * (sp * b) <= 100 * (m * b)) by (nonlinear_arith)
            requires
                sp * 0x10_0000_0000_0000 <= 100 * m,
        ;
        assert(a * k <= 0x100_0000_0000 * k) by (nonlinear_arith)
            requires
                a <= 0x100_0000_0000,
        ;
        assert(m * b <= a * k + b);
        assert(b * (100 + sp) == 100 * b + sp * b) by (nonlinear_arith);
    }
    assert(r * k * b == r * b * k) by (nonlinear_arith);
    assert(2 * (r * b * k) <= 200 * (a * k) + off + k * b) by (nonlinear_arith)
        requires
            2 * (r * k) <= 2 * d + k,
            2 * d <= 2 * (100 * m) + sp,
            2 * (m * b) <= 2 * (a * k) + b,
            off == b * (100 + sp),
            b > 0,
    ;
    assert(200 * (a * k) <= 2 * (r * b * k) + off + k * b) by (nonlinear_arith)
        requires
            2 * d <= 2 * (r * k) + k,
            2 * (100 * m) <= 2 * d + sp,
            2 * (a * k) <= 2 * (m * b) + b,
            off == b * (100 + sp),
            b > 0,
    ;
    assert(2 * (r * b) <= 200 * a + b) by (nonlinear_arith)
        requires
            2 * (r * b * k) <= 200 * (a * k) + off + k * b,
            off < k,
    ;
    assert(200 * a <= 2 * (r * b) + b) by (nonlinear_arith)
        requires
            200 * (a * k) <= 2 * (r * b * k) + off + k * b,
            off < k,
    ;
    assert(r < 999) by (nonlinear_arith)
        requires
            2 * (r * b) <= 200 * a + b,
            a < 9 * b,
            b > 0,
    ;
}

/// A percentage is none without a whole, a hundred for the whole, and never
/// above 999.
pub proof fn percent_is_bounded(part: int, whole: int)
    ensures
        percent(part, whole) <= 999,
        part <= 0 || whole <= 0 ==> percent(part, whole) == 0,
        0 < whole <= 0x100_0000_0000 ==> percent(whole, whole) == 100,
{
    if 0 < whole <= 0x100_0000_0000 {
        percent_is_the_nearest(whole as nat, whole as nat);
        let r = percent(whole, whole);
        assert(r == 100) by (nonlinear_arith)
            requires
                2 * (r * whole) <= 200 * whole + whole,
                200 * whole <= 2 * (r * whole) + whole,
                whole > 0,
        ;
    }
}

/// More than four fifths counts as mostly used, and less does not, for every
/// count up to a million million.
pub proof fn four_fifths_is_mostly(total: nat, whole: nat)
    requires
        total <= 0x100_0000_0000,
        0 < whole <= 0x100_0000_0000,
    ensures
        5 * total > 4 * whole ==> mostly_used(total as int, whole as int),
        5 * total < 4 * whole ==> !mostly_used(total as int, whole as int),
{
    double_is_close(total);
    double_is_close(whole);
    let n = whole * FOUR_FIFTHS as nat;
    double_is_close(n);
    spacing_bounds(n);
    let sp = spacing(n);
    assert(n == whole * 7205759403792794);
    assert(sp <= 2 * whole);
}

/// A count below a thousand shows as it is, and whole tenths of a thousand or a
/// million show with one digit behind the point.
pub proof fn counts_show_in_thousands(n: nat, t: nat)
    ensures
        n < 1_000 ==> short_count(n as int) == decimal(n),
        n < 1_000 ==> chart_count(n as int) == decimal(n),
        n < 1_000 ==> bare_count(n as int) == decimal(n),
        10 <= t < 10_000 ==> short_count((t * 100) as int) == decimal(t / 10).push('.').push(
            digit((t % 10) as int),
        ) + "k"@,
        10 <= t < 1_000_000 ==> short_count((t * 100_000) as int) == decimal(t / 10).push('.').push(
            digit((t % 10) as int),
        ) + "M"@,
{
    reveal_strlit("");
    let none = Seq::<char>::empty();
    assert(""@ =~= none);
    assert(none + decimal(n) =~= decimal(n));
    if 10 <= t < 10_000 {
        whole_tenths_show_exactly(t, 1_000);
        let x = decimal(t / 10).push('.').push(digit((t % 10) as int));
        assert(none + x =~= x);
    }
    if 10 <= t < 1_000_000 {
        whole_tenths_show_exactly(t, 1_000_000);
        let x = decimal(t / 10).push('.').push(digit((t % 10) as int));
        assert(none + x =~= x);
    }
}

} // verus!
