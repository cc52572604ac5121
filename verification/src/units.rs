use vstd::prelude::*;

use crate::text::{decimal, digit, digit_char, push_char, push_decimal};

verus! {

/// Bytes in a kibibyte.
pub const KIB: u64 = 1024;

/// Bytes in a mebibyte.
pub const MIB: u64 = 1048576;

/// Bytes in a gibibyte.
pub const GIB: u64 = 1073741824;

/// 2^53: below it every integer is exactly representable as an `f64`.
pub const F64_EXACT_LIMIT: u64 = 9007199254740992;

/// `n / d` rounded to the nearest integer, ties going to the even neighbour.
/// This is how a value is rounded when it is formatted with a fixed number
/// of decimals.
pub open spec fn round_half_even(n: nat, d: nat) -> nat
    recommends
        d > 0,
{
    let q = n / d;
    let r = n % d;
    if 2 * r > d || (2 * r == d && q % 2 == 1) {
        q + 1
    } else {
        q
    }
}

/// The spacing of the `f64` values around the integer `b`: 1 below 2^53,
/// and doubling with each further binary digit of `b`.
pub open spec fn f64_scale(b: nat) -> nat
    decreases b,
{
    if b < F64_EXACT_LIMIT {
        1
    } else {
        2 * f64_scale(b / 2)
    }
}

/// The value of `b as f64`: `b` rounded to the nearest multiple of its
/// `f64` spacing, ties to even.
pub open spec fn as_f64(b: nat) -> nat {
    round_half_even(b, f64_scale(b)) * f64_scale(b)
}

/// A number of tenths written with one decimal, e.g. 125 as `12.5`.
pub open spec fn one_decimal(tenths: nat) -> Seq<char> {
    decimal(tenths / 10) + seq!['.', digit_char(tenths % 10)]
}

/// `bytes / GIB` rounded to tenths, as `{:.1}` shows `bytes as f64 / GIB`.
pub open spec fn gib_tenths(bytes: nat) -> nat {
    round_half_even(as_f64(bytes) * 10, GIB as nat)
}

/// The text of a byte count in the process table: `1.5 GB`, `300 MB`,
/// `12 KB` or `512 B`.
pub open spec fn bytes_text(bytes: nat) -> Seq<char> {
    if bytes >= GIB {
        one_decimal(gib_tenths(bytes)) + seq![' ', 'G', 'B']
    } else if bytes >= MIB {
        decimal(round_half_even(bytes, MIB as nat)) + seq![' ', 'M', 'B']
    } else if bytes >= KIB {
        decimal(round_half_even(bytes, KIB as nat)) + seq![' ', 'K', 'B']
    } else {
        decimal(bytes) + seq![' ', 'B']
    }
}

/// The short text of a byte count in the memory panel: `1.5G`, `300M` or
/// `12K` (a count under a kibibyte is shown in rounded kibibytes too).
pub open spec fn bytes_short_text(bytes: nat) -> Seq<char> {
    if bytes >= GIB {
        one_decimal(gib_tenths(bytes)) + seq!['G']
    } else if bytes >= MIB {
        decimal(round_half_even(bytes, MIB as nat)) + seq!['M']
    } else {
        decimal(round_half_even(bytes, KIB as nat)) + seq!['K']
    }
}

proof fn lemma_scale_bound(b: nat)
    ensures
        f64_scale(b) >= 1,
        b >= F64_EXACT_LIMIT ==> f64_scale(b) * 4503599627370496 <= b,
    decreases b,
{
    if b >= F64_EXACT_LIMIT {
        lemma_scale_bound(b / 2);
    }
}

fn rounded_quotient(n: u128, d: u128) -> (q: u128)
    requires
        d > 0,
        n < 0x1_0000_0000_0000_0000_0000_0000,
        d < 0x1_0000_0000_0000_0000_0000_0000,
    ensures
        q == round_half_even(n as nat, d as nat),
        q <= n / d + 1,
{
    let q = n / d;
    let r = n % d;
    if 2 * r > d || (2 * r == d && q % 2 == 1) {
        q + 1
    } else {
        q
    }
}

fn scale_of(b: u64) -> (s: u64)
    ensures
        s == f64_scale(b as nat),
        1 <= s < 4096,
    decreases b,
{
    proof {
        lemma_scale_bound(b as nat);
    }
    if b < F64_EXACT_LIMIT {
        1
    } else {
        let h = scale_of(b / 2);
        2 * h
    }
}

fn f64_value(b: u64) -> (v: u128)
    ensures
        v == as_f64(b as nat),
        v <= b + 4096,
{
    let s = scale_of(b);
    let q = rounded_quotient(b as u128, s as u128);
    assert((q as int) * (s as int) <= (b as int) + (s as int)) by (nonlinear_arith)
        requires
            q <= (b as int) / (s as int) + 1,
            s >= 1,
            b >= 0,
    {
        assert(((b as int) / (s as int)) * (s as int) <= b as int);
    }
    q * (s as u128)
}

fn push_one_decimal(r: &mut String, tenths: u128)
    ensures
        final(r)@ == old(r)@ + one_decimal(tenths as nat),
{
    push_decimal(r, tenths / 10);
    push_char(r, '.');
    push_char(r, digit(tenths % 10));
}

fn gib_tenths_of(bytes: u64) -> (t: u128)
    ensures
        t == gib_tenths(bytes as nat),
{
    let v = f64_value(bytes);
    rounded_quotient(v * 10, GIB as u128)
}

/// Formats a byte count for the process table, as `{:.1} GB`, `{:.0} MB`,
/// `{:.0} KB` of the count as an `f64`, or the exact count in bytes.
pub fn format_bytes(bytes: u64) -> (r: String)
    ensures
        r@ == bytes_text(bytes as nat),
{
    let mut r = String::new();
    if bytes >= GIB {
        push_one_decimal(&mut r, gib_tenths_of(bytes));
        push_char(&mut r, ' ');
        push_char(&mut r, 'G');
        push_char(&mut r, 'B');
    } else if bytes >= MIB {
        push_decimal(&mut r, rounded_quotient(bytes as u128, MIB as u128));
        push_char(&mut r, ' ');
        push_char(&mut r, 'M');
        push_char(&mut r, 'B');
    } else if bytes >= KIB {
        push_decimal(&mut r, rounded_quotient(bytes as u128, KIB as u128));
        push_char(&mut r, ' ');
        push_char(&mut r, 'K');
        push_char(&mut r, 'B');
    } else {
        push_decimal(&mut r, bytes as u128);
        push_char(&mut r, ' ');
        push_char(&mut r, 'B');
    }
    assert(r@ =~= bytes_text(bytes as nat));
    r
}

/// Formats a byte count for the memory panel, as `{:.1}G`, `{:.0}M` or
/// `{:.0}K` of the count as an `f64`.
pub fn format_bytes_short(bytes: u64) -> (r: String)
    ensures
        r@ == bytes_short_text(bytes as nat),
{
    let mut r = String::new();
    if bytes >= GIB {
        push_one_decimal(&mut r, gib_tenths_of(bytes));
        push_char(&mut r, 'G');
    } else if bytes >= MIB {
        push_decimal(&mut r, rounded_quotient(bytes as u128, MIB as u128));
        push_char(&mut r, 'M');
    } else {
        push_decimal(&mut r, rounded_quotient(bytes as u128, KIB as u128));
        push_char(&mut r, 'K');
    }
    assert(r@ =~= bytes_short_text(bytes as nat));
    r
}

} // verus!
