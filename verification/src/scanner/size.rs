//! Human-readable file sizes, as `{:.1} GB`, `{:.1} MB`, `{:.0} KB` or
//! `{} B` print them: the size is converted to a double (rounding to the
//! nearest representable value, ties to even), divided by a power of 1024,
//! and the quotient is rounded to the shown digits, ties to even.
use vstd::prelude::*;
use crate::text::{decimal, digit_char, push_char, push_decimal, push_str};

verus! {

/// `n / d` rounded to the nearest integer, ties to the even one.
pub open spec fn round_half_even(n: nat, d: nat) -> nat {
    let q = n / d;
    let r = n % d;
    if 2 * r > d || (2 * r == d && q % 2 == 1) { q + 1 } else { q }
}

/// 2^53: integers below it are exact as doubles.
pub open spec fn exact_limit() -> nat {
    9007199254740992
}

/// The spacing of doubles around `b`: the least power of two `u >= unit`
/// with `b / u < 2^53`.
pub open spec fn double_spacing(b: nat, unit: nat) -> nat
    decreases b + 1 - unit,
{
    if unit == 0 || unit > b {
        unit
    } else if b / unit >= exact_limit() {
        proof {
            assert(2 * unit <= b) by (nonlinear_arith)
                requires
                    unit > 0,
                    b / unit >= 9007199254740992,
            ;
        }
        double_spacing(b, 2 * unit)
    } else {
        unit
    }
}

/// The double nearest to an integer (ties to even), as an integer.
pub open spec fn as_double(b: nat) -> nat {
    let u = double_spacing(b, 1);
    round_half_even(b, u) * u
}

/// `x / unit` shown with one decimal: the rendering of the rounded tenths.
pub open spec fn one_decimal(x: nat, unit: nat) -> Seq<char> {
    let tenths = round_half_even(x * 10, unit);
    decimal(tenths / 10) + seq!['.', digit_char(tenths % 10)]
}

/// The human-readable size of a file of `bytes` bytes.
pub open spec fn file_size_text(bytes: u64) -> Seq<char> {
    let gib: nat = 1073741824;
    let mib: nat = 1048576;
    if bytes >= gib {
        one_decimal(as_double(bytes as nat), gib) + " GB"@
    } else if bytes >= mib {
        one_decimal(bytes as nat, mib) + " MB"@
    } else if bytes >= 1024 {
        decimal(round_half_even(bytes as nat, 1024)) + " KB"@
    } else {
        decimal(bytes as nat) + " B"@
    }
}

fn round_even_u128(n: u128, d: u128) -> (r: u128)
    requires
        d > 0,
        n / d < u128::MAX,
    ensures
        r == round_half_even(n as nat, d as nat),
{
    let q = n / d;
    let r = n % d;
    proof {
        assert(r < d);
    }
    if r > d - r || (r == d - r && q % 2 == 1) {
        q + 1
    } else {
        q
    }
}

fn digit(d: u128) -> (c: char)
    requires
        d < 10,
    ensures
        c == digit_char(d as nat),
{
    if d == 0 { '0' } else if d == 1 { '1' } else if d == 2 { '2' } else if d == 3 { '3' }
    else if d == 4 { '4' } else if d == 5 { '5' } else if d == 6 { '6' } else if d == 7 { '7' }
    else if d == 8 { '8' } else { '9' }
}

/// The spacing of doubles around a `u64`, computed.
fn spacing(b: u64) -> (u: u64)
    ensures
        u == double_spacing(b as nat, 1),
        1 <= u <= 4096,
        (b as nat) / (u as nat) < exact_limit(),
{
    let mut u: u64 = 1;
    proof {
        if b == 0 {
            assert(double_spacing(b as nat, 1) == 1);
        }
    }
    while u <= b && b / u >= 9007199254740992
        invariant
            1 <= u <= 4096,
            double_spacing(b as nat, u as nat) == double_spacing(b as nat, 1),
            u == 1 || (b as nat) / ((u / 2) as nat) >= exact_limit(),
            u == 1 || u % 2 == 0,
        decreases b + 1 - u,
    {
        proof {
            assert(u * 9007199254740992 <= b) by (nonlinear_arith)
                requires
                    u >= 1,
                    b / u >= 9007199254740992,
            ;
            assert(u < 4096) by (nonlinear_arith)
                requires
                    u * 9007199254740992 <= b,
                    b <= 0xffff_ffff_ffff_ffff,
            ;
        }
        u = u * 2;
    }
    proof {
        if u > b {
            assert(b / u == 0) by (nonlinear_arith)
                requires
                    u > b,
            ;
        }
    }
    u
}

pub fn format_file_size(bytes: u64) -> (r: String)
    ensures
        r@ == file_size_text(bytes),
{
    let mut s = String::new();
    if bytes >= 1073741824 {
        let u = spacing(bytes);
        let n = bytes as u128;
        let q = round_even_u128(n, u as u128);
        proof {
            assert(n / (u as u128) <= n) by (nonlinear_arith)
                requires
                    u >= 1,
            ;
            assert(q <= 9007199254740992) by {
                assert((n as nat) / (u as nat) < exact_limit());
            }
            assert(q * (u as u128) <= 9007199254740992 * 4096) by (nonlinear_arith)
                requires
                    q <= 9007199254740992,
                    u <= 4096,
            ;
        }
        let v = q * (u as u128);
        proof {
            assert((v * 10) / 1073741824 < u128::MAX) by (nonlinear_arith)
                requires
                    v <= 9007199254740992 * 4096,
            ;
        }
        let tenths = round_even_u128(v * 10, 1073741824);
        push_decimal(&mut s, (tenths / 10) as u64);
        push_char(&mut s, '.');
        push_char(&mut s, digit(tenths % 10));
        push_str(&mut s, " GB");
    } else if bytes >= 1048576 {
        let tenths = round_even_u128((bytes as u128) * 10, 1048576);
        push_decimal(&mut s, (tenths / 10) as u64);
        push_char(&mut s, '.');
        push_char(&mut s, digit(tenths % 10));
        push_str(&mut s, " MB");
    } else if bytes >= 1024 {
        let k = round_even_u128(bytes as u128, 1024);
        push_decimal(&mut s, k as u64);
        push_str(&mut s, " KB");
    } else {
        push_decimal(&mut s, bytes);
        push_str(&mut s, " B");
    }
    s
}

/// Rounding `n / d` to the nearest integer misses by at most half of `d`.
proof fn lemma_round_near(n: nat, d: nat)
    requires
        d > 0,
    ensures
        2 * (round_half_even(n, d) * d) <= 2 * n + d,
        2 * n <= 2 * (round_half_even(n, d) * d) + d,
        (2 * (round_half_even(n, d) * d) == 2 * n + d || 2 * n == 2 * (round_half_even(n, d) * d) + d)
            ==> round_half_even(n, d) % 2 == 0,
{
    let q = n / d;
    let r = n % d;
    assert(n == q * d + r && r < d) by (nonlinear_arith)
        requires
            d > 0,
            q == n / d,
            r == n % d,
    ;
    assert((q + 1) * d == q * d + d) by (nonlinear_arith);
    let t = round_half_even(n, d);
    if 2 * (t * d) == 2 * n + d || 2 * n == 2 * (t * d) + d {
        assert(2 * r == d);
    }
}

/// A text of one decimal: its whole part and its tenths digit.
proof fn lemma_tenths_parts(t: nat)
    ensures
        t == 10 * (t / 10) + t % 10,
        t % 10 < 10,
{
}

/// Between 1 MiB and 1 GiB the size reads `W.D MB`, where `W.D` is the size
/// in MiB (2^20 bytes) to the nearest tenth: `10 * W + D` tenths of a MiB
/// lie within half a tenth of the size, and exactly halfway the even count
/// of tenths is taken.
pub proof fn lemma_megabytes_text(bytes: u64) -> (wd: (nat, nat))
    requires
        1048576 <= bytes < 1073741824,
    ensures
        wd.1 < 10,
        file_size_text(bytes) == decimal(wd.0) + seq!['.', digit_char(wd.1)] + " MB"@,
        2 * ((10 * wd.0 + wd.1) * 1048576) <= 20 * bytes + 1048576,
        20 * bytes <= 2 * ((10 * wd.0 + wd.1) * 1048576) + 1048576,
        (2 * ((10 * wd.0 + wd.1) * 1048576) == 20 * bytes + 1048576 || 20 * bytes == 2 * ((10 * wd.0 + wd.1) * 1048576) + 1048576)
            ==> (10 * wd.0 + wd.1) % 2 == 0,
{
    let t = round_half_even(bytes as nat * 10, 1048576);
    lemma_round_near(bytes as nat * 10, 1048576);
    lemma_tenths_parts(t);
    (t / 10, t % 10)
}

/// From 1 GiB on the size reads `W.D GB`, where `W.D` is the size as the
/// nearest double (`as_double`, exact below 2^53 bytes) in GiB to the nearest
/// tenth.
pub proof fn lemma_gigabytes_text(bytes: u64) -> (wd: (nat, nat))
    requires
        1073741824 <= bytes,
    ensures
        wd.1 < 10,
        file_size_text(bytes) == decimal(wd.0) + seq!['.', digit_char(wd.1)] + " GB"@,
        2 * ((10 * wd.0 + wd.1) * 1073741824) <= 20 * as_double(bytes as nat) + 1073741824,
        20 * as_double(bytes as nat) <= 2 * ((10 * wd.0 + wd.1) * 1073741824) + 1073741824,
        (2 * ((10 * wd.0 + wd.1) * 1073741824) == 20 * as_double(bytes as nat) + 1073741824
            || 20 * as_double(bytes as nat) == 2 * ((10 * wd.0 + wd.1) * 1073741824) + 1073741824)
            ==> (10 * wd.0 + wd.1) % 2 == 0,
{
    let t = round_half_even(as_double(bytes as nat) * 10, 1073741824);
    lemma_round_near(as_double(bytes as nat) * 10, 1073741824);
    lemma_tenths_parts(t);
    (t / 10, t % 10)
}

/// Sizes below 2^53 bytes are exact as doubles.
pub proof fn lemma_small_sizes_exact(b: nat)
    requires
        b < exact_limit(),
    ensures
        as_double(b) == b,
{
    assert(b / 1 == b);
    assert(double_spacing(b, 1) == 1);
    assert(b % 1 == 0);
}

/// Between 1 KiB and 1 MiB the size reads `N KB`, `N` the size in KiB to the
/// nearest whole; below 1 KiB it reads `N B`, the exact byte count.
pub proof fn lemma_small_size_text(bytes: u64) -> (n: nat)
    requires
        bytes < 1048576,
    ensures
        1024 <= bytes ==> file_size_text(bytes) == decimal(n) + " KB"@
            && 2 * (n * 1024) <= 2 * bytes + 1024 && 2 * bytes <= 2 * (n * 1024) + 1024
            && ((2 * (n * 1024) == 2 * bytes + 1024 || 2 * bytes == 2 * (n * 1024) + 1024) ==> n % 2 == 0),
        bytes < 1024 ==> file_size_text(bytes) == decimal(n) + " B"@ && n == bytes,
{
    if bytes >= 1024 {
        lemma_round_near(bytes as nat, 1024);
        round_half_even(bytes as nat, 1024)
    } else {
        bytes as nat
    }
}

} // verus!
