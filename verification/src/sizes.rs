//! Byte sizes written for people: bytes, then kilobytes and megabytes with
//! two decimals.
use vstd::prelude::*;

use crate::text::{decimal, digit_char, push_decimal};

verus! {

/// `n / d` rounded to the nearest integer, ties to the even one.
pub open spec fn round_half_even(n: nat, d: nat) -> nat
    recommends
        d > 0,
{
    let q = n / d;
    let r = n % d;
    if 2 * r > d {
        q + 1
    } else if 2 * r < d {
        q
    } else if q % 2 == 0 {
        q
    } else {
        q + 1
    }
}

/// A number of hundredths written with two decimals.
pub open spec fn two_decimals(h: nat) -> Seq<char> {
    decimal(h / 100) + seq!['.', digit_char((h / 10) % 10), digit_char(h % 10)]
}

/// 2^53: doubles hold 53 significant binary digits, so from here on not
/// every size converts to a double exactly.
pub const EXACT_SIZE_LIMIT: u64 = 9007199254740992;

/// The spacing of the doubles around `n`: 1 below [`EXACT_SIZE_LIMIT`],
/// doubling with each further binary digit of `n`.
pub open spec fn double_spacing(n: nat) -> nat
    decreases n,
{
    if n < EXACT_SIZE_LIMIT {
        1
    } else {
        2 * double_spacing(n / 2)
    }
}

/// The size `n` converted to a double: the nearest multiple of the spacing
/// of the doubles around it, ties to an even multiple (round to nearest,
/// ties to even). Exact below [`EXACT_SIZE_LIMIT`].
pub open spec fn nearest_double(n: nat) -> nat {
    round_half_even(n, double_spacing(n)) * double_spacing(n)
}

/// A size in bytes as people read it: below a kilobyte in bytes ("512 B"),
/// below a megabyte in kilobytes with two decimals ("1.50 KB"), otherwise
/// in megabytes with two decimals ("2.00 MB"). The size is first converted
/// to a double; the last decimal is then rounded to nearest, ties to even.
pub open spec fn spec_short_size(size: nat) -> Seq<char> {
    if size < 1024 {
        decimal(size) + " B"@
    } else if size < 1048576 {
        two_decimals(round_half_even(size * 100, 1024)) + " KB"@
    } else {
        two_decimals(round_half_even(nearest_double(size) * 100, 1048576)) + " MB"@
    }
}

/// Appends `h` hundredths with two decimals.
fn push_two_decimals(out: &mut String, h: u64)
    ensures
        final(out)@ == old(out)@ + two_decimals(h as nat),
{
    push_decimal(out, h / 100);
    let ghost mid = out@;
    out.append(".");
    push_decimal(out, (h / 10) % 10);
    push_decimal(out, h % 10);
    proof {
        reveal_strlit(".");
        let a = ((h / 10) % 10) as nat;
        let b = (h % 10) as nat;
        assert(decimal(a) == seq![digit_char(a)]);
        assert(decimal(b) == seq![digit_char(b)]);
        assert(final(out)@ =~= old(out)@ + two_decimals(h as nat));
    }
}

/// `n / d` rounded to the nearest integer, ties to the even one.
fn rounded_div(n: u128, d: u128) -> (r: u128)
    requires
        d > 0,
    ensures
        r == round_half_even(n as nat, d as nat),
        r <= n / d + 1,
{
    let q = n / d;
    let rem = n % d;
    if rem > d - rem {
        assert(q <= n / 2) by (nonlinear_arith)
            requires
                d >= 2,
                q == n / d,
        ;
        q + 1
    } else if rem < d - rem {
        q
    } else if q % 2 == 0 {
        q
    } else {
        assert(q <= n / 2) by (nonlinear_arith)
            requires
                d >= 2,
                q == n / d,
        ;
        q + 1
    }
}

/// The spacing of the doubles around `n`, as [`double_spacing`] says.
fn spacing_of(n: u64) -> (r: u64)
    ensures
        r == double_spacing(n as nat),
        1 <= r <= 4096,
{
    let mut m = n;
    let mut u: u64 = 1;
    while m >= EXACT_SIZE_LIMIT
        invariant
            double_spacing(n as nat) == u * double_spacing(m as nat),
            1 <= u <= 4096,
            u * m <= n,
        decreases m,
    {
        assert(u < 2048) by (nonlinear_arith)
            requires
                u * m <= n,
                m >= 9007199254740992u64,
                n <= 18446744073709551615u64,
                u >= 1,
        ;
        let ghost d = double_spacing((m / 2) as nat);
        assert(double_spacing(m as nat) == 2 * d);
        assert(u * (2 * d) == (2 * u) * d) by (nonlinear_arith);
        assert((2 * u) * (m / 2) <= u * m) by (nonlinear_arith)
            requires
                u >= 1,
        ;
        m = m / 2;
        u = u * 2;
    }
    assert(double_spacing(m as nat) == 1);
    assert(u * 1 == u);
    u
}

/// A size in bytes as people read it, as [`spec_short_size`] says.
pub fn short_size(size: usize) -> (r: String)
    ensures
        r@ == spec_short_size(size as nat),
{
    let n = size as u64;
    let mut out = String::new();
    if n < 1024 {
        push_decimal(&mut out, n);
        out.append(" B");
        proof {
            reveal_strlit(" B");
        }
    } else if n < 1048576 {
        let h = rounded_div(n as u128 * 100, 1024);
        push_two_decimals(&mut out, h as u64);
        out.append(" KB");
        proof {
            reveal_strlit(" KB");
        }
    } else {
        let u = spacing_of(n);
        let q = rounded_div(n as u128, u as u128);
        assert(q * u <= n + u) by (nonlinear_arith)
            requires
                q <= n / u + 1,
                u >= 1,
        ;
        let v = q * (u as u128);
        let h = rounded_div(v * 100, 1048576);
        assert(h < 18446744073709551616u128) by (nonlinear_arith)
            requires
                h <= v * 100 / 1048576 + 1,
                v <= 18446744073709551615u128 + 4096,
        ;
        push_two_decimals(&mut out, h as u64);
        out.append(" MB");
        proof {
            reveal_strlit(" MB");
        }
    }
    assert(out@ =~= spec_short_size(size as nat));
    out
}

/// The size of a file to download, written as [`short_size`] does.
pub fn format_file_size(size: usize) -> (r: String)
    ensures
        r@ == spec_short_size(size as nat),
{
    short_size(size)
}

/// The size of an export file, written as [`short_size`] does.
pub fn file_size(size: usize) -> (r: String)
    ensures
        r@ == spec_short_size(size as nat),
{
    short_size(size)
}

} // verus!
