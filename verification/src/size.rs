//! Byte counts written in mebibytes with one decimal place.

use vstd::prelude::*;

use crate::text::{decimal, digit, write_decimal};
#[allow(unused_imports)]
use crate::text::{decimal_reads_back, numeral};

verus! {

/// Integers below this limit have at most 53 significant bits.
pub const EXACT_LIMIT: u128 = 0x20_0000_0000_0000;

/// Bytes in a mebibyte.
pub const MEBIBYTE: u128 = 0x10_0000;

/// `n / d` rounded to the nearest integer, ties to the even neighbour.
pub open spec fn nearest_even(n: nat, d: nat) -> nat {
    let q = n / d;
    let r = n % d;
    if 2 * r < d || (2 * r == d && q % 2 == 0) {
        q
    } else {
        q + 1
    }
}

/// The spacing of the integers with 53 significant bits around `n`.
pub open spec fn spacing(n: nat) -> nat
    decreases n,
{
    if n < EXACT_LIMIT {
        1
    } else {
        2 * spacing(n / 2)
    }
}

/// `n` rounded to 53 significant bits, as a double precision number holds it.
pub open spec fn rounded(n: nat) -> nat {
    nearest_even(n, spacing(n)) * spacing(n)
}

/// A byte count in tenths of a mebibyte.
pub open spec fn mebibyte_tenths(bytes: nat) -> nat {
    nearest_even(10 * rounded(bytes), MEBIBYTE as nat)
}

/// A byte count in mebibytes with one decimal place.
pub open spec fn mebibyte_text(bytes: nat) -> Seq<char> {
    let tenths = mebibyte_tenths(bytes);
    decimal(tenths / 10) + seq!['.', digit(tenths % 10)]
}

fn divide_nearest_even(n: u128, d: u128) -> (q: u128)
    requires
        0 < d <= 0x1_0000_0000_0000_0000,
    ensures
        q == nearest_even(n as nat, d as nat),
        n / d <= q <= n / d + 1,
{
    let q = n / d;
    let r = n % d;
    if 2 * r < d || (2 * r == d && q % 2 == 0) {
        q
    } else {
        assert(q < u128::MAX) by (nonlinear_arith)
            requires
                q == n / d,
                r == n % d,
                r > 0,
                d > 0,
        ;
        q + 1
    }
}

proof fn halving(n: nat, unit: nat)
    requires
        unit > 0,
    ensures
        n / (2 * unit) == (n / unit) / 2,
{
    vstd::arithmetic::div_mod::lemma_div_denominator(n as int, unit as int, 2);
    assert(2 * unit == unit * 2);
}

/// A count below the exact limit is its own rounding.
pub proof fn rounded_is_exact(n: nat)
    requires
        n < EXACT_LIMIT,
    ensures
        rounded(n) == n,
{
    assert(spacing(n) == 1);
    assert(nearest_even(n, 1) == n);
}

fn round_to_double(n: u64) -> (r: u128)
    ensures
        r == rounded(n as nat),
        r <= 0x10_0000_0000_0000_0000,
{
    let wide: u128 = n as u128;
    let mut unit: u128 = 1;
    assert(wide / 1 == wide);
    while wide / unit >= EXACT_LIMIT
        invariant
            wide == n,
            0 < unit <= 0x1000,
            spacing(wide as nat) == unit * spacing((wide / unit) as nat),
        decreases wide / unit,
    {
        proof {
            halving(wide as nat, unit as nat);
            let rest = (wide / unit) as nat;
            let half = spacing(rest / 2);
            assert(spacing(rest) == 2 * half);
            assert(unit * (2 * half) == (2 * unit) * half) by (nonlinear_arith);
            assert(unit < 0x800) by (nonlinear_arith)
                requires
                    wide / unit >= 0x20_0000_0000_0000,
                    wide < 0x1_0000_0000_0000_0000,
                    unit > 0,
            ;
        }
        unit = unit * 2;
    }
    let q = divide_nearest_even(wide, unit);
    assert(spacing((wide / unit) as nat) == 1);
    assert(unit * 1 == unit) by (nonlinear_arith);
    assert(q * unit <= 0x10_0000_0000_0000_0000) by (nonlinear_arith)
        requires
            q <= 0x20_0000_0000_0000,
            0 < unit <= 0x1000,
    ;
    q * unit
}

/// Writes a byte count in mebibytes with one decimal place.
pub fn write_mebibytes(bytes: u64) -> (r: String)
    ensures
        r@ == mebibyte_text(bytes as nat),
{
    let tenths = divide_nearest_even(10 * round_to_double(bytes), MEBIBYTE);
    let mut r = write_decimal(tenths / 10);
    r.push('.');
    r.push((48u8 + (tenths % 10) as u8) as char);
    assert(r@ =~= mebibyte_text(bytes as nat));
    r
}

/// Below the exact limit, what is written is off by at most half of its last
/// digit.
pub proof fn text_is_within_half_a_tenth(bytes: nat)
    requires
        bytes < EXACT_LIMIT,
    ensures
        2 * (10 * bytes - mebibyte_tenths(bytes) * MEBIBYTE) <= MEBIBYTE,
        2 * (mebibyte_tenths(bytes) * MEBIBYTE - 10 * bytes) <= MEBIBYTE,
{
    rounded_is_exact(bytes);
}

/// Rounding gives a nearest integer, and of two that are equally near the even
/// one.
pub proof fn rounding_is_nearest(n: nat, d: nat)
    requires
        d > 0,
    ensures
        2 * (n - nearest_even(n, d) * d) <= d,
        2 * (nearest_even(n, d) * d - n) <= d,
        2 * (n - nearest_even(n, d) * d) == d ==> nearest_even(n, d) % 2 == 0,
        2 * (nearest_even(n, d) * d - n) == d ==> nearest_even(n, d) % 2 == 0,
{
    let q = n / d;
    let r = n % d;
    vstd::arithmetic::div_mod::lemma_fundamental_div_mod(n as int, d as int);
    assert(q * d == d * q) by (nonlinear_arith);
    assert((q + 1) * d == d * q + d) by (nonlinear_arith);
    assert(r < d) by (nonlinear_arith)
        requires
            r == n % d,
            d > 0,
    ;
}

/// The spacing is a power of two that leaves the number at most 53 significant
/// bits, and no fewer where it drops any.
pub proof fn spacing_leaves_fifty_three_bits(n: nat)
    ensures
        spacing(n) > 0,
        exists|e: nat| spacing(n) == #[trigger] vstd::arithmetic::power2::pow2(e),
        n < 9_007_199_254_740_992 ==> spacing(n) == 1,
        n < 9_007_199_254_740_992 * spacing(n),
        n >= 9_007_199_254_740_992 ==> n >= 4_503_599_627_370_496 * spacing(n),
    decreases n,
{
    if n < EXACT_LIMIT {
        vstd::arithmetic::power2::lemma2_to64();
        assert(spacing(n) == vstd::arithmetic::power2::pow2(0));
    } else {
        let half = n / 2;
        spacing_leaves_fifty_three_bits(half);
        let e = choose|e: nat| spacing(half) == #[trigger] vstd::arithmetic::power2::pow2(e);
        vstd::arithmetic::power2::lemma_pow2_unfold(e + 1);
        assert(spacing(n) == vstd::arithmetic::power2::pow2(e + 1));
    }
}

/// A count as a double precision number holds it is the nearest multiple of the
/// spacing, the even one of two.
pub proof fn doubles_hold_the_nearest_count(n: nat)
    ensures
        rounded(n) == (rounded(n) / spacing(n)) * spacing(n),
        2 * (n - rounded(n)) <= spacing(n),
        2 * (rounded(n) - n) <= spacing(n),
        2 * (n - rounded(n)) == spacing(n) || 2 * (rounded(n) - n) == spacing(n) ==> (rounded(n)
            / spacing(n)) % 2 == 0,
{
    spacing_leaves_fifty_three_bits(n);
    let unit = spacing(n);
    let q = nearest_even(n, unit);
    rounding_is_nearest(n, unit);
    vstd::arithmetic::div_mod::lemma_div_by_multiple(q as int, unit as int);
}

/// A count is written as a whole number of mebibytes, a point and one digit,
/// which together are the nearest tenth of a mebibyte, the even one of two.
pub proof fn text_is_the_nearest_tenth(bytes: nat)
    ensures
        ({
            let text = mebibyte_text(bytes);
            let whole = text.take(text.len() - 2);
            let tenths = 10 * numeral(whole) + numeral(seq![text.last()]);
            &&& text.len() >= 3
            &&& text[text.len() - 2] == '.'
            &&& 48 <= text.last() as int <= 57
            &&& forall|i: int| 0 <= i < whole.len() ==> 48 <= (#[trigger] whole[i]) as int <= 57
            &&& whole.len() > 1 ==> whole[0] != '0'
            &&& 2 * (10 * rounded(bytes) - 1_048_576 * tenths) <= 1_048_576
            &&& 2 * (1_048_576 * tenths - 10 * rounded(bytes)) <= 1_048_576
            &&& 2 * (10 * rounded(bytes) - 1_048_576 * tenths) == 1_048_576 ==> tenths % 2 == 0
            &&& 2 * (1_048_576 * tenths - 10 * rounded(bytes)) == 1_048_576 ==> tenths % 2 == 0
            &&& bytes < 9_007_199_254_740_992 ==> rounded(bytes) == bytes
        }),
{
    let text = mebibyte_text(bytes);
    let tenths = mebibyte_tenths(bytes);
    let last = digit(tenths % 10);
    decimal_reads_back(tenths / 10);
    rounding_is_nearest(10 * rounded(bytes), 1_048_576);
    assert(text.take(text.len() - 2) =~= decimal(tenths / 10));
    assert(seq![last].drop_last() =~= Seq::empty());
    assert(numeral(seq![last].drop_last()) == 0);
    assert(numeral(seq![last]) == tenths % 10);
    if bytes < 9_007_199_254_740_992 {
        rounded_is_exact(bytes);
    }
}

} // verus!
