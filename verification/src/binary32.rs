//! Integer arithmetic that reproduces IEEE 754 single-precision rounding
//! (binary32: 24 significant bits, round to nearest, ties to even) on the
//! values the library meets: positive integers and their ratios, far from
//! the subnormal and overflow ranges.

use vstd::prelude::*;

verus! {

/// `2^n`.
pub open spec fn p2(n: nat) -> nat
    decreases n,
{
    if n == 0 {
        1
    } else {
        2 * p2((n - 1) as nat)
    }
}

/// The powers of two the library's arithmetic is bounded by.
pub proof fn lemma_p2_values()
    ensures
        p2(8) == 0x100,
        p2(23) == 0x80_0000,
        p2(24) == 0x100_0000,
        p2(31) == 0x8000_0000,
        p2(32) == 0x1_0000_0000,
        p2(64) == 0x1_0000_0000_0000_0000,
        p2(126) == 0x4000_0000_0000_0000_0000_0000_0000_0000,
{
    reveal_with_fuel(p2, 9);
    assert(p2(7) == 0x80);
    assert(p2(8) == 0x100);
    lemma_p2_adds(8, 8);
    assert(p2(16) == 0x1_0000);
    lemma_p2_adds(8, 7);
    assert(p2(15) == 0x8000);
    lemma_p2_adds(16, 8);
    assert(p2(24) == 0x100_0000);
    lemma_p2_adds(16, 7);
    assert(p2(23) == 0x80_0000);
    lemma_p2_adds(16, 16);
    assert(p2(32) == 0x1_0000_0000);
    lemma_p2_adds(16, 15);
    assert(p2(31) == 0x8000_0000);
    lemma_p2_adds(32, 32);
    assert(p2(64) == 0x1_0000_0000_0000_0000);
    lemma_p2_adds(32, 31);
    assert(p2(63) == 0x8000_0000_0000_0000);
    lemma_p2_adds(63, 63);
    assert(p2(126) == 0x4000_0000_0000_0000_0000_0000_0000_0000);
}

/// The number of binary digits of `n` (`0` for `0`).
pub open spec fn bit_len(n: nat) -> nat
    decreases n,
{
    if n == 0 {
        0
    } else {
        1 + bit_len(n / 2)
    }
}

/// `a / d` rounded to the nearest integer, ties to the even one.
pub open spec fn rne_div(a: nat, d: nat) -> nat {
    let q = a / d;
    let r = a % d;
    if 2 * r > d {
        q + 1
    } else if 2 * r < d {
        q
    } else if q % 2 == 0 {
        q
    } else {
        q + 1
    }
}

/// `n` rounded to 24 significant bits, ties to even: the value of an
/// integer `n` converted to binary32, and the rounding of an exact product
/// or quotient scaled to an integer.
pub open spec fn round24(n: nat) -> nat {
    let t = bit_len(n);
    if t <= 24 {
        n
    } else {
        rne_div(n, p2((t - 24) as nat)) * p2((t - 24) as nat)
    }
}

pub proof fn lemma_p2_pos(n: nat)
    ensures
        p2(n) >= 1,
    decreases n,
{
    if n > 0 {
        lemma_p2_pos((n - 1) as nat);
    }
}

pub proof fn lemma_p2_adds(a: nat, b: nat)
    ensures
        p2(a + b) == p2(a) * p2(b),
    decreases a,
{
    if a > 0 {
        let a1 = (a - 1) as nat;
        lemma_p2_adds(a1, b);
        let s = a1 + b;
        assert(a + b == s + 1);
        assert(p2(s + 1) == 2 * p2(s));
        assert(p2(a) == 2 * p2(a1));
        let x = p2(a1);
        let y = p2(b);
        assert(2 * (x * y) == (2 * x) * y) by (nonlinear_arith);
        assert(p2(a + b) == p2(s + 1));
        assert(p2(a + b) == 2 * (x * y));
    } else {
        assert(p2(a) == 1);
        assert(a + b == b);
    }
}

pub proof fn lemma_p2_mono(a: nat, b: nat)
    requires
        a <= b,
    ensures
        p2(a) <= p2(b),
    decreases b,
{
    if a < b {
        lemma_p2_mono(a, (b - 1) as nat);
        lemma_p2_pos((b - 1) as nat);
    }
}

/// `n` lies between the powers of two around its digit count.
pub proof fn lemma_bit_len_bounds(n: nat)
    requires
        n > 0,
    ensures
        bit_len(n) >= 1,
        p2((bit_len(n) - 1) as nat) <= n < p2(bit_len(n)),
    decreases n,
{
    if n >= 2 {
        let h = n / 2;
        lemma_bit_len_bounds(h);
        let b = bit_len(h);
        assert(bit_len(n) == 1 + b);
        assert(p2(b) == 2 * p2((b - 1) as nat));
        assert(p2(bit_len(n)) == 2 * p2(b));
        assert(((bit_len(n) - 1) as nat) == b);
    } else {
        assert(bit_len(n) == 1 + bit_len(0));
        assert(p2(1) == 2 * p2(0));
    }
}

/// The digit count never exceeds the number.
pub proof fn lemma_bit_len_le(n: nat)
    ensures
        bit_len(n) <= n,
    decreases n,
{
    if n > 0 {
        lemma_bit_len_le(n / 2);
    }
}

/// A number below `2^j` has at most `j` digits; one at least `2^j` has more.
pub proof fn lemma_bit_len_range(n: nat, j: nat)
    requires
        n > 0,
    ensures
        n < p2(j) ==> bit_len(n) <= j,
        p2(j) <= n ==> bit_len(n) > j,
{
    lemma_bit_len_bounds(n);
    if n < p2(j) && bit_len(n) > j {
        lemma_p2_mono(j, (bit_len(n) - 1) as nat);
    }
    if p2(j) <= n && bit_len(n) <= j {
        lemma_p2_mono(bit_len(n), j);
    }
}

/// Rounding to 24 bits stays between the powers of two around `n`.
pub proof fn lemma_round24_bounds(n: nat)
    requires
        n > 0,
    ensures
        p2((bit_len(n) - 1) as nat) <= round24(n) <= p2(bit_len(n)),
        round24(n) <= 2 * n,
        round24(n) >= 1,
{
    let t = bit_len(n);
    lemma_bit_len_bounds(n);
    lemma_p2_pos((t - 1) as nat);
    if t > 24 {
        let k = (t - 24) as nat;
        let d = p2(k);
        lemma_p2_pos(k);
        lemma_p2_adds(23, k);
        lemma_p2_adds(24, k);
        assert((23 + k) as nat == (t - 1) as nat);
        assert((24 + k) as nat == t);
        let lo = p2(23);
        let hi = p2(24);
        assert(hi == 2 * lo);
        let q = n / d;
        assert(lo <= q < hi) by (nonlinear_arith)
            requires
                lo * d <= n < hi * d,
                d > 0,
                q == n / d,
        ;
        let r = rne_div(n, d);
        assert(q <= r <= q + 1);
        assert(lo * d <= r * d <= hi * d) by (nonlinear_arith)
            requires
                lo <= r <= hi,
                d > 0,
        ;
    }
}

/// Rounding to 24 bits does not change the order of numbers by more than a
/// factor of two: a smaller number rounds to at most twice the larger one.
pub proof fn lemma_round24_order(m: nat, l: nat)
    requires
        0 < m <= l,
    ensures
        round24(m) <= 2 * round24(l),
{
    lemma_round24_bounds(m);
    lemma_round24_bounds(l);
    lemma_bit_len_bounds(m);
    lemma_bit_len_bounds(l);
    lemma_bit_len_range(m, bit_len(l));
    lemma_p2_mono(bit_len(m), bit_len(l));
}

/// Rounding to the nearest multiple of `d` moves up by at most half of `d`.
pub proof fn lemma_rne_div_upper(a: nat, d: nat)
    requires
        d > 0,
    ensures
        2 * rne_div(a, d) * d <= 2 * a + d,
{
    let q = a / d;
    let r = a % d;
    assert(a == q * d + r) by (nonlinear_arith)
        requires
            d > 0,
            q == a / d,
            r == a % d,
    ;
    assert(2 * (q + 1) * d == 2 * q * d + 2 * d) by (nonlinear_arith);
    assert(2 * q * d == 2 * (q * d)) by (nonlinear_arith);
}

/// Rounding to the nearest integer is monotone in the numerator.
pub proof fn lemma_rne_div_mono(a: nat, b: nat, d: nat)
    requires
        d > 0,
        a <= b,
    ensures
        rne_div(a, d) <= rne_div(b, d),
{
    let qa = a / d;
    let qb = b / d;
    assert(qa <= qb) by (nonlinear_arith)
        requires
            d > 0,
            a <= b,
            qa == a / d,
            qb == b / d,
    ;
    if qa == qb {
        assert(a % d <= b % d) by (nonlinear_arith)
            requires
                d > 0,
                a <= b,
                a / d == b / d,
        ;
    }
}

/// Rounding to 24 bits is monotone.
pub proof fn lemma_round24_mono(a: nat, b: nat)
    requires
        0 < a <= b,
    ensures
        round24(a) <= round24(b),
{
    lemma_round24_bounds(a);
    lemma_round24_bounds(b);
    lemma_bit_len_bounds(a);
    lemma_bit_len_bounds(b);
    lemma_bit_len_range(a, bit_len(b));
    let ta = bit_len(a);
    let tb = bit_len(b);
    if ta < tb {
        lemma_p2_mono(ta, (tb - 1) as nat);
    } else if ta > 24 {
        assert(ta == tb);
        let d = p2((ta - 24) as nat);
        lemma_p2_pos((ta - 24) as nat);
        lemma_rne_div_mono(a, b, d);
        let ra = rne_div(a, d);
        let rb = rne_div(b, d);
        assert(ra * d <= rb * d) by (nonlinear_arith)
            requires
                ra <= rb,
        ;
    }
}

/// Rounding to 24 bits moves up by at most a `2^-24` part.
pub proof fn lemma_round24_upper(n: nat)
    requires
        n > 0,
    ensures
        p2(24) * round24(n) <= (p2(24) + 1) * n,
{
    let t = bit_len(n);
    lemma_bit_len_bounds(n);
    lemma_p2_pos(24);
    if t > 24 {
        let k = (t - 24) as nat;
        let d = p2(k);
        lemma_p2_pos(k);
        lemma_p2_adds(23, k);
        assert((23 + k) as nat == (t - 1) as nat);
        lemma_rne_div_upper(n, d);
        let r = rne_div(n, d);
        let lo = p2(23);
        assert(p2(24) == 2 * lo);
        assert(p2(24) * (r * d) <= (p2(24) + 1) * n) by (nonlinear_arith)
            requires
                2 * r * d <= 2 * n + d,
                lo * d <= n,
                p2(24) == 2 * lo,
        ;
    } else {
        assert(p2(24) * n <= (p2(24) + 1) * n) by (nonlinear_arith);
    }
}

/// The digit count of `n`.
pub fn bit_len_of(n: u128) -> (t: u128)
    ensures
        t == bit_len(n as nat),
{
    let mut t: u128 = 0;
    let mut v: u128 = n;
    proof {
        lemma_bit_len_le(n as nat);
    }
    while v > 0
        invariant
            t + bit_len(v as nat) == bit_len(n as nat),
            bit_len(n as nat) <= n,
        decreases v,
    {
        v = v / 2;
        t = t + 1;
    }
    t
}

/// `2^k`.
pub fn p2_of(k: u128) -> (p: u128)
    requires
        k < 127,
    ensures
        p == p2(k as nat),
{
    let mut p: u128 = 1;
    let mut i: u128 = 0;
    while i < k
        invariant
            i <= k < 127,
            p == p2(i as nat),
        decreases k - i,
    {
        proof {
            lemma_p2_mono((i + 1) as nat, 126);
            lemma_p2_values();
            assert(p2((i + 1) as nat) == 2 * p2(i as nat));
        }
        p = p * 2;
        i = i + 1;
    }
    p
}

/// `a / d` rounded to the nearest integer, ties to even.
pub fn rne_div_of(a: u128, d: u128) -> (r: u128)
    requires
        d > 0,
        a < 0x8000_0000_0000_0000_0000_0000_0000_0000,
    ensures
        r == rne_div(a as nat, d as nat),
        r <= a / d + 1,
{
    let q = a / d;
    let rem = a % d;
    assert(q <= a) by (nonlinear_arith)
        requires
            d > 0,
            q == a / d,
    ;
    if rem > d - rem {
        q + 1
    } else if rem < d - rem {
        q
    } else if q % 2 == 0 {
        q
    } else {
        q + 1
    }
}

/// `n` rounded to 24 significant bits, ties to even.
pub fn round24_of(n: u128) -> (r: u128)
    requires
        n < 0x4000_0000_0000_0000_0000_0000_0000_0000,
    ensures
        r == round24(n as nat),
        n > 0 ==> 1 <= r <= 2 * n,
        n == 0 ==> r == 0,
{
    let t = bit_len_of(n);
    if n > 0 {
        proof {
            lemma_round24_bounds(n as nat);
        }
    }
    if t <= 24 {
        return n;
    }
    proof {
        lemma_bit_len_le(n as nat);
        lemma_bit_len_bounds(n as nat);
        lemma_p2_values();
        lemma_bit_len_range(n as nat, 126);
    }
    let k = t - 24;
    let d = p2_of(k);
    proof {
        lemma_p2_pos(k as nat);
    }
    let q = rne_div_of(n, d);
    assert(q * d == round24(n as nat));
    q * d
}

} // verus!
