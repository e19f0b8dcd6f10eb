//! Exact values of the double-precision numbers that R's uniform generators
//! hand out, and of the few double operations that R's samplers apply to them.
//!
//! Every such number is a non-negative dyadic rational `mantissa / 2^exponent`
//! whose mantissa fits in the 53-bit significand of an IEEE-754 double, so the
//! library computes it exactly with integers. Rounding follows IEEE-754
//! round-to-nearest, ties-to-even.
use vstd::arithmetic::div_mod::*;
use vstd::arithmetic::mul::*;
use vstd::arithmetic::power2::*;
use vstd::prelude::*;

verus! {

/// `2^53`: one past the largest significand of a double.
pub const TWO_POW_53: u128 = 0x20_0000_0000_0000;

/// Significand of the double that R writes as `2.328306549295728e-10`, the
/// scale of L'Ecuyer-CMRG outputs; its exponent is [`NORM_EXPONENT`].
pub const NORM_MANTISSA: u64 = 4503599845474315;

/// The double scale of L'Ecuyer-CMRG outputs is `NORM_MANTISSA / 2^NORM_EXPONENT`.
pub const NORM_EXPONENT: u32 = 84;

/// A uniform number in exact form: the value is `mantissa / 2^exponent`.
///
/// Converting it to `f64` (`mantissa as f64 / 2^exponent`) is exact, because
/// every value the library produces has `mantissa <= 2^53`.
#[derive(Clone, Copy, Debug, PartialEq, Eq, Structural)]
pub struct RUniform {
    pub mantissa: u64,
    pub exponent: u32,
}

impl RUniform {
    /// The value lies strictly between 0 and 1.
    pub open spec fn in_unit_interval(self) -> bool {
        0 < self.mantissa < pow2(self.exponent as nat)
    }

    /// The mantissa fits a double's significand and the exponent is small
    /// enough for every operation of this module.
    pub open spec fn is_double(self) -> bool {
        self.mantissa <= TWO_POW_53 && self.exponent <= 85
    }
}

/// The number of low bits that rounding `n` to a double discards: zero below
/// `2^53`, otherwise the number of halvings that bring `n` below `2^53`.
pub open spec fn excess_bits(n: nat) -> nat
    decreases n,
{
    if n < TWO_POW_53 {
        0
    } else {
        1 + excess_bits(n / 2)
    }
}

/// The double nearest to the integer `n` (ties to even), as `(q, k)` with value
/// `q * 2^k`: `k` low bits are dropped and the quotient is rounded.
pub open spec fn round_double(n: nat) -> (nat, nat) {
    let k = excess_bits(n);
    let q = n / pow2(k);
    let r = n % pow2(k);
    if 2 * r > pow2(k) || (2 * r == pow2(k) && q % 2 == 1) {
        (q + 1, k)
    } else {
        (q, k)
    }
}

/// `floor(2^f * u)`, which a double computes exactly.
pub open spec fn scaled_floor(u: RUniform, f: nat) -> nat {
    (u.mantissa as nat * pow2(f)) / pow2(u.exponent as nat)
}

/// The double `(j + u) / 2^f` for a whole number `j`: the sum is rounded to a
/// double and the division by a power of two is exact.
pub open spec fn add_whole_then_scale(j: nat, u: RUniform, f: nat) -> RUniform {
    let (q, k) = round_double(j * pow2(u.exponent as nat) + u.mantissa as nat);
    RUniform { mantissa: q as u64, exponent: (u.exponent + f - k) as u32 }
}

/// `floor(n * u)` where the product of the double `n` and the double `u` is
/// rounded to a double before the floor is taken.
pub open spec fn floor_of_product(n: nat, u: RUniform) -> nat {
    let (q, k) = round_double(n * u.mantissa as nat);
    (q * pow2(k)) / pow2(u.exponent as nat)
}

/// Rounding discards at most the bits above the 53rd: `n / 2^k` is below
/// `2^53`, and `n < 2^(53 + j)` leaves at most `j` bits to drop.
pub proof fn lemma_excess_bits(n: nat, j: nat)
    ensures
        n / pow2(excess_bits(n)) < TWO_POW_53,
        n < pow2(53 + j) ==> excess_bits(n) <= j,
    decreases n,
{
    lemma_pow2_pos(0);
    assert(pow2(0) == 1) by {
        lemma2_to64();
    }
    assert(pow2(53) == TWO_POW_53) by {
        lemma2_to64_rest();
    }
    if n >= TWO_POW_53 {
        let k1 = excess_bits(n / 2);
        if j > 0 {
            lemma_excess_bits(n / 2, (j - 1) as nat);
        } else {
            lemma_excess_bits(n / 2, 0);
        }
        lemma_pow2_pos(k1);
        lemma_div_denominator(n as int, 2, pow2(k1) as int);
        lemma_pow2_unfold(k1 + 1);
        assert(pow2(k1 + 1) == 2 * pow2(k1));
        if n < pow2(53 + j) {
            if j == 0 {
                assert(false);
            } else {
                lemma_pow2_unfold(53 + j);
                assert(pow2((53 + j - 1) as nat) == pow2(53 + (j - 1) as nat));
                lemma_multiply_divide_lt(n as int, 2, pow2(53 + (j - 1) as nat) as int);
            }
        }
    } else {
        lemma_div_basics_1(n as int);
    }
}

/// `2^k` for `k < 128`.
pub fn pow2_u128(k: u32) -> (p: u128)
    requires
        k < 128,
    ensures
        p == pow2(k as nat),
{
    let mut p: u128 = 1;
    let mut i: u32 = 0;
    assert(pow2(0) == 1) by {
        lemma2_to64();
    }
    while i < k
        invariant
            i <= k < 128,
            p == pow2(i as nat),
        decreases k - i,
    {
        proof {
            lemma_pow2_unfold((i + 1) as nat);
            lemma_pow2_strictly_increases((i + 1) as nat, 128);
            lemma2_to64_rest();
            assert(pow2(128) == 0x1_0000_0000_0000_0000_0000_0000_0000_0000) by {
                lemma_pow2_adds(64, 64);
            }
        }
        p = p * 2;
        i = i + 1;
    }
    p
}

/// Round the integer `n` to the nearest double: returns `(q, k)` with value
/// `q * 2^k`.
pub fn round_to_double(n: u128) -> (r: (u64, u32))
    ensures
        r.0 as nat == round_double(n as nat).0,
        r.1 as nat == round_double(n as nat).1,
        r.0 <= TWO_POW_53,
        r.1 <= 75,
{
    proof {
        lemma2_to64_rest();
        assert(pow2(128) == 0x1_0000_0000_0000_0000_0000_0000_0000_0000) by {
            lemma_pow2_adds(64, 64);
        }
        assert(pow2(53 + 75) == pow2(128));
        lemma_excess_bits(n as nat, 75);
        assert(pow2(0) == 1) by {
            lemma2_to64();
        }
        lemma_div_basics_1(n as int);
    }
    let mut m = n;
    let mut k: u32 = 0;
    let mut p: u128 = 1;
    while m >= TWO_POW_53
        invariant
            m == n as nat / pow2(k as nat),
            p == pow2(k as nat),
            k + excess_bits(m as nat) == excess_bits(n as nat),
            excess_bits(n as nat) <= 75,
        decreases m,
    {
        proof {
            lemma_pow2_pos(k as nat);
            lemma_div_denominator(n as int, pow2(k as nat) as int, 2);
            lemma_pow2_unfold((k + 1) as nat);
            lemma_mul_is_commutative(pow2(k as nat) as int, 2);
            lemma_pow2_strictly_increases((k + 1) as nat, 128);
            lemma2_to64_rest();
            lemma_pow2_adds(64, 64);
            assert(excess_bits(m as nat) == 1 + excess_bits(m as nat / 2));
        }
        m = m / 2;
        p = p * 2;
        k = k + 1;
    }
    proof {
        lemma_pow2_pos(k as nat);
        lemma_fundamental_div_mod(n as int, p as int);
        lemma_mod_bound(n as int, p as int);
        lemma_mul_is_commutative(p as int, m as int);
        lemma_pow2_strictly_increases(k as nat, 127);
        lemma2_to64_rest();
        lemma_pow2_adds(64, 63);
    }
    let rem = n - m * p;
    if 2 * rem > p || (2 * rem == p && m % 2 == 1) {
        ((m + 1) as u64, k)
    } else {
        (m as u64, k)
    }
}

/// `floor(2^f * u)` for a value in the unit interval.
pub fn scaled_floor_exec(u: RUniform, f: u32) -> (r: u64)
    requires
        u.in_unit_interval(),
        u.is_double(),
        f <= 27,
    ensures
        r == scaled_floor(u, f as nat),
        r < pow2(f as nat),
{
    let pf = pow2_u128(f);
    let pe = pow2_u128(u.exponent);
    proof {
        lemma_pow2_strictly_increases(f as nat, 28);
        lemma2_to64();
        lemma_mul_inequality(u.mantissa as int, TWO_POW_53 as int, pf as int);
        lemma_mul_inequality(pf as int, 0x1000_0000, TWO_POW_53 as int);
        lemma_mul_strict_inequality(u.mantissa as int, pe as int, pf as int);
        lemma_mul_is_commutative(u.mantissa as int, pf as int);
        lemma_mul_is_commutative(pe as int, pf as int);
        lemma_multiply_divide_lt((u.mantissa * pf) as int, pe as int, pf as int);
        lemma_pow2_pos(u.exponent as nat);
    }
    ((u.mantissa as u128 * pf) / pe) as u64
}

/// The double below 1 that R substitutes for a zero draw: half of the double
/// that R writes as `2.328306437080797e-10`.
pub open spec fn low_substitute() -> RUniform {
    RUniform { mantissa: 4503599628419071, exponent: 85 }
}

/// The double that R substitutes for a draw of 1 or more: `1 - low_substitute()`
/// rounded to a double.
pub open spec fn high_substitute() -> RUniform {
    RUniform { mantissa: 9007199253692416, exponent: 53 }
}

/// What R's `unif_rand()` returns for the generator's double `raw`: values at
/// or below 0 and at or above 1 are replaced, so the result is strictly
/// between 0 and 1.
pub open spec fn fix_unit_interval(raw: RUniform) -> RUniform {
    if raw.mantissa == 0 {
        low_substitute()
    } else if raw.mantissa >= pow2(raw.exponent as nat) {
        high_substitute()
    } else {
        raw
    }
}

/// The double value of a Mersenne Twister output word: `y / 2^32`.
pub open spec fn mt_double(y: u32) -> RUniform {
    RUniform { mantissa: y as u64, exponent: 32 }
}

/// The double value of a L'Ecuyer-CMRG output `d`: `d` times the double
/// `NORM_MANTISSA / 2^NORM_EXPONENT`, rounded to a double.
pub open spec fn lecuyer_double(d: nat) -> RUniform {
    let (q, k) = round_double(d * (NORM_MANTISSA as nat));
    RUniform { mantissa: q as u64, exponent: (NORM_EXPONENT - k) as u32 }
}

/// Rounding is monotone at multiples of a power of two: when `n <= c * 2^t`
/// and rounding drops at most `t` bits, the rounded value stays `<= c * 2^t`.
pub proof fn lemma_round_at_most(n: nat, c: nat, t: nat)
    requires
        n <= c * pow2(t),
        excess_bits(n) <= t,
    ensures
        round_double(n).0 * pow2(round_double(n).1) <= c * pow2(t),
        round_double(n).0 <= c * pow2((t - round_double(n).1) as nat),
        round_double(n).1 == excess_bits(n),
{
    let k = excess_bits(n);
    let pk = pow2(k);
    let x = c * pow2((t - k) as nat);
    lemma_pow2_pos(k);
    lemma_pow2_adds((t - k) as nat, k);
    assert(((t - k) as nat + k) == t);
    lemma_mul_is_associative(c as int, pow2((t - k) as nat) as int, pk as int);
    assert(c * pow2(t) == x * pk);
    let q0 = n / pk;
    let r = n % pk;
    lemma_fundamental_div_mod(n as int, pk as int);
    lemma_mod_bound(n as int, pk as int);
    lemma_multiply_divide_le(n as int, pk as int, x as int);
    lemma_mul_is_commutative(x as int, pk as int);
    assert(q0 <= x);
    if q0 == x {
        lemma_mul_is_commutative(pk as int, q0 as int);
        assert(r == 0);
    }
    let q = round_double(n).0;
    assert(q <= x);
    lemma_mul_inequality(q as int, x as int, pk as int);
}

/// The replacement keeps every value strictly inside the unit interval.
pub proof fn lemma_fix_unit_interval(raw: RUniform)
    requires
        raw.is_double(),
    ensures
        fix_unit_interval(raw).in_unit_interval(),
        fix_unit_interval(raw).is_double(),
{
    lemma2_to64();
    lemma2_to64_rest();
    lemma_pow2_adds(64, 21);
    lemma_pow2_adds(32, 21);
    assert(pow2(53) == TWO_POW_53);
}

/// The double of a L'Ecuyer-CMRG output has a double's significand and an
/// exponent of at most `NORM_EXPONENT`.
pub proof fn lemma_lecuyer_double(d: nat)
    requires
        1 <= d < 0x1_0000_0000,
    ensures
        lecuyer_double(d).is_double(),
        lecuyer_double(d).mantissa as nat == round_double(d * (NORM_MANTISSA as nat)).0,
        lecuyer_double(d).exponent as nat == NORM_EXPONENT - round_double(d * (NORM_MANTISSA as nat)).1,
{
    let n = d * (NORM_MANTISSA as nat);
    lemma2_to64_rest();
    lemma_pow2_adds(64, 21);
    lemma2_to64();
    assert(pow2(53 + 32) == pow2(85));
    lemma_excess_bits(n, 32);
    assert(pow2(53) == TWO_POW_53);
}

/// The value is at most `1 - 2^-33`.
pub open spec fn clear_of_one(u: RUniform) -> bool {
    u.mantissa * pow2(33) <= pow2(u.exponent as nat) * (pow2(33) - 1)
}

/// A number that rounding shortens by `k > 0` bits has at least `52 + k` bits.
proof fn lemma_excess_bits_lower(n: nat)
    ensures
        excess_bits(n) > 0 ==> n >= pow2(52 + excess_bits(n)),
    decreases n,
{
    if n >= TWO_POW_53 {
        lemma2_to64_rest();
        assert(pow2(53) == TWO_POW_53);
        let k1 = excess_bits(n / 2);
        lemma_excess_bits_lower(n / 2);
        if k1 == 0 {
            assert(pow2(52 + 1) == pow2(53));
        } else {
            lemma_pow2_unfold(53 + k1);
            assert(52 + excess_bits(n) == 53 + k1);
            lemma_fundamental_div_mod(n as int, 2);
        }
    }
}

/// `floor(n u)` stays below `n` for `n` up to `2^31 - 1` when `u` is at most
/// `1 - 2^-33`: the gap below `n` is wider than the rounding error.
pub proof fn lemma_floor_of_product_below(n: nat, u: RUniform)
    requires
        1 <= n <= 0x7fff_ffff,
        clear_of_one(u),
    ensures
        floor_of_product(n, u) < n,
{
    let e = u.exponent as nat;
    let m = u.mantissa as nat;
    let pe = pow2(e);
    let prod = n * m;
    let k = excess_bits(prod);
    let pk = pow2(k);
    lemma_pow2_pos(e);
    lemma_pow2_pos(k);
    lemma2_to64();
    lemma2_to64_rest();
    let p33 = pow2(33);
    assert(p33 == 0x2_0000_0000);
    // The gap `g = pe - m` is at least `pe / 2^33`.
    let g = pe - m;
    assert(g * p33 >= pe) by (nonlinear_arith)
        requires
            m * p33 <= pe * (p33 - 1),
            g == pe - m,
    ;
    assert(n * pe - prod == n * g) by (nonlinear_arith)
        requires
            prod == n * m,
            g == pe - m,
    ;
    // The product is below `2^31 pe`, and rounding drops fewer than `e` bits.
    lemma_pow2_adds(31, e);
    assert(m < pe) by (nonlinear_arith)
        requires
            m * p33 <= pe * (p33 - 1),
            p33 > 1,
            pe > 0,
    ;
    assert(prod < 0x8000_0000 * pe) by (nonlinear_arith)
        requires
            prod == n * m,
            n < 0x8000_0000,
            m < pe,
    ;
    assert(pow2(31) == 0x8000_0000);
    assert(prod < pow2(31 + e));
    lemma_excess_bits_lower(prod);
    // The rounding error is at most `2^k`, and `n g` is at least that.
    assert(n * g >= pk) by {
        if k > 0 {
            lemma_pow2_adds(52, k);
            assert(prod >= pow2(52) * pk);
            assert(pow2(52) == 0x10_0000_0000_0000);
            assert(n * g * p33 >= n * pe) by (nonlinear_arith)
                requires
                    g * p33 >= pe,
                    n >= 1,
            ;
            assert(n * g >= pk) by (nonlinear_arith)
                requires
                    n * g * p33 >= n * pe,
                    n * pe > prod,
                    prod >= 0x10_0000_0000_0000 * pk,
                    p33 == 0x2_0000_0000,
            ;
        } else {
            assert(pk == 1);
            assert(n * g >= 1) by (nonlinear_arith)
                requires
                    n >= 1,
                    g * p33 >= pe,
                    pe > 0,
            ;
        }
    }
    // `k` is below `e`, so `n pe - 2^k` is a multiple of `2^k`.
    assert(k <= e) by {
        if k > e {
            lemma_pow2_strictly_increases(e, k);
            if k > 0 {
                lemma_pow2_adds(52, k);
                lemma_pow2_adds(31, e);
                lemma_pow2_strictly_increases(31 + e, 52 + k);
            }
            assert(false);
        }
    }
    let d = (e - k) as nat;
    lemma_pow2_adds(d, k);
    lemma_pow2_pos(d);
    let c = n * pow2(d) - 1;
    assert(c * pk == n * pe - pk) by (nonlinear_arith)
        requires
            c == n * pow2(d) - 1,
            pe == pow2(d) * pk,
    ;
    assert(c >= 0) by (nonlinear_arith)
        requires
            n >= 1,
            pow2(d) > 0,
            c == n * pow2(d) - 1,
    ;
    lemma_excess_bits(prod, k);
    lemma_round_at_most(prod, c as nat, k);
    let (q, kk) = round_double(prod);
    assert(q * pow2(kk) <= n * pe - 1);
    lemma_div_is_ordered((q * pow2(kk)) as int, (n * pe - 1) as int, pe as int);
    assert((n * pe - 1) / (pe as int) == n - 1) by {
        assert(n * pe - 1 == (n - 1) * pe + (pe - 1)) by (nonlinear_arith);
        lemma_fundamental_div_mod_converse((n * pe - 1) as int, pe as int, (n - 1) as int, (pe - 1) as int);
    }
}

/// R's substitutes for values at or outside the unit interval are at most
/// `1 - 2^-33`, so the replacement keeps a value that is.
proof fn lemma_fix_keeps_clear(raw: RUniform)
    requires
        raw.mantissa > 0 && raw.mantissa < pow2(raw.exponent as nat) ==> clear_of_one(raw),
    ensures
        clear_of_one(fix_unit_interval(raw)),
{
    lemma2_to64();
    lemma2_to64_rest();
    lemma_pow2_adds(64, 21);
    assert(pow2(85) == 0x20_0000_0000_0000_0000_0000);
    assert(pow2(53) == 0x20_0000_0000_0000);
    assert(pow2(33) == 0x2_0000_0000);
}

/// Every value that the Mersenne Twister draws is at most `1 - 2^-33`.
pub proof fn lemma_mt_draw_clear(y: u32)
    ensures
        clear_of_one(fix_unit_interval(mt_double(y))),
{
    lemma2_to64();
    lemma2_to64_rest();
    assert(pow2(32) == 0x1_0000_0000);
    assert(pow2(33) == 0x2_0000_0000);
    lemma_fix_keeps_clear(mt_double(y));
}

/// Every value that L'Ecuyer-CMRG draws is at most `1 - 2^-33`: the output
/// `d` is at most `M1`, and `M1 NORM` rounds to at most `1 - 2^-33`.
pub proof fn lemma_lecuyer_draw_clear(d: nat)
    requires
        1 <= d <= 4_294_967_087,
    ensures
        clear_of_one(fix_unit_interval(lecuyer_double(d))),
{
    let x = d * (NORM_MANTISSA as nat);
    let c: nat = 0x1f_ffff_fff0_0000;
    lemma2_to64();
    lemma2_to64_rest();
    lemma_pow2_adds(53, 31);
    lemma_pow2_adds(64, 20);
    assert(pow2(31) == 0x8000_0000);
    assert(pow2(84) == 0x10_0000_0000_0000_0000_0000);
    assert(x <= c * pow2(31)) by (nonlinear_arith)
        requires
            x == d * 4503599845474315,
            d <= 4_294_967_087,
            pow2(31) == 0x8000_0000,
            c == 0x1f_ffff_fff0_0000,
    ;
    assert(x < pow2(53 + 31));
    lemma_excess_bits(x, 31);
    lemma_round_at_most(x, c, 31);
    lemma_lecuyer_double(d);
    let (q, k) = round_double(x);
    let t = (31 - k) as nat;
    lemma_pow2_adds(t, 53);
    assert((84 - k) as nat == t + 53);
    assert(pow2(33) == 0x2_0000_0000);
    assert(q * pow2(33) <= pow2((84 - k) as nat) * (pow2(33) - 1)) by (nonlinear_arith)
        requires
            q <= c * pow2(t),
            c == 0x1f_ffff_fff0_0000,
            pow2(33) == 0x2_0000_0000,
            pow2((84 - k) as nat) == pow2(t) * pow2(53),
            pow2(53) == 0x20_0000_0000_0000,
    ;
    lemma_fix_keeps_clear(lecuyer_double(d));
}

/// Converts a Mersenne Twister output word to its double value.
pub fn mt_double_exec(y: u32) -> (u: RUniform)
    ensures
        u == mt_double(y),
{
    RUniform { mantissa: y as u64, exponent: 32 }
}

/// Converts a L'Ecuyer-CMRG output to its double value.
pub fn lecuyer_double_exec(d: u64) -> (u: RUniform)
    requires
        1 <= d < 0x1_0000_0000,
    ensures
        u == lecuyer_double(d as nat),
        u.is_double(),
{
    let n = d as u128 * NORM_MANTISSA as u128;
    let (q, k) = round_to_double(n);
    proof {
        lemma2_to64_rest();
        lemma_pow2_adds(64, 21);
        lemma2_to64();
        assert(pow2(53 + 32) == pow2(85));
        lemma_excess_bits(n as nat, 32);
    }
    RUniform { mantissa: q, exponent: NORM_EXPONENT - k }
}

/// Applies R's replacement of draws outside the open unit interval.
pub fn fix_unit_interval_exec(raw: RUniform) -> (u: RUniform)
    requires
        raw.is_double(),
    ensures
        u == fix_unit_interval(raw),
        u.in_unit_interval(),
        u.is_double(),
{
    proof {
        lemma2_to64();
        lemma2_to64_rest();
        lemma_pow2_adds(64, 21);
        lemma_pow2_adds(32, 21);
        assert(pow2(53) == TWO_POW_53);
    }
    if raw.mantissa == 0 {
        RUniform { mantissa: 4503599628419071, exponent: 85 }
    } else if raw.mantissa as u128 >= pow2_u128(raw.exponent) {
        RUniform { mantissa: 9007199253692416, exponent: 53 }
    } else {
        raw
    }
}

/// `(j + u) / 2^f` with the sum rounded to a double, for `j = floor(2^f v)`
/// computed from another unit-interval draw `v`.
pub fn add_whole_then_scale_exec(j: u64, u: RUniform, f: u32) -> (w: RUniform)
    requires
        u.in_unit_interval(),
        u.is_double(),
        f <= 27,
        j < pow2(f as nat),
    ensures
        w == add_whole_then_scale(j as nat, u, f as nat),
        w.mantissa <= pow2(w.exponent as nat),
        w.mantissa <= TWO_POW_53,
        w.exponent <= 112,
{
    let pe = pow2_u128(u.exponent);
    proof {
        lemma2_to64();
        lemma_pow2_strictly_increases(f as nat, 28);
        lemma_pow2_adds(u.exponent as nat, 27);
        lemma_pow2_adds(27, 85);
        lemma_pow2_adds(u.exponent as nat, f as nat);
        lemma_pow2_strictly_increases(u.exponent as nat + 27, 113);
        lemma_pow2_strictly_increases(113, 127);
        lemma2_to64_rest();
        lemma_pow2_adds(64, 63);
        lemma_mul_inequality(j as int, (pow2(f as nat) - 1) as int, pe as int);
        lemma_mul_inequality(j as int, 0x800_0000, pe as int);
        lemma_mul_is_distributive_sub_other_way(pe as int, pow2(f as nat) as int, 1);
        lemma_mul_is_commutative(pe as int, pow2(f as nat) as int);
        lemma_mul_is_commutative(pe as int, 0x800_0000);
    }
    let n = j as u128 * pe + u.mantissa as u128;
    let (q, k) = round_to_double(n);
    proof {
        let e = u.exponent as nat;
        if f < 27 {
            lemma_pow2_strictly_increases(f as nat, 27);
        }
        assert(j <= 0x7ff_ffff);
        lemma_mul_inequality(j as int, 0x7ff_ffff, pe as int);
        assert(pow2(e + 27) == pe * 0x800_0000);
        assert(n < pow2(27 + e));
        lemma_pow2_adds(53, e);
        lemma_pow2_strictly_increases(27 + e, 53 + e);
        lemma_excess_bits(n as nat, e);
        assert(pow2(f as nat + e) == 1 * pow2(f as nat + e));
        lemma_round_at_most(n as nat, 1, f as nat + e);
    }
    RUniform { mantissa: q, exponent: u.exponent + f - k }
}

/// `floor(n * u)` with the product rounded to a double, for `n < 2^53` and a
/// value `u` of at most 1; the result is at most `n`.
pub fn floor_of_product_exec(n: u64, u: RUniform) -> (r: u64)
    requires
        n < TWO_POW_53,
        u.mantissa <= TWO_POW_53,
        u.mantissa <= pow2(u.exponent as nat),
        u.exponent <= 112,
    ensures
        r == floor_of_product(n as nat, u),
        r <= n,
{
    proof {
        lemma2_to64_rest();
        lemma_pow2_adds(53, 53);
        assert(pow2(53) == TWO_POW_53);
        lemma_mul_inequality(n as int, TWO_POW_53 as int, u.mantissa as int);
        lemma_mul_inequality(u.mantissa as int, TWO_POW_53 as int, TWO_POW_53 as int);
        lemma_mul_is_commutative(n as int, u.mantissa as int);
    }
    let prod = n as u128 * u.mantissa as u128;
    let (q, k) = round_to_double(prod);
    let pe = pow2_u128(u.exponent);
    proof {
        let e = u.exponent as nat;
        lemma_mul_inequality(u.mantissa as int, pe as int, n as int);
        lemma_mul_is_commutative(u.mantissa as int, n as int);
        lemma_mul_is_commutative(pe as int, n as int);
        lemma_pow2_adds(53, e);
        lemma_pow2_pos(e);
        lemma_mul_strict_inequality(n as int, TWO_POW_53 as int, pe as int);
        lemma_excess_bits(prod as nat, e);
        assert(prod as nat <= n as nat * pow2(e));
        lemma_round_at_most(prod as nat, n as nat, e);
        lemma_excess_bits(prod as nat, 53);
        lemma_pow2_strictly_increases(53, 107);
        lemma_pow2_adds(53, 54);
        lemma_mul_inequality(u.mantissa as int, TWO_POW_53 as int, n as int);
        lemma_mul_is_commutative(TWO_POW_53 as int, n as int);
        assert(prod < pow2(53 + 53));
        assert(k <= 53);
        if k < 53 {
            lemma_pow2_strictly_increases(k as nat, 53);
        }
        lemma_mul_inequality(q as int, TWO_POW_53 as int, pow2(k as nat) as int);
        lemma_mul_inequality(pow2(k as nat) as int, TWO_POW_53 as int, TWO_POW_53 as int);
        lemma_mul_is_commutative(pow2(k as nat) as int, TWO_POW_53 as int);
        lemma_pow2_adds(64, 63);
        lemma_pow2_pos(e);
        lemma_div_is_ordered((q as nat * pow2(k as nat)) as int, (n as nat * pow2(e)) as int, pe as int);
        lemma_div_multiples_vanish(n as int, pe as int);
        lemma_mul_is_commutative(n as int, pe as int);
    }
    let pk = pow2_u128(k);
    ((q as u128 * pk) / pe) as u64
}

} // verus!
