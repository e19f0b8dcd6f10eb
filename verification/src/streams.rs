//! The MRG32k3a recurrences written as matrices, and the proof that R's
//! stream jumps move a generator exactly `2^127` and `2^76` steps ahead.
use crate::lecuyer::{
    a1p127, a1p76, a2p127, a2p76, lecuyer_jump, lecuyer_next, lecuyer_nonzero, lecuyer_valid,
    mat_vec_mod, M1, M2,
};
use vstd::arithmetic::div_mod::*;
use vstd::arithmetic::mul::*;
use vstd::arithmetic::power2::*;
use vstd::prelude::*;

verus! {

/// A 3x3 integer matrix; `aRC` is the entry in row `R`, column `C`.
pub struct Mat3 {
    pub a00: int,
    pub a01: int,
    pub a02: int,
    pub a10: int,
    pub a11: int,
    pub a12: int,
    pub a20: int,
    pub a21: int,
    pub a22: int,
}

/// The product `x y`, each entry reduced modulo `m`.
pub open spec fn mat_mul(x: Mat3, y: Mat3, m: int) -> Mat3 {
    Mat3 {
        a00: (x.a00 * y.a00 + x.a01 * y.a10 + x.a02 * y.a20) % m,
        a01: (x.a00 * y.a01 + x.a01 * y.a11 + x.a02 * y.a21) % m,
        a02: (x.a00 * y.a02 + x.a01 * y.a12 + x.a02 * y.a22) % m,
        a10: (x.a10 * y.a00 + x.a11 * y.a10 + x.a12 * y.a20) % m,
        a11: (x.a10 * y.a01 + x.a11 * y.a11 + x.a12 * y.a21) % m,
        a12: (x.a10 * y.a02 + x.a11 * y.a12 + x.a12 * y.a22) % m,
        a20: (x.a20 * y.a00 + x.a21 * y.a10 + x.a22 * y.a20) % m,
        a21: (x.a20 * y.a01 + x.a21 * y.a11 + x.a22 * y.a21) % m,
        a22: (x.a20 * y.a02 + x.a21 * y.a12 + x.a22 * y.a22) % m,
    }
}

/// The matrix `x` times the column `v`, each entry reduced modulo `m`.
pub open spec fn mat_apply(x: Mat3, v: (int, int, int), m: int) -> (int, int, int) {
    (
        (x.a00 * v.0 + x.a01 * v.1 + x.a02 * v.2) % m,
        (x.a10 * v.0 + x.a11 * v.1 + x.a12 * v.2) % m,
        (x.a20 * v.0 + x.a21 * v.1 + x.a22 * v.2) % m,
    )
}

/// `x` squared `k` times modulo `m`: the power `x^(2^k)`.
pub open spec fn squarings(x: Mat3, m: int, k: nat) -> Mat3
    decreases k,
{
    if k == 0 {
        x
    } else {
        let p = squarings(x, m, (k - 1) as nat);
        mat_mul(p, p, m)
    }
}

/// The nine entries of a row-major matrix.
pub open spec fn mat_of(a: Seq<u64>) -> Mat3 {
    Mat3 {
        a00: a[0] as int,
        a01: a[1] as int,
        a02: a[2] as int,
        a10: a[3] as int,
        a11: a[4] as int,
        a12: a[5] as int,
        a20: a[6] as int,
        a21: a[7] as int,
        a22: a[8] as int,
    }
}

/// One step of the first component: `(x0, x1, x2)` becomes
/// `(x1, x2, 1403580 x1 - 810728 x0)` modulo `M1`.
pub open spec fn first_step() -> Mat3 {
    Mat3 { a00: 0, a01: 1, a02: 0, a10: 0, a11: 0, a12: 1, a20: M1 - 810728, a21: 1403580, a22: 0 }
}

/// One step of the second component: `(x3, x4, x5)` becomes
/// `(x4, x5, 527612 x5 - 1370589 x3)` modulo `M2`.
pub open spec fn second_step() -> Mat3 {
    Mat3 { a00: 0, a01: 1, a02: 0, a10: 0, a11: 0, a12: 1, a20: M2 - 1370589, a21: 0, a22: 527612 }
}

/// The first three words multiplied by `x` modulo `M1`, the last three by `y`
/// modulo `M2`.
pub open spec fn matrix_jump(w: Seq<u32>, x: Mat3, y: Mat3) -> Seq<u32> {
    let p = mat_apply(x, (w[0] as int, w[1] as int, w[2] as int), M1 as int);
    let q = mat_apply(y, (w[3] as int, w[4] as int, w[5] as int), M2 as int);
    seq![p.0 as u32, p.1 as u32, p.2 as u32, q.0 as u32, q.1 as u32, q.2 as u32]
}

/// The words after `n` steps of the generator.
pub open spec fn lecuyer_advance(w: Seq<u32>, n: nat) -> Seq<u32>
    decreases n,
{
    if n == 0 {
        w
    } else {
        lecuyer_advance(lecuyer_next(w).0, (n - 1) as nat)
    }
}

/// `(t0 + t1 + t2) s` multiplied out.
proof fn lemma_distribute(t0: int, t1: int, t2: int, s: int)
    ensures
        (t0 + t1 + t2) * s == t0 * s + t1 * s + t2 * s,
        s * (t0 + t1 + t2) == s * t0 + s * t1 + s * t2,
{
    lemma_mul_is_distributive_add_other_way(s, t0 + t1, t2);
    lemma_mul_is_distributive_add_other_way(s, t0, t1);
    lemma_mul_is_distributive_add(s, t0 + t1, t2);
    lemma_mul_is_distributive_add(s, t0, t1);
}

/// Dot products whose coefficients agree modulo `m` agree modulo `m`, with the
/// coefficients on either side of the product.
proof fn lemma_mod_dot(a: (int, int, int), b: (int, int, int), x: (int, int, int), m: int)
    requires
        m > 0,
        a.0 % m == b.0 % m,
        a.1 % m == b.1 % m,
        a.2 % m == b.2 % m,
    ensures
        (a.0 * x.0 + a.1 * x.1 + a.2 * x.2) % m == (b.0 * x.0 + b.1 * x.1 + b.2 * x.2) % m,
        (x.0 * a.0 + x.1 * a.1 + x.2 * a.2) % m == (x.0 * b.0 + x.1 * b.1 + x.2 * b.2) % m,
{
    let q0 = a.0 / m - b.0 / m;
    let q1 = a.1 / m - b.1 / m;
    let q2 = a.2 / m - b.2 / m;
    lemma_fundamental_div_mod(a.0, m);
    lemma_fundamental_div_mod(b.0, m);
    lemma_fundamental_div_mod(a.1, m);
    lemma_fundamental_div_mod(b.1, m);
    lemma_fundamental_div_mod(a.2, m);
    lemma_fundamental_div_mod(b.2, m);
    lemma_mul_is_distributive_sub(m, a.0 / m, b.0 / m);
    lemma_mul_is_distributive_sub(m, a.1 / m, b.1 / m);
    lemma_mul_is_distributive_sub(m, a.2 / m, b.2 / m);
    assert(a.0 == b.0 + m * q0);
    assert(a.1 == b.1 + m * q1);
    assert(a.2 == b.2 + m * q2);
    lemma_mul_is_distributive_add_other_way(x.0, b.0, m * q0);
    lemma_mul_is_distributive_add_other_way(x.1, b.1, m * q1);
    lemma_mul_is_distributive_add_other_way(x.2, b.2, m * q2);
    lemma_mul_is_associative(m, q0, x.0);
    lemma_mul_is_associative(m, q1, x.1);
    lemma_mul_is_associative(m, q2, x.2);
    let k = q0 * x.0 + q1 * x.1 + q2 * x.2;
    let rest = b.0 * x.0 + b.1 * x.1 + b.2 * x.2;
    lemma_distribute(q0 * x.0, q1 * x.1, q2 * x.2, m);
    assert(a.0 * x.0 + a.1 * x.1 + a.2 * x.2 == m * k + rest);
    lemma_mod_multiples_vanish(k, rest, m);
    lemma_mul_is_commutative(x.0, a.0);
    lemma_mul_is_commutative(x.1, a.1);
    lemma_mul_is_commutative(x.2, a.2);
    lemma_mul_is_commutative(x.0, b.0);
    lemma_mul_is_commutative(x.1, b.1);
    lemma_mul_is_commutative(x.2, b.2);
}

/// A row times a matrix times a column, multiplied out in either order.
proof fn lemma_row_column(p: (int, int, int), y: Mat3, v: (int, int, int))
    ensures
        (p.0 * y.a00 + p.1 * y.a10 + p.2 * y.a20) * v.0 + (p.0 * y.a01 + p.1 * y.a11 + p.2 * y.a21)
            * v.1 + (p.0 * y.a02 + p.1 * y.a12 + p.2 * y.a22) * v.2 == p.0 * (y.a00 * v.0 + y.a01
            * v.1 + y.a02 * v.2) + p.1 * (y.a10 * v.0 + y.a11 * v.1 + y.a12 * v.2) + p.2 * (y.a20
            * v.0 + y.a21 * v.1 + y.a22 * v.2),
{
    lemma_distribute(p.0 * y.a00, p.1 * y.a10, p.2 * y.a20, v.0);
    lemma_distribute(p.0 * y.a01, p.1 * y.a11, p.2 * y.a21, v.1);
    lemma_distribute(p.0 * y.a02, p.1 * y.a12, p.2 * y.a22, v.2);
    lemma_distribute(y.a00 * v.0, y.a01 * v.1, y.a02 * v.2, p.0);
    lemma_distribute(y.a10 * v.0, y.a11 * v.1, y.a12 * v.2, p.1);
    lemma_distribute(y.a20 * v.0, y.a21 * v.1, y.a22 * v.2, p.2);
    lemma_mul_is_associative(p.0, y.a00, v.0);
    lemma_mul_is_associative(p.0, y.a01, v.1);
    lemma_mul_is_associative(p.0, y.a02, v.2);
    lemma_mul_is_associative(p.1, y.a10, v.0);
    lemma_mul_is_associative(p.1, y.a11, v.1);
    lemma_mul_is_associative(p.1, y.a12, v.2);
    lemma_mul_is_associative(p.2, y.a20, v.0);
    lemma_mul_is_associative(p.2, y.a21, v.1);
    lemma_mul_is_associative(p.2, y.a22, v.2);
}

/// One row of a product applied to a column: reducing modulo `m` between the
/// two multiplications changes nothing.
proof fn lemma_row_of_product(p: (int, int, int), y: Mat3, v: (int, int, int), m: int)
    requires
        m > 0,
    ensures
        ({
            let c0 = p.0 * y.a00 + p.1 * y.a10 + p.2 * y.a20;
            let c1 = p.0 * y.a01 + p.1 * y.a11 + p.2 * y.a21;
            let c2 = p.0 * y.a02 + p.1 * y.a12 + p.2 * y.a22;
            let u = mat_apply(y, v, m);
            ((c0 % m) * v.0 + (c1 % m) * v.1 + (c2 % m) * v.2) % m == (p.0 * u.0 + p.1 * u.1
                + p.2 * u.2) % m
        }),
{
    let c0 = p.0 * y.a00 + p.1 * y.a10 + p.2 * y.a20;
    let c1 = p.0 * y.a01 + p.1 * y.a11 + p.2 * y.a21;
    let c2 = p.0 * y.a02 + p.1 * y.a12 + p.2 * y.a22;
    let w0 = y.a00 * v.0 + y.a01 * v.1 + y.a02 * v.2;
    let w1 = y.a10 * v.0 + y.a11 * v.1 + y.a12 * v.2;
    let w2 = y.a20 * v.0 + y.a21 * v.1 + y.a22 * v.2;
    lemma_mod_twice(c0, m);
    lemma_mod_twice(c1, m);
    lemma_mod_twice(c2, m);
    lemma_mod_dot((c0 % m, c1 % m, c2 % m), (c0, c1, c2), v, m);
    lemma_row_column(p, y, v);
    lemma_mod_twice(w0, m);
    lemma_mod_twice(w1, m);
    lemma_mod_twice(w2, m);
    lemma_mod_dot((w0, w1, w2), (w0 % m, w1 % m, w2 % m), p, m);
}

/// Applying a product is applying its factors in turn.
proof fn lemma_apply_product(x: Mat3, y: Mat3, v: (int, int, int), m: int)
    requires
        m > 0,
    ensures
        mat_apply(mat_mul(x, y, m), v, m) == mat_apply(x, mat_apply(y, v, m), m),
{
    lemma_row_of_product((x.a00, x.a01, x.a02), y, v, m);
    lemma_row_of_product((x.a10, x.a11, x.a12), y, v, m);
    lemma_row_of_product((x.a20, x.a21, x.a22), y, v, m);
}

/// A matrix jump always leaves valid words, and its words are the reduced
/// products themselves.
proof fn lemma_matrix_jump_words(w: Seq<u32>, x: Mat3, y: Mat3)
    ensures
        lecuyer_valid(matrix_jump(w, x, y)),
        ({
            let j = matrix_jump(w, x, y);
            let p = mat_apply(x, (w[0] as int, w[1] as int, w[2] as int), M1 as int);
            let q = mat_apply(y, (w[3] as int, w[4] as int, w[5] as int), M2 as int);
            j[0] == p.0 && j[1] == p.1 && j[2] == p.2 && j[3] == q.0 && j[4] == q.1 && j[5] == q.2
        }),
{
    let p = mat_apply(x, (w[0] as int, w[1] as int, w[2] as int), M1 as int);
    let q = mat_apply(y, (w[3] as int, w[4] as int, w[5] as int), M2 as int);
    lemma_mod_bound(x.a00 * w[0] + x.a01 * w[1] + x.a02 * w[2], M1 as int);
    lemma_mod_bound(x.a10 * w[0] + x.a11 * w[1] + x.a12 * w[2], M1 as int);
    lemma_mod_bound(x.a20 * w[0] + x.a21 * w[1] + x.a22 * w[2], M1 as int);
    lemma_mod_bound(y.a00 * w[3] + y.a01 * w[4] + y.a02 * w[5], M2 as int);
    lemma_mod_bound(y.a10 * w[3] + y.a11 * w[4] + y.a12 * w[5], M2 as int);
    lemma_mod_bound(y.a20 * w[3] + y.a21 * w[4] + y.a22 * w[5], M2 as int);
}

/// Jumping twice by the same matrices is jumping once by their squares.
proof fn lemma_matrix_jump_twice(w: Seq<u32>, x: Mat3, y: Mat3)
    ensures
        matrix_jump(matrix_jump(w, x, y), x, y) == matrix_jump(
            w,
            mat_mul(x, x, M1 as int),
            mat_mul(y, y, M2 as int),
        ),
{
    let j = matrix_jump(w, x, y);
    lemma_matrix_jump_words(w, x, y);
    lemma_apply_product(x, x, (w[0] as int, w[1] as int, w[2] as int), M1 as int);
    lemma_apply_product(y, y, (w[3] as int, w[4] as int, w[5] as int), M2 as int);
    assert(matrix_jump(j, x, y) =~= matrix_jump(w, mat_mul(x, x, M1 as int), mat_mul(y, y, M2 as int)));
}

/// One step of the generator is the jump by the one-step matrices.
proof fn lemma_step_is_jump(w: Seq<u32>)
    requires
        lecuyer_valid(w),
    ensures
        lecuyer_next(w).0 == matrix_jump(w, first_step(), second_step()),
{
    let x = first_step();
    let y = second_step();
    let p = mat_apply(x, (w[0] as int, w[1] as int, w[2] as int), M1 as int);
    let q = mat_apply(y, (w[3] as int, w[4] as int, w[5] as int), M2 as int);
    lemma_small_mod(w[1] as nat, M1 as nat);
    lemma_small_mod(w[2] as nat, M1 as nat);
    lemma_small_mod(w[4] as nat, M2 as nat);
    lemma_small_mod(w[5] as nat, M2 as nat);
    assert(p.0 == w[1]);
    assert(p.1 == w[2]);
    assert(q.0 == w[4]);
    assert(q.1 == w[5]);
    let d1 = 1403580 * w[1] - 810728 * w[0];
    let d2 = 527612 * w[5] - 1370589 * w[3];
    assert(x.a20 * w[0] + x.a21 * w[1] + x.a22 * w[2] == M1 * w[0] + d1);
    assert(y.a20 * w[3] + y.a21 * w[4] + y.a22 * w[5] == M2 * w[3] + d2);
    lemma_mod_multiples_vanish(w[0] as int, d1, M1 as int);
    lemma_mod_multiples_vanish(w[3] as int, d2, M2 as int);
    lemma_matrix_jump_words(w, x, y);
    assert(lecuyer_next(w).0 =~= matrix_jump(w, x, y));
}

/// A step keeps the words valid.
proof fn lemma_next_valid(w: Seq<u32>)
    requires
        lecuyer_valid(w),
    ensures
        lecuyer_valid(lecuyer_next(w).0),
{
    lemma_step_is_jump(w);
    lemma_matrix_jump_words(w, first_step(), second_step());
}

/// Any number of steps keeps the words valid.
proof fn lemma_advance_valid(w: Seq<u32>, n: nat)
    requires
        lecuyer_valid(w),
    ensures
        lecuyer_valid(lecuyer_advance(w, n)),
    decreases n,
{
    if n > 0 {
        lemma_next_valid(w);
        lemma_advance_valid(lecuyer_next(w).0, (n - 1) as nat);
    }
}

/// `c x` is a multiple of `m` only when `x` is, for `x` in `0..m`, when `u` is
/// an inverse of `c` modulo `m` (`u c = 1 + t m`).
proof fn lemma_multiple_cancels(c: int, u: int, t: int, m: int, x: int)
    requires
        m > 0,
        u * c == 1 + t * m,
        0 <= x < m,
        (c * x) % m == 0,
    ensures
        x == 0,
{
    lemma_fundamental_div_mod(c * x, m);
    let q = (c * x) / m;
    let k = u * q - t * x;
    assert(x == m * k) by (nonlinear_arith)
        requires
            u * c == 1 + t * m,
            c * x == m * q,
            k == u * q - t * x,
    ;
    assert(k == 0) by (nonlinear_arith)
        requires
            x == m * k,
            0 <= x < m,
            m > 0,
    ;
}

/// A step keeps each component away from all zero: the recurrences are
/// invertible, since 810728 and 1370589 have inverses modulo `M1` and `M2`.
pub proof fn lemma_next_keeps_nonzero(w: Seq<u32>)
    requires
        lecuyer_valid(w),
        lecuyer_nonzero(w),
    ensures
        lecuyer_valid(lecuyer_next(w).0),
        lecuyer_nonzero(lecuyer_next(w).0),
{
    lemma_next_valid(w);
    let n = lecuyer_next(w).0;
    let p1 = (1403580 * w[1] - 810728 * w[0]) % (M1 as int);
    let p2 = (527612 * w[5] - 1370589 * w[3]) % (M2 as int);
    lemma_mod_bound(1403580 * w[1] - 810728 * w[0], M1 as int);
    lemma_mod_bound(527612 * w[5] - 1370589 * w[3], M2 as int);
    if n[0] == 0 && n[1] == 0 && n[2] == 0 {
        assert(p1 == 0);
        assert(-810728 * w[0] == 1403580 * w[1] - 810728 * w[0]);
        lemma_multiple_cancels(-810728, -2349796154, 443553, M1 as int, w[0] as int);
    }
    if n[3] == 0 && n[4] == 0 && n[5] == 0 {
        assert(p2 == 0);
        assert(-1370589 * w[3] == 527612 * w[5] - 1370589 * w[3]);
        lemma_multiple_cancels(-1370589, -69372715, 22138, M2 as int, w[3] as int);
    }
}

/// Any number of steps keeps the words valid and each component nonzero.
pub proof fn lemma_advance_keeps_nonzero(w: Seq<u32>, n: nat)
    requires
        lecuyer_valid(w),
        lecuyer_nonzero(w),
    ensures
        lecuyer_valid(lecuyer_advance(w, n)),
        lecuyer_nonzero(lecuyer_advance(w, n)),
    decreases n,
{
    if n > 0 {
        lemma_next_keeps_nonzero(w);
        lemma_advance_keeps_nonzero(lecuyer_next(w).0, (n - 1) as nat);
    }
}

/// `a + b` steps are `a` steps followed by `b` steps.
proof fn lemma_advance_add(w: Seq<u32>, a: nat, b: nat)
    ensures
        lecuyer_advance(w, a + b) == lecuyer_advance(lecuyer_advance(w, a), b),
    decreases a,
{
    if a > 0 {
        lemma_advance_add(lecuyer_next(w).0, (a - 1) as nat, b);
        assert((a + b - 1) as nat == (a - 1) as nat + b);
    }
}

/// `2^k` steps are the jump by the one-step matrices squared `k` times.
proof fn lemma_advance_pow2(w: Seq<u32>, k: nat)
    requires
        lecuyer_valid(w),
    ensures
        lecuyer_advance(w, pow2(k)) == matrix_jump(
            w,
            squarings(first_step(), M1 as int, k),
            squarings(second_step(), M2 as int, k),
        ),
    decreases k,
{
    if k == 0 {
        lemma2_to64();
        lemma_step_is_jump(w);
        assert(lecuyer_advance(lecuyer_next(w).0, 0) == lecuyer_next(w).0);
    } else {
        let h = (k - 1) as nat;
        let x = squarings(first_step(), M1 as int, h);
        let y = squarings(second_step(), M2 as int, h);
        lemma_pow2_unfold(k);
        lemma_advance_add(w, pow2(h), pow2(h));
        lemma_advance_pow2(w, h);
        lemma_matrix_jump_words(w, x, y);
        lemma_advance_pow2(matrix_jump(w, x, y), h);
        lemma_matrix_jump_twice(w, x, y);
    }
}

/// R's jump matrices, read as matrices.
proof fn lemma_jump_as_matrices(w: Seq<u32>, a: Seq<u64>, b: Seq<u64>)
    requires
        w.len() == 6,
        a.len() == 9,
        b.len() == 9,
    ensures
        lecuyer_jump(w, a, b) == matrix_jump(w, mat_of(a), mat_of(b)),
{
    let first = mat_vec_mod(a, w.subrange(0, 3), M1 as int);
    let second = mat_vec_mod(b, w.subrange(3, 6), M2 as int);
    assert(w.subrange(0, 3)[0] == w[0] && w.subrange(0, 3)[1] == w[1] && w.subrange(0, 3)[2]
        == w[2]);
    assert(w.subrange(3, 6)[0] == w[3] && w.subrange(3, 6)[1] == w[4] && w.subrange(3, 6)[2]
        == w[5]);
    assert(lecuyer_jump(w, a, b) =~= matrix_jump(w, mat_of(a), mat_of(b)));
}

/// The powers of the one-step matrices agree with the tables below.
proof fn lemma_powers_match_tables(k: nat)
    requires
        k <= 127,
    ensures
        squarings(first_step(), M1 as int, k) == first_power_table(k),
        squarings(second_step(), M2 as int, k) == second_power_table(k),
    decreases k,
{
    if k > 0 {
        lemma_powers_match_tables((k - 1) as nat);
        lemma_first_table_squares((k - 1) as nat);
        lemma_second_table_squares((k - 1) as nat);
    }
}

/// R's `nextRNGStream` matrices move the words exactly `2^127` steps ahead,
/// and its `nextRNGSubStream` matrices exactly `2^76` steps.
pub proof fn lemma_stream_jumps(w: Seq<u32>)
    requires
        lecuyer_valid(w),
    ensures
        lecuyer_jump(w, a1p127(), a2p127()) == lecuyer_advance(w, pow2(127)),
        lecuyer_jump(w, a1p76(), a2p76()) == lecuyer_advance(w, pow2(76)),
{
    lemma_advance_pow2(w, 127);
    lemma_advance_pow2(w, 76);
    lemma_powers_match_tables(127);
    lemma_powers_match_tables(76);
    lemma_jump_as_matrices(w, a1p127(), a2p127());
    lemma_jump_as_matrices(w, a1p76(), a2p76());
    assert(mat_of(a1p127()) == first_power_table(127));
    assert(mat_of(a2p127()) == second_power_table(127));
    assert(mat_of(a1p76()) == first_power_table(76));
    assert(mat_of(a2p76()) == second_power_table(76));
}

/// Both jumps keep the words valid and each component nonzero.
pub proof fn lemma_jumps_keep_nonzero(w: Seq<u32>)
    requires
        lecuyer_valid(w),
        lecuyer_nonzero(w),
    ensures
        lecuyer_valid(lecuyer_jump(w, a1p127(), a2p127())),
        lecuyer_nonzero(lecuyer_jump(w, a1p127(), a2p127())),
        lecuyer_valid(lecuyer_jump(w, a1p76(), a2p76())),
        lecuyer_nonzero(lecuyer_jump(w, a1p76(), a2p76())),
{
    lemma_stream_jumps(w);
    lemma_advance_keeps_nonzero(w, pow2(127));
    lemma_advance_keeps_nonzero(w, pow2(76));
}

/// Each entry of the first table is the square of the one before.
proof fn lemma_first_table_squares(k: nat)
    by (nonlinear_arith)
    requires
        k < 127,
    ensures
        mat_mul(first_power_table(k), first_power_table(k), M1 as int) == first_power_table(k + 1),
{
}

/// Each entry of the second table is the square of the one before.
proof fn lemma_second_table_squares(k: nat)
    by (nonlinear_arith)
    requires
        k < 127,
    ensures
        mat_mul(second_power_table(k), second_power_table(k), M2 as int) == second_power_table(k + 1),
{
}

/// `first_step()` raised to `2^k` modulo `M1`, for `k` up to 127.
pub open spec fn first_power_table(k: nat) -> Mat3 {
    if k == 0 {
        Mat3 { a00: 0, a01: 1, a02: 0, a10: 0, a11: 0, a12: 1, a20: 4294156359, a21: 1403580, a22: 0 }
    } else if k == 1 {
        Mat3 { a00: 0, a01: 0, a02: 1, a10: 4294156359, a11: 1403580, a12: 0, a20: 0, a21: 4294156359, a22: 1403580 }
    } else if k == 2 {
        Mat3 { a00: 0, a01: 4294156359, a02: 1403580, a10: 244671815, a11: 2941890554, a12: 4294156359, a20: 149925673, a21: 489343630, a22: 2941890554 }
    } else if k == 3 {
        Mat3 { a00: 1527363550, a01: 2758233149, a02: 1831234280, a10: 4072640363, a11: 939574583, a12: 2758233149, a20: 2064391165, a21: 3228066636, a22: 939574583 }
    } else if k == 4 {
        Mat3 { a00: 736416029, a01: 2961816100, a02: 342112271, a10: 387300998, a11: 1062452522, a12: 2961816100, a20: 2955879160, a21: 340793741, a22: 1062452522 }
    } else if k == 5 {
        Mat3 { a00: 1243502014, a01: 2218748291, a02: 1709215645, a10: 2019641772, a11: 3847560959, a12: 2218748291, a20: 3866010231, a21: 2305448679, a22: 3847560959 }
    } else if k == 6 {
        Mat3 { a00: 3241775219, a01: 3453352062, a02: 3721871040, a10: 4062454730, a11: 3015754, a12: 3453352062, a20: 919711945, a21: 613405362, a22: 3015754 }
    } else if k == 7 {
        Mat3 { a00: 1955221006, a01: 1414472808, a02: 1746037714, a10: 3653507277, a11: 1644962013, a12: 1414472808, a20: 3501544776, a21: 2336229602, a22: 1644962013 }
    } else if k == 8 {
        Mat3 { a00: 1170096663, a01: 49135452, a02: 3441537107, a10: 1857945175, a11: 1649398389, a12: 49135452, a20: 333002869, a21: 3109147376, a22: 1649398389 }
    } else if k == 9 {
        Mat3 { a00: 2299034194, a01: 2297111910, a02: 862649200, a10: 1399961132, a11: 996706937, a12: 2297111910, a20: 3439056503, a21: 1481993076, a22: 996706937 }
    } else if k == 10 {
        Mat3 { a00: 4146310528, a01: 458782589, a02: 1007330283, a10: 4241015765, a11: 3979619964, a12: 458782589, a20: 553886495, a21: 2186897562, a22: 3979619964 }
    } else if k == 11 {
        Mat3 { a00: 3630027893, a01: 2130448350, a02: 292773857, a10: 1392525159, a11: 1299285967, a12: 2130448350, a20: 2589171163, a21: 1217405758, a22: 1299285967 }
    } else if k == 12 {
        Mat3 { a00: 892409263, a01: 1999175811, a02: 2979225418, a10: 1996163538, a11: 2148702503, a12: 1999175811, a20: 3922720782, a21: 103819730, a22: 2148702503 }
    } else if k == 13 {
        Mat3 { a00: 1586003016, a01: 2114210471, a02: 3240775579, a10: 2777288607, a11: 1400478398, a12: 2114210471, a20: 3018215420, a21: 535326008, a22: 1400478398 }
    } else if k == 14 {
        Mat3 { a00: 2188531273, a01: 1783231160, a02: 3576659343, a10: 1908318389, a11: 379210133, a12: 1783231160, a20: 554369329, a21: 250053591, a22: 379210133 }
    } else if k == 15 {
        Mat3 { a00: 4022841636, a01: 3951951872, a02: 2143424240, a10: 1046219306, a11: 1591992468, a12: 3951951872, a20: 1510277444, a21: 381333958, a22: 1591992468 }
    } else if k == 16 {
        Mat3 { a00: 2256493727, a01: 3715182130, a02: 642697923, a10: 3615342722, a11: 3975008370, a12: 3715182130, a20: 2405650329, a21: 754337639, a22: 3975008370 }
    } else if k == 17 {
        Mat3 { a00: 1286664224, a01: 627406673, a02: 963516608, a10: 1541344588, a11: 460768826, a12: 627406673, a20: 1089892553, a21: 2717717970, a22: 460768826 }
    } else if k == 18 {
        Mat3 { a00: 2956342842, a01: 3471097641, a02: 2353092905, a10: 2996150472, a11: 420480221, a12: 3471097641, a20: 2221681883, a21: 372736411, a22: 420480221 }
    } else if k == 19 {
        Mat3 { a00: 420492906, a01: 153526651, a02: 3499730988, a10: 2662640502, a11: 3278195133, a12: 153526651, a20: 4086436419, a21: 2510762118, a22: 3278195133 }
    } else if k == 20 {
        Mat3 { a00: 3310184147, a01: 2228376089, a02: 823220763, a10: 3992771814, a11: 1693168425, a12: 2228376089, a20: 2295790366, a21: 1401872772, a22: 1693168425 }
    } else if k == 21 {
        Mat3 { a00: 2529428830, a01: 1497104068, a02: 4253248635, a10: 3746310018, a11: 630867741, a12: 1497104068, a20: 627043435, a21: 721725795, a22: 630867741 }
    } else if k == 22 {
        Mat3 { a00: 2571072593, a01: 3039669025, a02: 1591031831, a10: 526054481, a11: 661344445, a12: 3039669025, a20: 4246010312, a21: 735391270, a22: 661344445 }
    } else if k == 23 {
        Mat3 { a00: 1847312821, a01: 4042890210, a02: 4241772463, a10: 606605705, a11: 2644799309, a12: 4042890210, a20: 2658402822, a21: 1342278931, a22: 2644799309 }
    } else if k == 24 {
        Mat3 { a00: 2409846784, a01: 1096138313, a02: 1416249993, a10: 1501878241, a11: 138013862, a12: 1096138313, a20: 1617749306, a21: 1975136163, a22: 138013862 }
    } else if k == 25 {
        Mat3 { a00: 599453422, a01: 73950522, a02: 2965395603, a10: 55354701, a11: 3855242202, a12: 73950522, a20: 3981734504, a21: 3354399019, a22: 3855242202 }
    } else if k == 26 {
        Mat3 { a00: 4271076381, a01: 813410089, a02: 3461955319, a10: 1044920137, a11: 3029005516, a12: 813410089, a20: 3501837362, a21: 3321539504, a22: 3029005516 }
    } else if k == 27 {
        Mat3 { a00: 3058183515, a01: 941408572, a02: 1783998098, a10: 1546486080, a11: 4116985007, a12: 941408572, a20: 2247500745, a21: 1460625377, a22: 4116985007 }
    } else if k == 28 {
        Mat3 { a00: 4216782514, a01: 3352801941, a02: 2315095646, a10: 639029973, a11: 94451952, a12: 3352801941, a20: 1242898773, a21: 3964593332, a22: 94451952 }
    } else if k == 29 {
        Mat3 { a00: 2264905138, a01: 1926285644, a02: 1108147171, a10: 2390706911, a11: 385258225, a12: 1926285644, a20: 3569882325, a21: 3728744670, a22: 385258225 }
    } else if k == 30 {
        Mat3 { a00: 270679073, a01: 1065683096, a02: 2992662885, a10: 4196917281, a11: 2886425156, a12: 1065683096, a20: 749134119, a21: 1849148167, a22: 2886425156 }
    } else if k == 31 {
        Mat3 { a00: 35689930, a01: 1378151623, a02: 951629713, a10: 673810920, a11: 948843427, a12: 1378151623, a20: 3808868984, a21: 927013635, a22: 948843427 }
    } else if k == 32 {
        Mat3 { a00: 1891490872, a01: 1130489594, a02: 3734864133, a10: 1457450350, a11: 3362920032, a12: 1130489594, a20: 638998846, a21: 1401175590, a22: 3362920032 }
    } else if k == 33 {
        Mat3 { a00: 2254459023, a01: 2384691454, a02: 1730098031, a10: 2844861718, a11: 1807491073, a12: 2384691454, a20: 351423668, a21: 1570264155, a22: 1807491073 }
    } else if k == 34 {
        Mat3 { a00: 3047429268, a01: 4245359555, a02: 2449575498, a10: 1797081212, a11: 1237196477, a12: 4245359555, a20: 143400628, a21: 3663731096, a22: 1237196477 }
    } else if k == 35 {
        Mat3 { a00: 3313321106, a01: 4263819658, a02: 1047529624, a10: 3719941673, a11: 3155049403, a12: 4263819658, a20: 1981313839, a21: 4281524426, a22: 3155049403 }
    } else if k == 36 {
        Mat3 { a00: 2005252417, a01: 3263186729, a02: 1535805957, a10: 2951515865, a11: 1729281525, a12: 3263186729, a20: 1141249417, a21: 2268963059, a22: 1729281525 }
    } else if k == 37 {
        Mat3 { a00: 2367065164, a01: 83908466, a02: 4294308508, a10: 1352516724, a11: 1416676049, a12: 83908466, a20: 1040867745, a21: 1304732377, a22: 1416676049 }
    } else if k == 38 {
        Mat3 { a00: 3214147257, a01: 1434230503, a02: 2944821434, a10: 2753040912, a11: 4041536918, a12: 1434230503, a20: 1317260239, a21: 338830578, a22: 4041536918 }
    } else if k == 39 {
        Mat3 { a00: 300628476, a01: 2054743463, a02: 1499597869, a10: 1762244284, a11: 1422043015, a12: 2054743463, a20: 3581125669, a21: 1207561803, a22: 1422043015 }
    } else if k == 40 {
        Mat3 { a00: 4171745404, a01: 4064983592, a02: 1934508265, a10: 3049723261, a11: 1744636487, a12: 4064983592, a20: 947753516, a21: 3952135907, a22: 1744636487 }
    } else if k == 41 {
        Mat3 { a00: 1625369148, a01: 3577024659, a02: 2778677259, a10: 1729967818, a11: 1049600974, a12: 3577024659, a20: 2089137344, a21: 1569794605, a22: 1049600974 }
    } else if k == 42 {
        Mat3 { a00: 1373068765, a01: 3958611830, a02: 569117280, a10: 410042396, a11: 3551255470, a12: 3958611830, a20: 869476379, a21: 1680625376, a22: 3551255470 }
    } else if k == 43 {
        Mat3 { a00: 2108618602, a01: 2543645250, a02: 913717833, a10: 2111984988, a11: 1012482542, a12: 2543645250, a20: 2545745615, a21: 3141042890, a22: 1012482542 }
    } else if k == 44 {
        Mat3 { a00: 1157293598, a01: 584852249, a02: 2272893205, a10: 1631801979, a11: 3013855247, a12: 584852249, a20: 3977310441, a21: 82049263, a22: 3013855247 }
    } else if k == 45 {
        Mat3 { a00: 3580234334, a01: 3137526662, a02: 2403875621, a10: 3580869206, a11: 3670086228, a12: 3137526662, a20: 656744553, a21: 1764904195, a22: 3670086228 }
    } else if k == 46 {
        Mat3 { a00: 2792496861, a01: 3634185196, a02: 3887031679, a10: 3601823850, a11: 3464838365, a12: 3634185196, a20: 3136165138, a21: 2842987937, a22: 3464838365 }
    } else if k == 47 {
        Mat3 { a00: 1362557480, a01: 3230022138, a02: 4278720212, a10: 3427386258, a11: 3848976950, a12: 3230022138, a20: 2109817045, a21: 2441486578, a22: 3848976950 }
    } else if k == 48 {
        Mat3 { a00: 1198519135, a01: 2007945401, a02: 3868481, a10: 3335076429, a11: 2082683147, a12: 2007945401, a20: 2341088247, a21: 888193479, a22: 2082683147 }
    } else if k == 49 {
        Mat3 { a00: 3473925387, a01: 3193380570, a02: 565138859, a10: 307060547, a11: 782210925, a12: 3193380570, a20: 167617770, a21: 2180014252, a22: 782210925 }
    } else if k == 50 {
        Mat3 { a00: 3811588895, a01: 3303532086, a02: 2766583698, a10: 908630605, a11: 2665400165, a12: 3303532086, a20: 2499994113, a21: 3316180851, a22: 2665400165 }
    } else if k == 51 {
        Mat3 { a00: 4288926968, a01: 3033075037, a02: 1505732852, a10: 1531633406, a11: 645804125, a12: 3033075037, a20: 2942690261, a21: 2205365640, a22: 645804125 }
    } else if k == 52 {
        Mat3 { a00: 3976196483, a01: 3651411522, a02: 1652430357, a10: 1690405883, a11: 1294990760, a12: 3651411522, a20: 209339647, a21: 3088484327, a22: 1294990760 }
    } else if k == 53 {
        Mat3 { a00: 3171589548, a01: 2291131070, a02: 2093793287, a10: 2997812074, a11: 4093879780, a12: 2291131070, a20: 3255666800, a21: 858124816, a22: 4093879780 }
    } else if k == 54 {
        Mat3 { a00: 4113016361, a01: 2999667479, a02: 3995043314, a10: 1333973326, a11: 4007774239, a12: 2999667479, a20: 3322921863, a21: 4278103786, a22: 4007774239 }
    } else if k == 55 {
        Mat3 { a00: 925786347, a01: 2109676036, a02: 1879981040, a10: 1701566570, a11: 1489702270, a12: 2109676036, a20: 2719807628, a21: 158549605, a22: 1489702270 }
    } else if k == 56 {
        Mat3 { a00: 2255405265, a01: 3460246357, a02: 218033453, a10: 2135115875, a11: 359516994, a12: 3460246357, a20: 3568862459, a21: 3114762683, a22: 359516994 }
    } else if k == 57 {
        Mat3 { a00: 773148471, a01: 4117539411, a02: 3073622315, a10: 3807175775, a11: 186466108, a12: 4117539411, a20: 2842197411, a21: 651334129, a22: 186466108 }
    } else if k == 58 {
        Mat3 { a00: 615242951, a01: 1475251263, a02: 3586439101, a10: 1693917167, a11: 3058812486, a12: 1475251263, a20: 568701600, a21: 1164226398, a22: 3058812486 }
    } else if k == 59 {
        Mat3 { a00: 1632636204, a01: 15370275, a02: 2061555515, a10: 4187505695, a11: 1741164221, a12: 15370275, a20: 2882176274, a21: 3978412194, a22: 1741164221 }
    } else if k == 60 {
        Mat3 { a00: 3446066703, a01: 344820524, a02: 74213775, a10: 1008543583, a11: 2579620192, a12: 344820524, a20: 3753911358, a21: 1538453821, a22: 2579620192 }
    } else if k == 61 {
        Mat3 { a00: 3600859892, a01: 1269921024, a02: 4069458760, a10: 2050939727, a11: 2222725697, a12: 1269921024, a20: 3208347646, a21: 690898125, a22: 2222725697 }
    } else if k == 62 {
        Mat3 { a00: 599407451, a01: 2806239788, a02: 1742216102, a10: 975123999, a11: 764869161, a12: 2806239788, a20: 2729710367, a21: 1845257036, a22: 764869161 }
    } else if k == 63 {
        Mat3 { a00: 967330218, a01: 3464884028, a02: 3444447102, a10: 580449578, a11: 1343714307, a12: 3464884028, a20: 1775329096, a21: 4027221761, a22: 1343714307 }
    } else if k == 64 {
        Mat3 { a00: 3426136514, a01: 4123590610, a02: 2477690850, a10: 1284315665, a11: 1604068527, a12: 4123590610, a20: 1818147893, a21: 320435440, a22: 1604068527 }
    } else if k == 65 {
        Mat3 { a00: 2678132557, a01: 89090276, a02: 2719996384, a10: 607972119, a11: 3383659282, a12: 89090276, a20: 480221151, a21: 2265789281, a22: 3383659282 }
    } else if k == 66 {
        Mat3 { a00: 1827237091, a01: 2290099491, a02: 614471834, a10: 3711385978, a11: 2748163602, a12: 2290099491, a20: 2067064347, a21: 1071954219, a22: 2748163602 }
    } else if k == 67 {
        Mat3 { a00: 3894793123, a01: 921712152, a02: 596236860, a10: 4038673596, a11: 4279784147, a12: 921712152, a20: 1999065039, a21: 859801225, a22: 4279784147 }
    } else if k == 68 {
        Mat3 { a00: 7276915, a01: 3205297712, a02: 1204204130, a10: 2667672243, a11: 2737282292, a12: 3205297712, a20: 2282864144, a21: 2305990443, a22: 2737282292 }
    } else if k == 69 {
        Mat3 { a00: 935922304, a01: 2428000499, a02: 510672020, a10: 1541887892, a11: 92472822, a12: 2428000499, a20: 4146892220, a21: 1307489118, a22: 92472822 }
    } else if k == 70 {
        Mat3 { a00: 690398653, a01: 3787391292, a02: 1705516721, a10: 2953871718, a11: 4173917861, a12: 3787391292, a20: 817556203, a21: 3090114656, a22: 4173917861 }
    } else if k == 71 {
        Mat3 { a00: 476867729, a01: 1917800003, a02: 1740083735, a10: 3167988201, a11: 1286715218, a12: 1917800003, a20: 2579365599, a21: 4173763431, a22: 1286715218 }
    } else if k == 72 {
        Mat3 { a00: 4092801160, a01: 3749431174, a02: 542781592, a10: 1208313783, a11: 217808460, a12: 3749431174, a20: 2708923752, a21: 348848516, a22: 217808460 }
    } else if k == 73 {
        Mat3 { a00: 381829350, a01: 1732869179, a02: 3638540651, a10: 2509789412, a11: 1114357536, a12: 1732869179, a20: 2465372475, a21: 350550480, a22: 1114357536 }
    } else if k == 74 {
        Mat3 { a00: 3712059912, a01: 1698887908, a02: 3706277064, a10: 2152325130, a11: 232741719, a12: 1698887908, a20: 4114351745, a21: 170237153, a22: 232741719 }
    } else if k == 75 {
        Mat3 { a00: 993804379, a01: 905755330, a02: 1717718779, a10: 1712994855, a11: 2713148271, a12: 905755330, a20: 2200585411, a21: 111258429, a22: 2713148271 }
    } else if k == 76 {
        Mat3 { a00: 82758667, a01: 1871391091, a02: 4127413238, a10: 3672831523, a11: 69195019, a12: 1871391091, a20: 3672091415, a21: 3528743235, a22: 69195019 }
    } else if k == 77 {
        Mat3 { a00: 3361372532, a01: 2329303404, a02: 99651939, a10: 2008671965, a11: 2931758910, a12: 2329303404, a20: 1113529483, a21: 2374097189, a22: 2931758910 }
    } else if k == 78 {
        Mat3 { a00: 1831590873, a01: 1588259595, a02: 1314332382, a10: 2385989343, a11: 2508077280, a12: 1588259595, a20: 1787615788, a21: 661437137, a22: 2508077280 }
    } else if k == 79 {
        Mat3 { a00: 2326052247, a01: 4183591379, a02: 4049009082, a10: 2604529491, a11: 1453913233, a12: 4183591379, a20: 2311925423, a21: 1805360390, a22: 1453913233 }
    } else if k == 80 {
        Mat3 { a00: 3956367490, a01: 604461629, a02: 1257432102, a10: 794711716, a11: 1155867175, a12: 604461629, a20: 1777070788, a21: 429445904, a22: 1155867175 }
    } else if k == 81 {
        Mat3 { a00: 1686241617, a01: 1257046062, a02: 1427609439, a10: 490376081, a11: 387798431, a12: 1257046062, a20: 235551485, a21: 1312672615, a22: 387798431 }
    } else if k == 82 {
        Mat3 { a00: 2362447880, a01: 3445363024, a02: 3160262066, a10: 2426867845, a11: 4194339866, a12: 3445363024, a20: 1046144413, a21: 4177893681, a22: 4194339866 }
    } else if k == 83 {
        Mat3 { a00: 4251175413, a01: 3559576374, a02: 3107663662, a10: 697539134, a11: 1909472435, a12: 3559576374, a20: 280754246, a21: 375835695, a22: 1909472435 }
    } else if k == 84 {
        Mat3 { a00: 1099512970, a01: 712404985, a02: 1571467521, a10: 546519870, a11: 1135109300, a12: 712404985, a20: 3325312332, a21: 2352874613, a22: 1135109300 }
    } else if k == 85 {
        Mat3 { a00: 1945425936, a01: 1653045514, a02: 381988982, a10: 3733376326, a11: 414410025, a12: 1653045514, a20: 1181583679, a21: 1185848176, a22: 414410025 }
    } else if k == 86 {
        Mat3 { a00: 2526336124, a01: 3019211015, a02: 4215964965, a10: 2683163472, a11: 4188191530, a12: 3019211015, a20: 2964651598, a21: 293801056, a22: 4188191530 }
    } else if k == 87 {
        Mat3 { a00: 1444052678, a01: 2253324417, a02: 39719589, a10: 1880267534, a11: 2391992038, a12: 2253324417, a20: 987740265, a21: 3691889508, a22: 2391992038 }
    } else if k == 88 {
        Mat3 { a00: 166599066, a01: 2335494420, a02: 1232261118, a10: 2227597731, a11: 2570600780, a12: 2335494420, a20: 2700034538, a21: 3460843234, a22: 2570600780 }
    } else if k == 89 {
        Mat3 { a00: 2511338360, a01: 1188954576, a02: 1251401239, a10: 2511664974, a11: 292276982, a12: 1188954576, a20: 697844082, a21: 3093661552, a22: 292276982 }
    } else if k == 90 {
        Mat3 { a00: 3624650744, a01: 51993077, a02: 3540268009, a10: 3252828938, a11: 3710319575, a12: 51993077, a20: 2858628849, a21: 3910069381, a22: 3710319575 }
    } else if k == 91 {
        Mat3 { a00: 655966702, a01: 754002362, a02: 1646581402, a10: 1958331075, a11: 475572423, a12: 754002362, a20: 3248619000, a21: 3228514800, a22: 475572423 }
    } else if k == 92 {
        Mat3 { a00: 2760311307, a01: 4166372813, a02: 741596417, a10: 2282679206, a11: 3090782630, a12: 4166372813, a20: 3242468721, a21: 1628442374, a22: 3090782630 }
    } else if k == 93 {
        Mat3 { a00: 4265279407, a01: 3532111852, a02: 1754687396, a10: 500404765, a11: 2603727025, a12: 3532111852, a20: 1428367254, a21: 3149485478, a22: 2603727025 }
    } else if k == 94 {
        Mat3 { a00: 2873769531, a01: 2081104178, a02: 596284397, a10: 4153800443, a11: 1261269623, a12: 2081104178, a20: 3967600061, a21: 1830023157, a22: 1261269623 }
    } else if k == 95 {
        Mat3 { a00: 278611533, a01: 2229285304, a02: 3443204327, a10: 3110641420, a11: 77498444, a12: 2229285304, a20: 3904070810, a21: 1070507239, a22: 77498444 }
    } else if k == 96 {
        Mat3 { a00: 544639534, a01: 568528663, a02: 2177189807, a10: 2475829068, a11: 121482268, a12: 568528663, a20: 876978915, a21: 3116647617, a22: 121482268 }
    } else if k == 97 {
        Mat3 { a00: 1547862823, a01: 2404658587, a02: 4191448009, a10: 2158188804, a11: 2976916793, a12: 2404658587, a20: 168571747, a21: 1691884706, a22: 2976916793 }
    } else if k == 98 {
        Mat3 { a00: 3208213311, a01: 4212638780, a02: 3235157352, a10: 671148556, a11: 2951207765, a12: 4212638780, a20: 2075145516, a21: 2395485231, a22: 2951207765 }
    } else if k == 99 {
        Mat3 { a00: 4080517315, a01: 2133433101, a02: 4043998180, a10: 2044221845, a11: 867670560, a12: 2133433101, a20: 834432416, a21: 3613001199, a22: 867670560 }
    } else if k == 100 {
        Mat3 { a00: 4102885735, a01: 1319434267, a02: 2678775073, a10: 740092580, a11: 607380970, a12: 1319434267, a20: 2198271844, a21: 2610193258, a22: 607380970 }
    } else if k == 101 {
        Mat3 { a00: 1165218048, a01: 1317690360, a02: 1189150958, a10: 399240205, a11: 2507168618, a12: 1317690360, a20: 2988334517, a21: 2687593413, a22: 2507168618 }
    } else if k == 102 {
        Mat3 { a00: 1028861702, a01: 4082006648, a02: 338232527, a10: 1888486946, a11: 1842080991, a12: 4082006648, a20: 3903826366, a21: 3109935091, a22: 1842080991 }
    } else if k == 103 {
        Mat3 { a00: 614134826, a01: 2261996505, a02: 2888080641, a10: 710199359, a11: 2773979788, a12: 2261996505, a20: 1144301620, a21: 2554371815, a22: 2773979788 }
    } else if k == 104 {
        Mat3 { a00: 4056173823, a01: 1285620078, a02: 357420018, a10: 2423072612, a11: 2309408315, a12: 1285620078, a20: 1533175115, a21: 2760088020, a22: 2309408315 }
    } else if k == 105 {
        Mat3 { a00: 4264130267, a01: 815015434, a02: 3142242173, a10: 180649975, a11: 2500813569, a12: 815015434, a20: 3378723563, a21: 829683767, a22: 2500813569 }
    } else if k == 106 {
        Mat3 { a00: 4174387531, a01: 1030729435, a02: 2812778314, a10: 1752988797, a11: 4044178729, a12: 1030729435, a20: 467969301, a21: 554748104, a22: 4044178729 }
    } else if k == 107 {
        Mat3 { a00: 1348429235, a01: 2928743274, a02: 3776082629, a10: 3607529209, a11: 3069812185, a12: 2928743274, a20: 2542432347, a21: 3208181168, a22: 3069812185 }
    } else if k == 108 {
        Mat3 { a00: 4064845753, a01: 668285756, a02: 3816217625, a10: 3713143233, a11: 1380634204, a12: 668285756, a20: 3533700508, a21: 1192551435, a22: 1380634204 }
    } else if k == 109 {
        Mat3 { a00: 1515684518, a01: 1706771705, a02: 728123349, a10: 3174850469, a11: 2057456462, a12: 1706771705, a20: 3410402985, a21: 2897339640, a22: 2057456462 }
    } else if k == 110 {
        Mat3 { a00: 3082272717, a01: 531091457, a02: 1390161328, a10: 3895139973, a11: 2171402857, a12: 531091457, a20: 4030688141, a21: 3049703400, a22: 2171402857 }
    } else if k == 111 {
        Mat3 { a00: 1241147206, a01: 3193892819, a02: 1244284192, a10: 65180262, a11: 4065669017, a12: 3193892819, a20: 1484817937, a21: 3661081858, a22: 4065669017 }
    } else if k == 112 {
        Mat3 { a00: 1438760812, a01: 3491341751, a02: 3414470157, a10: 2805337292, a11: 272266053, a12: 3491341751, a20: 824109230, a21: 3202556526, a22: 272266053 }
    } else if k == 113 {
        Mat3 { a00: 135412706, a01: 3627115412, a02: 2345042216, a10: 1565169824, a11: 2166856449, a12: 3627115412, a20: 1026946745, a21: 3467845248, a22: 2166856449 }
    } else if k == 114 {
        Mat3 { a00: 1889419951, a01: 3256876154, a02: 1240505488, a10: 1254783743, a11: 989966800, a12: 3256876154, a20: 1995297400, a21: 3692472918, a22: 989966800 }
    } else if k == 115 {
        Mat3 { a00: 3206226875, a01: 285700890, a02: 496017472, a10: 2515316194, a11: 2129675196, a12: 285700890, a20: 1863853990, a21: 2673457552, a22: 2129675196 }
    } else if k == 116 {
        Mat3 { a00: 4163770641, a01: 255160418, a02: 772100749, a10: 1987092456, a11: 3237660221, a12: 255160418, a20: 1394381051, a21: 4216039401, a22: 3237660221 }
    } else if k == 117 {
        Mat3 { a00: 2133915627, a01: 2713747584, a02: 627765421, a10: 2300605925, a11: 35690583, a12: 2713747584, a20: 2918902946, a21: 2638220304, a22: 35690583 }
    } else if k == 118 {
        Mat3 { a00: 2587549655, a01: 998684270, a02: 4292130625, a10: 1791772791, a11: 2820705344, a12: 998684270, a20: 124590158, a21: 3831143549, a22: 2820705344 }
    } else if k == 119 {
        Mat3 { a00: 978482299, a01: 3200877282, a02: 497605289, a10: 3717741518, a11: 3737164414, a12: 3200877282, a20: 4046686626, a21: 861393946, a22: 3737164414 }
    } else if k == 120 {
        Mat3 { a00: 2665561897, a01: 300934584, a02: 3179822945, a10: 893043137, a11: 2031413512, a12: 300934584, a20: 3806926970, a21: 2413249929, a22: 2031413512 }
    } else if k == 121 {
        Mat3 { a00: 1417581911, a01: 3071835354, a02: 2575196237, a10: 4101127251, a11: 1375339216, a12: 3071835354, a20: 847617977, a21: 3632503316, a22: 1375339216 }
    } else if k == 122 {
        Mat3 { a00: 2747488994, a01: 3296604805, a02: 898095468, a10: 1742777145, a11: 219265369, a12: 3296604805, a20: 823714885, a21: 667779292, a22: 219265369 }
    } else if k == 123 {
        Mat3 { a00: 2640209692, a01: 3040506537, a02: 3626115220, a10: 161827078, a11: 852668118, a12: 3040506537, a20: 3856381322, a21: 3360242076, a22: 852668118 }
    } else if k == 124 {
        Mat3 { a00: 3734246393, a01: 4151553160, a02: 4177051283, a10: 266522866, a11: 1731798531, a12: 4151553160, a20: 632196679, a21: 3864297722, a22: 1731798531 }
    } else if k == 125 {
        Mat3 { a00: 1694175127, a01: 1087914338, a02: 2384195794, a10: 2764925057, a11: 505782858, a12: 1087914338, a20: 3235634082, a21: 807915248, a22: 505782858 }
    } else if k == 126 {
        Mat3 { a00: 2402749950, a01: 2353776151, a02: 75909174, a10: 890570951, a11: 1752665661, a12: 2353776151, a20: 3120241607, a21: 3862435696, a22: 1752665661 }
    } else {
        Mat3 { a00: 2427906178, a01: 3580155704, a02: 949770784, a10: 226153695, a11: 1230515664, a12: 3580155704, a20: 1988835001, a21: 986791581, a22: 1230515664 }
    }
}

/// `second_step()` raised to `2^k` modulo `M2`, for `k` up to 127.
pub open spec fn second_power_table(k: nat) -> Mat3 {
    if k == 0 {
        Mat3 { a00: 0, a01: 1, a02: 0, a10: 0, a11: 0, a12: 1, a20: 4293573854, a21: 0, a22: 527612 }
    } else if k == 1 {
        Mat3 { a00: 0, a01: 0, a02: 1, a10: 4293573854, a11: 0, a12: 527612, a20: 2706407399, a21: 4293573854, a22: 3497978192 }
    } else if k == 2 {
        Mat3 { a00: 2706407399, a01: 4293573854, a02: 3497978192, a10: 1431525864, a11: 2706407399, a12: 3281754271, a20: 97673890, a21: 1431525864, a22: 1673476130 }
    } else if k == 3 {
        Mat3 { a00: 3405842137, a01: 2680076935, a02: 893509979, a10: 4035147174, a11: 3405842137, a12: 3280220074, a20: 2623373296, a21: 4035147174, a22: 361718588 }
    } else if k == 4 {
        Mat3 { a00: 818368950, a01: 3790774567, a02: 3542344109, a10: 1817134745, a11: 818368950, a12: 3321940838, a20: 3493477402, a21: 1817134745, a22: 2854655037 }
    } else if k == 5 {
        Mat3 { a00: 498682467, a01: 2928649385, a02: 811441367, a10: 1777037472, a11: 498682467, a12: 479207863, a20: 3058260025, a21: 1777037472, a22: 1528225099 }
    } else if k == 6 {
        Mat3 { a00: 3893311647, a01: 3140922085, a02: 64039185, a10: 82107183, a11: 3893311647, a12: 2655465224, a20: 1674879036, a21: 82107183, a22: 1089381262 }
    } else if k == 7 {
        Mat3 { a00: 28639152, a01: 3496041927, a02: 2231910770, a10: 3174683233, a11: 28639152, a12: 2828785870, a20: 3681140872, a21: 3174683233, a22: 3910194649 }
    } else if k == 8 {
        Mat3 { a00: 1463826069, a01: 300842059, a02: 3313769518, a10: 1799677538, a11: 1463826069, a12: 3174861078, a20: 1882279394, a21: 1799677538, a22: 3509975160 }
    } else if k == 9 {
        Mat3 { a00: 2092194020, a01: 184076987, a02: 2202401252, a10: 3103629604, a11: 2092194020, a12: 3409560232, a20: 4257445059, a21: 3103629604, a22: 2390202783 }
    } else if k == 10 {
        Mat3 { a00: 812917091, a01: 2574011276, a02: 4168802395, a10: 209817750, a11: 812917091, a12: 2974870628, a20: 3238802184, a21: 209817750, a22: 3692836406 }
    } else if k == 11 {
        Mat3 { a00: 477309738, a01: 3314523413, a02: 3442242150, a10: 2755731404, a11: 477309738, a12: 2782713347, a20: 1606221490, a21: 2755731404, a22: 1033463096 }
    } else if k == 12 {
        Mat3 { a00: 2155469603, a01: 3326516116, a02: 3843369786, a10: 288604458, a11: 2155469603, a12: 571673571, a20: 1501677614, a21: 288604458, a22: 2928213494 }
    } else if k == 13 {
        Mat3 { a00: 2082469029, a01: 749754403, a02: 3963963316, a10: 2764859700, a11: 2082469029, a12: 3576428059, a20: 2840894706, a21: 2764859700, a22: 1782279859 }
    } else if k == 14 {
        Mat3 { a00: 3760163766, a01: 1041986082, a02: 1799196192, a10: 1022129134, a11: 3760163766, a12: 1332558840, a20: 276873446, a21: 1022129134, a22: 3979423632 }
    } else if k == 15 {
        Mat3 { a00: 1021313167, a01: 1312544548, a02: 1716381787, a10: 3037868518, a11: 1021313167, a12: 199085085, a20: 2582787611, a21: 3037868518, a22: 3539882179 }
    } else if k == 16 {
        Mat3 { a00: 2569413030, a01: 1631336015, a02: 2594942403, a10: 1030618503, a11: 2569413030, a12: 3467650326, a20: 1998739584, a21: 1030618503, a22: 3174552073 }
    } else if k == 17 {
        Mat3 { a00: 2334639309, a01: 3114094203, a02: 601680947, a10: 2110199318, a11: 2334639309, a12: 678342865, a20: 1649523168, a21: 2110199318, a22: 2154948056 }
    } else if k == 18 {
        Mat3 { a00: 563657176, a01: 191330473, a02: 1641595774, a10: 780563537, a11: 563657176, a12: 3029522338, a20: 2037330914, a21: 780563537, a22: 2084602709 }
    } else if k == 19 {
        Mat3 { a00: 3414769923, a01: 1968799026, a02: 2238126504, a10: 832866376, a11: 3414769923, a12: 3754780168, a20: 2165145850, a21: 832866376, a22: 1594768331 }
    } else if k == 20 {
        Mat3 { a00: 1646861218, a01: 2317984620, a02: 2301581548, a10: 2672536210, a11: 1646861218, a12: 359763062, a20: 2391283983, a21: 2672536210, a22: 1885870777 }
    } else if k == 21 {
        Mat3 { a00: 841254072, a01: 3765813448, a02: 1635365181, a10: 2013240130, a11: 841254072, a12: 605925849, a20: 3743932305, a21: 2013240130, a22: 400681955 }
    } else if k == 22 {
        Mat3 { a00: 1930213004, a01: 2072952279, a02: 3077694794, a10: 3579956569, a11: 1930213004, a12: 2478539210, a20: 1960229502, a21: 3579956569, a22: 1455652656 }
    } else if k == 23 {
        Mat3 { a00: 1097613522, a01: 1784540933, a02: 1194440107, a10: 321747515, a11: 1097613522, a12: 1225209584, a20: 74521379, a21: 321747515, a22: 4288531000 }
    } else if k == 24 {
        Mat3 { a00: 143812745, a01: 3254530816, a02: 3514348856, a10: 769295000, a11: 143812745, a12: 2468210728, a20: 1927161272, a21: 769295000, a22: 522705580 }
    } else if k == 25 {
        Mat3 { a00: 2692035063, a01: 2596905012, a02: 1643240704, a10: 1103432342, a11: 2692035063, a12: 1446182108, a20: 4161111774, a21: 1103432342, a22: 3076435551 }
    } else if k == 26 {
        Mat3 { a00: 2375319030, a01: 1391532370, a02: 3742334018, a10: 1202100604, a11: 2375319030, a12: 4098434768, a20: 2327872488, a21: 1202100604, a22: 1471526950 }
    } else if k == 27 {
        Mat3 { a00: 4269164791, a01: 2795313144, a02: 2507855960, a10: 4245372460, a11: 4269164791, a12: 4094914553, a20: 3873219634, a21: 4245372460, a22: 1473695507 }
    } else if k == 28 {
        Mat3 { a00: 513890845, a01: 1208902926, a02: 2870530442, a10: 1984873167, a11: 513890845, a12: 1257532340, a20: 1212627640, a21: 1984873167, a22: 2354363842 }
    } else if k == 29 {
        Mat3 { a00: 1848364568, a01: 1552116673, a02: 3496528455, a10: 4160778291, a11: 1848364568, a12: 141769900, a20: 3611019106, a21: 4160778291, a22: 596424080 }
    } else if k == 30 {
        Mat3 { a00: 364070020, a01: 3520039729, a02: 837362349, a10: 2544671570, a11: 364070020, a12: 2188646679, a20: 163978331, a21: 2544671570, a22: 672947816 }
    } else if k == 31 {
        Mat3 { a00: 1192700714, a01: 3968150021, a02: 298357363, a10: 635565666, a11: 1192700714, a12: 2589432341, a20: 2548654227, a21: 635565666, a22: 3531570992 }
    } else if k == 32 {
        Mat3 { a00: 2709640529, a01: 676525399, a02: 875361870, a10: 1315499519, a11: 2709640529, a12: 3842690720, a20: 3300994644, a21: 1315499519, a22: 2446760804 }
    } else if k == 33 {
        Mat3 { a00: 2742149264, a01: 1410604392, a02: 3032350755, a10: 3774935330, a11: 2742149264, a12: 597633965, a20: 4085935803, a21: 3774935330, a22: 3952463556 }
    } else if k == 34 {
        Mat3 { a00: 3878579563, a01: 845297523, a02: 1721916511, a10: 2077922420, a11: 3878579563, a12: 3651360351, a20: 2177255734, a21: 2077922420, a22: 3791239282 }
    } else if k == 35 {
        Mat3 { a00: 1570315355, a01: 4252790045, a02: 3522351060, a10: 2324624266, a11: 1570315355, a12: 3594939336, a20: 1725087354, a21: 2324624266, a22: 1338343327 }
    } else if k == 36 {
        Mat3 { a00: 2305761589, a01: 381933244, a02: 3663579047, a10: 1355307047, a11: 2305761589, a12: 313617972, a20: 992174375, a21: 1355307047, a22: 3881593435 }
    } else if k == 37 {
        Mat3 { a00: 1667857811, a01: 1564715297, a02: 2263851601, a10: 3791771273, a11: 1667857811, a12: 4196134923, a20: 3347975047, a21: 3791771273, a22: 615040705 }
    } else if k == 38 {
        Mat3 { a00: 4093947334, a01: 3454015638, a02: 2815567716, a10: 4261953004, a11: 4093947334, a12: 3973733876, a20: 2979573134, a21: 4261953004, a22: 3757047667 }
    } else if k == 39 {
        Mat3 { a00: 250120061, a01: 570149551, a02: 1513430926, a10: 3178644752, a11: 250120061, a12: 1701869032, a20: 4172515680, a21: 3178644752, a22: 4213855850 }
    } else if k == 40 {
        Mat3 { a00: 4158106802, a01: 3062358456, a02: 1815738463, a10: 1379176112, a11: 4158106802, a12: 3926509890, a20: 2842564878, a21: 1379176112, a22: 2852219546 }
    } else if k == 41 {
        Mat3 { a00: 931848746, a01: 256263523, a02: 2633569246, a10: 3284646837, a11: 931848746, a12: 2567084715, a20: 415258465, a21: 3284646837, a22: 2017565947 }
    } else if k == 42 {
        Mat3 { a00: 1648005210, a01: 1032291296, a02: 3987397422, a10: 1831496020, a11: 1648005210, a12: 2829448427, a20: 1821082272, a21: 1831496020, a22: 2917140265 }
    } else if k == 43 {
        Mat3 { a00: 4161327077, a01: 489964129, a02: 3870847744, a10: 1669447863, a11: 4161327077, a12: 4292947198, a20: 1522417114, a21: 1669447863, a22: 2652286672 }
    } else if k == 44 {
        Mat3 { a00: 1270934555, a01: 3136631324, a02: 505612043, a10: 2981474723, a11: 1270934555, a12: 2528619024, a20: 625182639, a21: 2981474723, a22: 1008985039 }
    } else if k == 45 {
        Mat3 { a00: 280996820, a01: 143706137, a02: 3013099060, a10: 1797675893, a11: 280996820, a12: 3743985508, a20: 1123794455, a21: 1797675893, a22: 2460119169 }
    } else if k == 46 {
        Mat3 { a00: 919218027, a01: 4154920441, a02: 1125672685, a10: 3933041881, a11: 919218027, a12: 474242849, a20: 564891116, a21: 3933041881, a22: 2263904321 }
    } else if k == 47 {
        Mat3 { a00: 2920112852, a01: 1965329198, a02: 1177141043, a10: 2135250851, a11: 2920112852, a12: 969184056, a20: 296035385, a21: 2135250851, a22: 4267827987 }
    } else if k == 48 {
        Mat3 { a00: 1481142942, a01: 4120754772, a02: 1088557292, a10: 265491023, a11: 1481142942, a12: 2860005744, a20: 301796252, a21: 265491023, a22: 1935975979 }
    } else if k == 49 {
        Mat3 { a00: 2111859033, a01: 2813610100, a02: 1001476468, a10: 73849832, a11: 2111859033, a12: 3980799998, a20: 3330206241, a21: 73849832, a22: 1933943506 }
    } else if k == 50 {
        Mat3 { a00: 1781286360, a01: 3661231931, a02: 3509383709, a10: 2753158871, a11: 1781286360, a12: 3119883109, a20: 3576525143, a21: 2753158871, a22: 551079002 }
    } else if k == 51 {
        Mat3 { a00: 1185024844, a01: 587779104, a02: 1004942725, a10: 3763632860, a11: 1185024844, a12: 947424568, a20: 3811666068, a21: 3763632860, a22: 2352253462 }
    } else if k == 52 {
        Mat3 { a00: 1310227170, a01: 218138208, a02: 3172947233, a10: 766129426, a11: 1310227170, a12: 1808643264, a20: 2226659371, a21: 766129426, a22: 3853798112 }
    } else if k == 53 {
        Mat3 { a00: 2230902378, a01: 4243560874, a02: 2491962392, a10: 3836629116, a11: 2230902378, a12: 3637515403, a20: 2846140932, a21: 3836629116, a22: 3083355464 }
    } else if k == 54 {
        Mat3 { a00: 999448569, a01: 1464488480, a02: 3344426626, a10: 946166795, a11: 999448569, a12: 340856814, a20: 3686999436, a21: 946166795, a22: 3231079441 }
    } else if k == 55 {
        Mat3 { a00: 1226155368, a01: 3477563770, a02: 550006884, a10: 2378667355, a11: 1226155368, a12: 1493409040, a20: 260364836, a21: 2378667355, a22: 4133888397 }
    } else if k == 56 {
        Mat3 { a00: 1277901832, a01: 310796286, a02: 2818511068, a10: 3088910653, a11: 1277901832, a12: 3303406025, a20: 2507911914, a21: 3088910653, a22: 3712928074 }
    } else if k == 57 {
        Mat3 { a00: 481918378, a01: 339570348, a02: 1728801469, a10: 1623163429, a11: 481918378, a12: 2209094694, a20: 3146982514, a21: 1623163429, a22: 508445538 }
    } else if k == 58 {
        Mat3 { a00: 3138921230, a01: 2381863183, a02: 1992357430, a10: 1024510915, a11: 3138921230, a12: 2122851650, a20: 1453455184, a21: 1024510915, a22: 941946604 }
    } else if k == 59 {
        Mat3 { a00: 2465372719, a01: 1391015357, a02: 3328905025, a10: 1821933605, a11: 2465372719, a12: 1343489680, a20: 3648970313, a21: 1821933605, a22: 1816599716 }
    } else if k == 60 {
        Mat3 { a00: 118634664, a01: 3358712512, a02: 2492792220, a10: 348833376, a11: 118634664, a12: 2495544591, a20: 3235582254, a21: 348833376, a22: 4043157504 }
    } else if k == 61 {
        Mat3 { a00: 2303067090, a01: 3371139074, a02: 1967771133, a10: 598630070, a11: 2303067090, a12: 1819012637, a20: 2049250561, a21: 598630070, a22: 4093044926 }
    } else if k == 62 {
        Mat3 { a00: 3035321857, a01: 3971176093, a02: 226779704, a10: 3361614254, a11: 3035321857, a12: 2807125404, a20: 326640887, a21: 3361614254, a22: 3147308542 }
    } else if k == 63 {
        Mat3 { a00: 1774298149, a01: 4179629947, a02: 3145006948, a10: 1688753503, a11: 1774298149, a12: 94869516, a20: 2327946901, a21: 1688753503, a22: 2786835219 }
    } else if k == 64 {
        Mat3 { a00: 185429251, a01: 88142322, a02: 3372328450, a10: 1198432931, a11: 185429251, a12: 1527068783, a20: 2880072915, a21: 1198432931, a22: 2782214191 }
    } else if k == 65 {
        Mat3 { a00: 127447080, a01: 487724245, a02: 2942566616, a10: 2180042365, a11: 127447080, a12: 1722814040, a20: 288658537, a21: 2180042365, a22: 4036691926 }
    } else if k == 66 {
        Mat3 { a00: 1614979968, a01: 1486547157, a02: 1122661217, a10: 3976346810, a11: 1614979968, a12: 2343603502, a20: 3049605934, a21: 3976346810, a22: 440737492 }
    } else if k == 67 {
        Mat3 { a00: 613698149, a01: 3416334823, a02: 3832821180, a10: 1308958254, a11: 613698149, a12: 1338381534, a20: 4058246217, a21: 1308958254, a22: 2070907998 }
    } else if k == 68 {
        Mat3 { a00: 2575546527, a01: 1033712257, a02: 125034191, a10: 2091411644, a11: 2575546527, a12: 226649669, a20: 1198488263, a21: 2091411644, a22: 1522580506 }
    } else if k == 69 {
        Mat3 { a00: 1051614737, a01: 227719572, a02: 3725579556, a10: 3910426444, a11: 1051614737, a12: 2075080920, a20: 3357426062, a21: 3910426444, a22: 1473179318 }
    } else if k == 70 {
        Mat3 { a00: 2999155498, a01: 2971093563, a02: 2685380188, a10: 93938118, a11: 2999155498, a12: 4035265564, a20: 3853931650, a21: 93938118, a22: 2034180250 }
    } else if k == 71 {
        Mat3 { a00: 1253368368, a01: 2860152458, a02: 2836784419, a10: 1656084047, a11: 1253368368, a12: 646811031, a20: 3103367928, a21: 1656084047, a22: 3114448889 }
    } else if k == 72 {
        Mat3 { a00: 2962469315, a01: 4021086500, a02: 2670244515, a10: 299199825, a11: 2962469315, a12: 3624275162, a20: 3634541206, a21: 299199825, a22: 1684552227 }
    } else if k == 73 {
        Mat3 { a00: 804213223, a01: 438999528, a02: 3143925885, a10: 1625976775, a11: 804213223, a12: 1494982903, a20: 3498104358, a21: 1625976775, a22: 881729466 }
    } else if k == 74 {
        Mat3 { a00: 1547173514, a01: 490999994, a02: 918013965, a10: 1312079237, a11: 1547173514, a12: 1905431135, a20: 3784344293, a21: 1312079237, a22: 3643511238 }
    } else if k == 75 {
        Mat3 { a00: 3846994569, a01: 2894966137, a02: 1130633118, a10: 4115190113, a11: 3846994569, a12: 777098754, a20: 3088495692, a21: 4115190113, a22: 2193427908 }
    } else if k == 76 {
        Mat3 { a00: 1511326704, a01: 3759209742, a02: 1610795712, a10: 4292754251, a11: 1511326704, a12: 3889917532, a20: 3859662829, a21: 4292754251, a22: 3708466080 }
    } else if k == 77 {
        Mat3 { a00: 972103006, a01: 964807713, a02: 878035866, a10: 4248550197, a11: 972103006, a12: 1926628839, a20: 1448629089, a21: 4248550197, a22: 3196114006 }
    } else if k == 78 {
        Mat3 { a00: 3497384788, a01: 3174249442, a02: 3182508868, a10: 3864816447, a11: 3497384788, a12: 3038399593, a20: 2546884738, a21: 3864816447, a22: 2980208068 }
    } else if k == 79 {
        Mat3 { a00: 1776335558, a01: 1189944887, a02: 4095757548, a10: 3813600746, a11: 1776335558, a12: 789475914, a20: 4119698302, a21: 3813600746, a22: 2145357457 }
    } else if k == 80 {
        Mat3 { a00: 4022832294, a01: 4130146837, a02: 1942923647, a10: 1675130777, a11: 4022832294, a12: 916677004, a20: 4089786548, a21: 1675130777, a22: 116540512 }
    } else if k == 81 {
        Mat3 { a00: 165639584, a01: 1205513289, a02: 2037453462, a10: 1444587280, a11: 165639584, a12: 161923120, a20: 2617085459, a21: 1444587280, a22: 2006913311 }
    } else if k == 82 {
        Mat3 { a00: 3458099202, a01: 3062421748, a02: 4052486999, a10: 1064270720, a11: 3458099202, a12: 230768332, a20: 4056228301, a21: 1064270720, a22: 2219267779 }
    } else if k == 83 {
        Mat3 { a00: 296275263, a01: 3452455838, a02: 2081462173, a10: 1789143993, a11: 296275263, a12: 3463234943, a20: 2097389984, a21: 1789143993, a22: 3447191459 }
    } else if k == 84 {
        Mat3 { a00: 2828288883, a01: 3866690251, a02: 410553827, a10: 1587005542, a11: 2828288883, a12: 1469478670, a20: 2766486018, a21: 1587005542, a22: 2627363449 }
    } else if k == 85 {
        Mat3 { a00: 3288027530, a01: 412403981, a02: 2458742268, a10: 4267121909, a11: 3288027530, a12: 138566505, a20: 420803572, a21: 4267121909, a22: 4094554844 }
    } else if k == 86 {
        Mat3 { a00: 3844599430, a01: 2430152838, a02: 3283485436, a10: 2486244684, a11: 3844599430, a12: 4252427633, a20: 3560842909, a21: 2486244684, a22: 3960267499 }
    } else if k == 87 {
        Mat3 { a00: 67933059, a01: 1294996291, a02: 2657888382, a10: 513233413, a11: 67933059, a12: 1379805031, a20: 44564058, a21: 513233413, a22: 86971645 }
    } else if k == 88 {
        Mat3 { a00: 2732588524, a01: 1866530072, a02: 818237694, a10: 2540507736, a11: 2732588524, a12: 3257104212, a20: 1164400003, a21: 2540507736, a22: 1124501551 }
    } else if k == 89 {
        Mat3 { a00: 4199239222, a01: 3155848463, a02: 2121388468, a10: 1135554501, a11: 4199239222, a12: 2056492193, a20: 3251740389, a21: 1135554501, a22: 2343537248 }
    } else if k == 90 {
        Mat3 { a00: 550710036, a01: 500329021, a02: 1075236085, a10: 356444753, a11: 550710036, a12: 1634965500, a20: 58733535, a21: 356444753, a22: 1261552815 }
    } else if k == 91 {
        Mat3 { a00: 708689546, a01: 419139045, a02: 2012018174, a10: 706488081, a11: 708689546, a12: 1113760995, a20: 585555005, a21: 706488081, a22: 76092226 }
    } else if k == 92 {
        Mat3 { a00: 1293182265, a01: 3168473803, a02: 366230236, a10: 3319068849, a11: 1293182265, a12: 1085259665, a20: 1675229290, a21: 3319068849, a22: 3912300371 }
    } else if k == 93 {
        Mat3 { a00: 3186089068, a01: 4188864734, a02: 1211781402, a10: 756122322, a11: 3186089068, a12: 578262892, a20: 2518961174, a21: 756122322, a22: 1658665581 }
    } else if k == 94 {
        Mat3 { a00: 1347291439, a01: 2050427676, a02: 736113023, a10: 4102191254, a11: 1347291439, a12: 878627148, a20: 1293500383, a21: 4102191254, a22: 745646810 }
    } else if k == 95 {
        Mat3 { a00: 4196897331, a01: 3436564969, a02: 1900167098, a10: 3108887846, a11: 4196897331, a12: 2697923227, a20: 1405263476, a21: 3108887846, a22: 314631094 }
    } else if k == 96 {
        Mat3 { a00: 958383622, a01: 3694638688, a02: 1150087061, a10: 3770009830, a11: 958383622, a12: 793326651, a20: 533700213, a21: 3770009830, a22: 1513734026 }
    } else if k == 97 {
        Mat3 { a00: 4119603367, a01: 3479396923, a02: 3534176399, a10: 3765397477, a11: 4119603367, a12: 1458031003, a20: 3380901602, a21: 3765397477, a22: 2684083587 }
    } else if k == 98 {
        Mat3 { a00: 980937351, a01: 2094378936, a02: 448446028, a10: 1421333909, a11: 980937351, a12: 3405683645, a20: 323724368, a21: 1421333909, a22: 338680738 }
    } else if k == 99 {
        Mat3 { a00: 2942968846, a01: 4293637338, a02: 3549906544, a10: 527851489, a11: 2942968846, a12: 3852871282, a20: 4209198933, a21: 527851489, a22: 1091268872 }
    } else if k == 100 {
        Mat3 { a00: 1975983015, a01: 2092556693, a02: 611187071, a10: 3982652344, a11: 1975983015, a12: 3001736262, a20: 2055073597, a21: 3982652344, a22: 1875181995 }
    } else if k == 101 {
        Mat3 { a00: 2970221269, a01: 880904779, a02: 2447465272, a10: 2888742196, a11: 2970221269, a12: 3521651749, a20: 3019977656, a21: 2888742196, a22: 2712717326 }
    } else if k == 102 {
        Mat3 { a00: 419134859, a01: 2976059897, a02: 747864206, a10: 4101695717, a11: 419134859, a12: 4264593116, a20: 2657991148, a21: 4101695717, a22: 2542621682 }
    } else if k == 103 {
        Mat3 { a00: 4043135299, a01: 1612983166, a02: 1149778656, a10: 1267010518, a11: 4043135299, a12: 3496325546, a20: 3094232897, a21: 1267010518, a22: 2949176293 }
    } else if k == 104 {
        Mat3 { a00: 3949395794, a01: 1774568686, a02: 2123036003, a10: 2182983404, a11: 3949395794, a12: 2355671350, a20: 2820933455, a21: 2182983404, a22: 513963325 }
    } else if k == 105 {
        Mat3 { a00: 3046911698, a01: 2576744453, a02: 2492729814, a10: 4277866093, a11: 3046911698, a12: 3146977604, a20: 2249371766, a21: 4277866093, a22: 3622293976 }
    } else if k == 106 {
        Mat3 { a00: 1391529818, a01: 423458502, a02: 2587125255, a10: 3536237833, a11: 1391529818, a12: 985347517, a20: 157623850, a21: 3536237833, a22: 1015566287 }
    } else if k == 107 {
        Mat3 { a00: 48329260, a01: 2599277669, a02: 821961664, a10: 902187690, a11: 48329260, a12: 1716556555, a20: 4019658974, a21: 902187690, a22: 950730510 }
    } else if k == 108 {
        Mat3 { a00: 1318489562, a01: 1530977112, a02: 3713577419, a10: 4270158447, a11: 1318489562, a12: 1654940598, a20: 2679964938, a21: 4270158447, a22: 1337075195 }
    } else if k == 109 {
        Mat3 { a00: 770600793, a01: 3249576224, a02: 3578552768, a10: 2710443459, a11: 770600793, a12: 2990852339, a20: 3098163705, a21: 2710443459, a22: 522138188 }
    } else if k == 110 {
        Mat3 { a00: 2803285489, a01: 1922250286, a02: 3164022812, a10: 477609731, a11: 2803285489, a12: 2140252218, a20: 2252852611, a21: 477609731, a22: 3058519788 }
    } else if k == 111 {
        Mat3 { a00: 208329741, a01: 3633562083, a02: 3548346666, a10: 3892091460, a11: 208329741, a12: 516833304, a20: 3440632377, a21: 3892091460, a22: 1638833719 }
    } else if k == 112 {
        Mat3 { a00: 1816075033, a01: 3570111203, a02: 959489356, a10: 3482051486, a11: 1816075033, a12: 861657108, a20: 3119495098, a21: 3482051486, a22: 2576849579 }
    } else if k == 113 {
        Mat3 { a00: 4240216888, a01: 2891584407, a02: 2102314945, a10: 4064489450, a11: 4240216888, a12: 1427441010, a20: 2441164913, a21: 4064489450, a22: 3558527186 }
    } else if k == 114 {
        Mat3 { a00: 2918371295, a01: 65155283, a02: 3469357011, a10: 3579773554, a11: 2918371295, a12: 3494391959, a20: 3266584309, a21: 3579773554, a22: 3837485479 }
    } else if k == 115 {
        Mat3 { a00: 2959420453, a01: 1365016881, a02: 4082486022, a10: 236489012, a11: 2959420453, a12: 3802558529, a20: 2687043642, a21: 236489012, a22: 2547086826 }
    } else if k == 116 {
        Mat3 { a00: 4185325422, a01: 2762854843, a02: 3200044912, a10: 3664909559, a11: 4185325422, a12: 3543921700, a20: 4240262918, a21: 3664909559, a22: 2853212443 }
    } else if k == 117 {
        Mat3 { a00: 2618500928, a01: 4237264351, a02: 1470046497, a10: 1893990098, a11: 2618500928, a12: 2982567031, a20: 3017062825, a21: 1893990098, a22: 3195556801 }
    } else if k == 118 {
        Mat3 { a00: 1868464655, a01: 3407681142, a02: 1652841784, a10: 1678569574, a11: 1868464655, a12: 4162480901, a20: 1477016185, a21: 1678569574, a22: 4145063890 }
    } else if k == 119 {
        Mat3 { a00: 792188465, a01: 4251338402, a02: 2219407026, a10: 3840340879, a11: 792188465, a12: 3493367465, a20: 2979958414, a21: 3840340879, a22: 2338974139 }
    } else if k == 120 {
        Mat3 { a00: 478845700, a01: 2378167062, a02: 882114621, a10: 1674533845, a11: 478845700, a12: 3572905305, a20: 3571222880, a21: 1674533845, a22: 1242316901 }
    } else if k == 121 {
        Mat3 { a00: 2636090868, a01: 1972761498, a02: 71690719, a10: 1228103463, a11: 2636090868, a12: 1280685025, a20: 3741735502, a21: 1228103463, a22: 994061750 }
    } else if k == 122 {
        Mat3 { a00: 1156725261, a01: 1100755307, a02: 221922891, a10: 2892200461, a11: 1156725261, a12: 1505716533, a20: 2287613563, a21: 2892200461, a22: 3689457190 }
    } else if k == 123 {
        Mat3 { a00: 1387244644, a01: 3135090808, a02: 1243609165, a10: 1724967466, a11: 1387244644, a12: 3296353235, a20: 1064364031, a21: 1724967466, a22: 2107521044 }
    } else if k == 124 {
        Mat3 { a00: 2822471992, a01: 2034317853, a02: 2071407475, a10: 170903528, a11: 2822471992, a12: 1322162887, a20: 2524982332, a21: 170903528, a22: 2656231333 }
    } else if k == 125 {
        Mat3 { a00: 3653936868, a01: 3893194049, a02: 2484299328, a10: 1313746234, a11: 3653936868, a12: 1705346273, a20: 1397638018, a21: 1313746234, a22: 4015529545 }
    } else if k == 126 {
        Mat3 { a00: 4129760842, a01: 1671665759, a02: 1677834656, a10: 3200005334, a11: 4129760842, a12: 3486207172, a20: 2850728736, a21: 3200005334, a22: 3076201597 }
    } else {
        Mat3 { a00: 1464411153, a01: 277697599, a02: 1610723613, a10: 32183930, a11: 1464411153, a12: 1022607788, a20: 2824425944, a21: 32183930, a22: 2093834863 }
    }
}

} // verus!
