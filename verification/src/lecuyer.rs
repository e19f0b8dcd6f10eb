//! Pierre L'Ecuyer's MRG32k3a generator, its seeding and R's stream jumps.
use crate::error::RRngError;
use crate::lcg::{lcg_next, lcg_step};
use vstd::arithmetic::div_mod::*;
use vstd::arithmetic::mul::*;
use vstd::prelude::*;

verus! {

/// Number of 32-bit words in the L'Ecuyer-CMRG state.
pub const STATE_LEN: usize = 6;

/// Modulus of the first component.
pub const M1: u64 = 4_294_967_087;

/// Modulus of the second component.
pub const M2: u64 = 4_294_944_443;

/// The six state words: three of the first component, then three of the second.
#[derive(Clone, Copy, Debug)]
pub struct LecuyerState {
    pub words: [u32; 6],
}

/// Every word lies below its component's modulus.
pub open spec fn lecuyer_valid(w: Seq<u32>) -> bool {
    &&& w.len() == 6
    &&& w[0] < M1 && w[1] < M1 && w[2] < M1
    &&& w[3] < M2 && w[4] < M2 && w[5] < M2
}

/// Neither component is all zero.
pub open spec fn lecuyer_nonzero(w: Seq<u32>) -> bool {
    &&& !(w[0] == 0 && w[1] == 0 && w[2] == 0)
    &&& !(w[3] == 0 && w[4] == 0 && w[5] == 0)
}

/// One step of both recurrences; returns the new state and the combined
/// output `d`, which lies in `1..=M1`.
pub open spec fn lecuyer_next(w: Seq<u32>) -> (Seq<u32>, nat) {
    let p1 = (1403580 * w[1] - 810728 * w[0]) % (M1 as int);
    let p2 = (527612 * w[5] - 1370589 * w[3]) % (M2 as int);
    let d = if p1 > p2 {
        p1 - p2
    } else {
        p1 - p2 + M1
    };
    (seq![w[1], w[2], p1 as u32, w[4], w[5], p2 as u32], d as nat)
}

/// The seed word that follows `x`: the next generator value below `M2`.
pub open spec fn seed_pick(x: u32) -> u32 {
    let a = lcg_step(x);
    if a < M2 {
        a
    } else {
        lcg_step(a)
    }
}

/// The `i`-th state word seeded from the scrambled seed `s`.
pub open spec fn seed_word(s: u32, i: nat) -> u32
    decreases i,
{
    if i == 0 {
        seed_pick(s)
    } else {
        seed_pick(seed_word(s, (i - 1) as nat))
    }
}

/// The state that R seeds from the scrambled seed `s`.
pub open spec fn lecuyer_seeded(s: u32) -> Seq<u32> {
    Seq::new(6, |i: int| seed_word(s, i as nat))
}

/// Row-major 3x3 matrix `a` times the vector `v`, modulo `m`.
pub open spec fn mat_vec_mod(a: Seq<u64>, v: Seq<u32>, m: int) -> Seq<u32> {
    Seq::new(
        3,
        |r: int| ((a[3 * r] * v[0] + a[3 * r + 1] * v[1] + a[3 * r + 2] * v[2]) % m) as u32,
    )
}

/// The state advanced by the matrices `first` and `second`.
pub open spec fn lecuyer_jump(w: Seq<u32>, first: Seq<u64>, second: Seq<u64>) -> Seq<u32> {
    mat_vec_mod(first, w.subrange(0, 3), M1 as int) + mat_vec_mod(
        second,
        w.subrange(3, 6),
        M2 as int,
    )
}

/// First-component matrix of R's `nextRNGSubStream` jump.
pub open spec fn a1p76() -> Seq<u64> {
    seq![
        82758667u64, 1871391091u64, 4127413238u64,
        3672831523u64, 69195019u64, 1871391091u64,
        3672091415u64, 3528743235u64, 69195019u64,
    ]
}

/// Second-component matrix of R's `nextRNGSubStream` jump.
pub open spec fn a2p76() -> Seq<u64> {
    seq![
        1511326704u64, 3759209742u64, 1610795712u64,
        4292754251u64, 1511326704u64, 3889917532u64,
        3859662829u64, 4292754251u64, 3708466080u64,
    ]
}

/// First-component matrix of R's `nextRNGStream` jump.
pub open spec fn a1p127() -> Seq<u64> {
    seq![
        2427906178u64, 3580155704u64, 949770784u64,
        226153695u64, 1230515664u64, 3580155704u64,
        1988835001u64, 986791581u64, 1230515664u64,
    ]
}

/// Second-component matrix of R's `nextRNGStream` jump.
pub open spec fn a2p127() -> Seq<u64> {
    seq![
        1464411153u64, 277697599u64, 1610723613u64,
        32183930u64, 1464411153u64, 1022607788u64,
        2824425944u64, 32183930u64, 2093834863u64,
    ]
}

/// A rejected seed value is always followed by an accepted one.
pub proof fn lemma_seed_pick_below(x: u32)
    ensures
        seed_pick(x) < M2,
{
    let a = lcg_step(x);
    if a >= M2 {
        let d = 0x1_0000_0000 - a;
        let r = 0x1_0000_0000 - 69069 * d + 1;
        assert(69069 * a + 1 == 69068 * 0x1_0000_0000 + r);
        lemma_fundamental_div_mod_converse_mod(69069 * a + 1, 0x1_0000_0000, 69068, r);
    }
}

impl LecuyerState {
    /// The state that R seeds from an already scrambled seed.
    pub fn from_scrambled_seed(seed: u32) -> (s: Self)
        ensures
            s.words@ == lecuyer_seeded(seed),
            lecuyer_valid(s.words@),
    {
        let mut seed = seed;
        let ghost s0 = seed;
        let mut words = [0u32; 6];
        let mut i: usize = 0;
        while i < STATE_LEN
            invariant
                i <= STATE_LEN,
                i > 0 ==> seed == seed_word(s0, (i - 1) as nat),
                i == 0 ==> seed == s0,
                forall|j: int| 0 <= j < i ==> words@[j] == seed_word(s0, j as nat),
                forall|j: int| 0 <= j < i ==> words@[j] < M2,
            decreases STATE_LEN - i,
        {
            proof {
                lemma_seed_pick_below(seed);
            }
            seed = lcg_next(seed);
            if seed as u64 >= M2 {
                seed = lcg_next(seed);
            }
            words[i] = seed;
            i = i + 1;
        }
        let s = LecuyerState { words };
        assert(s.words@ =~= lecuyer_seeded(s0));
        s
    }

    /// Validates the six serialized words (reinterpreted as unsigned).
    pub fn from_serialized(serialized: &[i32], offset: usize) -> (r: Result<Self, RRngError>)
        requires
            offset + 6 <= serialized@.len(),
        ensures
            ({
                let w = Seq::new(6, |i: int| serialized@[offset + i] as u32);
                match r {
                    Ok(s) => s.words@ == w && lecuyer_valid(w) && lecuyer_nonzero(w),
                    Err(e) => if !lecuyer_nonzero(w) {
                        e == RRngError::AllZeroState
                    } else {
                        !lecuyer_valid(w) && e == RRngError::InvalidLecuyerState
                    },
                }
            }),
    {
        let words = [
            serialized[offset] as u32,
            serialized[offset + 1] as u32,
            serialized[offset + 2] as u32,
            serialized[offset + 3] as u32,
            serialized[offset + 4] as u32,
            serialized[offset + 5] as u32,
        ];
        let ghost w = Seq::new(6, |i: int| serialized@[offset + i] as u32);
        assert(words@ =~= w);
        if (words[0] == 0 && words[1] == 0 && words[2] == 0) || (words[3] == 0 && words[4] == 0
            && words[5] == 0) {
            return Err(RRngError::AllZeroState);
        }
        if words[0] as u64 >= M1 || words[1] as u64 >= M1 || words[2] as u64 >= M1 || words[3] as u64
            >= M2 || words[4] as u64 >= M2 || words[5] as u64 >= M2 {
            return Err(RRngError::InvalidLecuyerState);
        }
        Ok(LecuyerState { words })
    }

    /// Writes the six words, reinterpreted as signed, at `offset`.
    pub fn write_serialized(&self, output: &mut [i32], offset: usize)
        requires
            offset + 6 <= old(output)@.len(),
        ensures
            final(output)@.len() == old(output)@.len(),
            forall|i: int|
                0 <= i < old(output)@.len() ==> final(output)@[i] == if offset <= i < offset + 6 {
                    self.words@[i - offset] as i32
                } else {
                    old(output)@[i]
                },
    {
        let len = output.len();
        let mut i: usize = 0;
        while i < STATE_LEN
            invariant
                i <= STATE_LEN,
                offset + 6 <= old(output)@.len(),
                len == old(output)@.len(),
                output@.len() == old(output)@.len(),
                forall|j: int|
                    0 <= j < old(output)@.len() ==> output@[j] == if offset <= j < offset + i {
                        self.words@[j - offset] as i32
                    } else {
                        old(output)@[j]
                    },
            decreases STATE_LEN - i,
        {
            output[offset + i] = self.words[i] as i32;
            i = i + 1;
        }
    }

    /// Advances both recurrences by one step and returns the combined output,
    /// which lies in `1..=M1`.
    pub fn next_raw(&mut self) -> (d: u64)
        requires
            lecuyer_valid(old(self).words@),
        ensures
            final(self).words@ == lecuyer_next(old(self).words@).0,
            d == lecuyer_next(old(self).words@).1,
            1 <= d <= M1,
            lecuyer_valid(final(self).words@),
    {
        let w = self.words;
        let x1 = 1403580u64 * w[1] as u64 + 810728u64 * (M1 - w[0] as u64);
        let p1 = x1 % M1;
        let x2 = 527612u64 * w[5] as u64 + 1370589u64 * (M2 - w[3] as u64);
        let p2 = x2 % M2;
        proof {
            let a = 1403580 * w[1] - 810728 * w[0];
            lemma_mod_multiples_vanish(810728, a, M1 as int);
            assert(x1 == M1 * 810728 + a);
            let b = 527612 * w[5] - 1370589 * w[3];
            lemma_mod_multiples_vanish(1370589, b, M2 as int);
            assert(x2 == M2 * 1370589 + b);
        }
        self.words = [w[1], w[2], p1 as u32, w[4], w[5], p2 as u32];
        assert(self.words@ =~= lecuyer_next(w@).0);
        if p1 > p2 {
            p1 - p2
        } else {
            p1 + M1 - p2
        }
    }

    /// The state advanced by R's `nextRNGStream` jump.
    pub fn next_stream(&self) -> (s: Self)
        requires
            lecuyer_valid(self.words@),
        ensures
            s.words@ == lecuyer_jump(self.words@, a1p127(), a2p127()),
            lecuyer_valid(s.words@),
    {
        let first: [u64; 9] = [
            2427906178, 3580155704, 949770784,
            226153695, 1230515664, 3580155704,
            1988835001, 986791581, 1230515664,
        ];
        let second: [u64; 9] = [
            1464411153, 277697599, 1610723613,
            32183930, 1464411153, 1022607788,
            2824425944, 32183930, 2093834863,
        ];
        assert(first@ =~= a1p127());
        assert(second@ =~= a2p127());
        self.jump(&first, &second)
    }

    /// The state advanced by R's `nextRNGSubStream` jump.
    pub fn next_substream(&self) -> (s: Self)
        requires
            lecuyer_valid(self.words@),
        ensures
            s.words@ == lecuyer_jump(self.words@, a1p76(), a2p76()),
            lecuyer_valid(s.words@),
    {
        let first: [u64; 9] = [
            82758667, 1871391091, 4127413238,
            3672831523, 69195019, 1871391091,
            3672091415, 3528743235, 69195019,
        ];
        let second: [u64; 9] = [
            1511326704, 3759209742, 1610795712,
            4292754251, 1511326704, 3889917532,
            3859662829, 4292754251, 3708466080,
        ];
        assert(first@ =~= a1p76());
        assert(second@ =~= a2p76());
        self.jump(&first, &second)
    }

    fn jump(&self, first: &[u64; 9], second: &[u64; 9]) -> (s: Self)
        requires
            lecuyer_valid(self.words@),
            forall|i: int| 0 <= i < 9 ==> first@[i] < 0x1_0000_0000 && second@[i] < 0x1_0000_0000,
        ensures
            s.words@ == lecuyer_jump(self.words@, first@, second@),
            lecuyer_valid(s.words@),
    {
        let w = self.words;
        let r0 = multiply_mod(first, 0, w[0], w[1], w[2], M1);
        let r1 = multiply_mod(first, 1, w[0], w[1], w[2], M1);
        let r2 = multiply_mod(first, 2, w[0], w[1], w[2], M1);
        let r3 = multiply_mod(second, 0, w[3], w[4], w[5], M2);
        let r4 = multiply_mod(second, 1, w[3], w[4], w[5], M2);
        let r5 = multiply_mod(second, 2, w[3], w[4], w[5], M2);
        let s = LecuyerState { words: [r0, r1, r2, r3, r4, r5] };
        assert(s.words@ =~= lecuyer_jump(w@, first@, second@));
        s
    }
}

/// Row `row` of the matrix times `(v0, v1, v2)` modulo `modulus`, accumulated
/// term by term with a reduction after each term.
fn multiply_mod(matrix: &[u64; 9], row: usize, v0: u32, v1: u32, v2: u32, modulus: u64) -> (r: u32)
    requires
        row < 3,
        0 < modulus < 0x1_0000_0000,
        forall|i: int| 0 <= i < 9 ==> matrix@[i] < 0x1_0000_0000,
    ensures
        r == (matrix@[3 * row] * v0 + matrix@[3 * row + 1] * v1 + matrix@[3 * row + 2] * v2)
            % (modulus as int),
        r < modulus,
{
    let m = modulus as u128;
    let c0 = matrix[3 * row] as u128;
    let c1 = matrix[3 * row + 1] as u128;
    let c2 = matrix[3 * row + 2] as u128;
    proof {
        lemma_mul_inequality(c0 as int, 0xffff_ffff, v0 as int);
        lemma_mul_inequality(v0 as int, 0xffff_ffff, 0xffff_ffff);
        lemma_mul_inequality(c1 as int, 0xffff_ffff, v1 as int);
        lemma_mul_inequality(v1 as int, 0xffff_ffff, 0xffff_ffff);
        lemma_mul_inequality(c2 as int, 0xffff_ffff, v2 as int);
        lemma_mul_inequality(v2 as int, 0xffff_ffff, 0xffff_ffff);
        lemma_mul_is_commutative(v0 as int, 0xffff_ffff);
        lemma_mul_is_commutative(v1 as int, 0xffff_ffff);
        lemma_mul_is_commutative(v2 as int, 0xffff_ffff);
    }
    let t0 = c0 * v0 as u128;
    let t1 = c1 * v1 as u128;
    let t2 = c2 * v2 as u128;
    let mut value: u128 = 0;
    value = (value + t0) % m;
    value = (value + t1) % m;
    value = (value + t2) % m;
    proof {
        lemma_add_mod_noop(t0 as int, t1 as int, m as int);
        lemma_mod_twice(t1 as int, m as int);
        lemma_add_mod_noop(t0 as int + t1 as int, t2 as int, m as int);
        lemma_mod_twice(t2 as int, m as int);
        lemma_add_mod_noop_right(0, t0 as int, m as int);
        lemma_add_mod_noop((t0 as int) % (m as int), t1 as int, m as int);
        lemma_mod_twice(t0 as int, m as int);
        lemma_add_mod_noop((t0 as int + t1 as int) % (m as int), t2 as int, m as int);
        lemma_mod_twice(t0 as int + t1 as int, m as int);
    }
    value as u32
}

} // verus!
