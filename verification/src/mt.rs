//! The MT19937 Mersenne Twister as R runs it: a 624-word state, R's cursor
//! convention, the twist and the tempering of each output word.
use vstd::prelude::*;

verus! {

/// Number of 32-bit words in the Mersenne Twister state.
pub const MT_LEN: usize = 624;

/// Offset of the word that the twist mixes into each new word.
pub const MT_M: usize = 397;

/// The twist matrix constant.
pub const MATRIX_A: u32 = 0x9908_b0df;

/// Most significant bit of a word.
pub const UPPER_MASK: u32 = 0x8000_0000;

/// The 31 least significant bits of a word.
pub const LOWER_MASK: u32 = 0x7fff_ffff;

/// The new value of word `i` when the twist reaches it; `s` already holds the
/// new values of the words before `i`, so the wrap-around reads updated words.
pub open spec fn twist_word(s: Seq<u32>, i: int) -> u32 {
    let combined = (s[i] & UPPER_MASK) | (s[(i + 1) % 624] & LOWER_MASK);
    s[(i + 397) % 624] ^ (combined >> 1u32) ^ (if combined & 1u32 == 0 {
        0u32
    } else {
        MATRIX_A
    })
}

/// The state after the twist has updated its first `n` words in order.
pub open spec fn twist_prefix(s: Seq<u32>, n: nat) -> Seq<u32>
    decreases n,
{
    if n == 0 {
        s
    } else {
        let p = twist_prefix(s, (n - 1) as nat);
        p.update(n - 1, twist_word(p, n - 1))
    }
}

/// A full twist: every word of the state regenerated in order.
pub open spec fn mt_twist(s: Seq<u32>) -> Seq<u32> {
    twist_prefix(s, 624)
}

/// MT19937 tempering of a state word into an output word.
pub open spec fn temper(y: u32) -> u32 {
    let y1 = y ^ (y >> 11u32);
    let y2 = y1 ^ ((y1 << 7u32) & 0x9d2c_5680u32);
    let y3 = y2 ^ ((y2 << 15u32) & 0xefc6_0000u32);
    y3 ^ (y3 >> 18u32)
}

/// One output of the generator: when the cursor has run past the last word the
/// state is twisted and the cursor restarts at 0; the word under the cursor is
/// tempered and the cursor advances. Returns `(words, position, output)`.
pub open spec fn mt_next(words: Seq<u32>, position: nat) -> (Seq<u32>, nat, u32) {
    let w = if position >= 624 {
        mt_twist(words)
    } else {
        words
    };
    let p: nat = if position >= 624 {
        0
    } else {
        position
    };
    (w, p + 1, temper(w[p as int]))
}

/// The twist keeps the number of words.
pub proof fn lemma_twist_prefix_len(s: Seq<u32>, n: nat)
    requires
        n <= s.len(),
    ensures
        twist_prefix(s, n).len() == s.len(),
    decreases n,
{
    if n > 0 {
        lemma_twist_prefix_len(s, (n - 1) as nat);
    }
}

/// The state still drives the generator: the top bit of the first word, or
/// any later word, is set. (The low 31 bits of the first word never reach an
/// output, and a state without such a bit twists to all zero words.)
pub open spec fn mt_live(words: Seq<u32>) -> bool {
    (words[0] & UPPER_MASK) != 0 || exists|i: int| 1 <= i < 624 && #[trigger] words[i] != 0
}

/// After `n` words of the twist, the later words are untouched and each
/// earlier word `j` holds the value computed when the twist reached it.
proof fn lemma_twist_prefix_words(s: Seq<u32>, n: nat)
    requires
        s.len() == 624,
        n <= 624,
    ensures
        twist_prefix(s, n).len() == 624,
        forall|j: int| n <= j < 624 ==> twist_prefix(s, n)[j] == s[j],
        forall|j: nat|
            j < n ==> twist_prefix(s, n)[j as int] == #[trigger] twist_word(
                twist_prefix(s, j),
                j as int,
            ),
    decreases n,
{
    lemma_twist_prefix_len(s, n);
    if n > 0 {
        lemma_twist_prefix_words(s, (n - 1) as nat);
    }
}

/// Word `j` of the twisted state, from the old word `j`, the word after it
/// (old, or the new first word at the end) and the word it mixes in (old
/// before the wrap-around, new after it).
proof fn lemma_twisted_word(s: Seq<u32>, j: int)
    requires
        s.len() == 624,
        0 <= j < 624,
    ensures
        ({
            let t = mt_twist(s);
            let next = if j < 623 {
                s[j + 1]
            } else {
                t[0]
            };
            let src = if j < 227 {
                s[j + 397]
            } else {
                t[j - 227]
            };
            let combined = (s[j] & UPPER_MASK) | (next & LOWER_MASK);
            t[j] == src ^ (combined >> 1u32) ^ (if combined & 1u32 == 0 {
                0u32
            } else {
                MATRIX_A
            })
        }),
{
    let t = mt_twist(s);
    lemma_twist_prefix_words(s, 624);
    lemma_twist_prefix_words(s, j as nat);
    let p = twist_prefix(s, j as nat);
    assert(t[j] == twist_word(p, (j as nat) as int));
    if j >= 227 {
        let h = (j - 227) as nat;
        assert(t[h as int] == twist_word(twist_prefix(s, h), h as int));
        assert(p[h as int] == twist_word(twist_prefix(s, h), h as int));
    }
    if j == 623 {
        assert(t[0] == twist_word(twist_prefix(s, 0), 0));
        assert(p[0] == twist_word(twist_prefix(s, 0), 0));
    }
}

/// A twisted word is zero only if the word mixed in equals the scrambled
/// combination; when that word is zero, both halves of the combination are.
proof fn lemma_twisted_zero(a: u32, b: u32, src: u32)
    ensures
        ({
            let combined = (a & UPPER_MASK) | (b & LOWER_MASK);
            (src ^ (combined >> 1u32) ^ (if combined & 1u32 == 0 {
                0u32
            } else {
                MATRIX_A
            })) == 0 && src == 0 ==> (a & UPPER_MASK) == 0 && (b & LOWER_MASK) == 0
        }),
{
    assert(((src ^ ((((a & 0x8000_0000u32) | (b & 0x7fff_ffffu32))) >> 1u32) ^ (if (((a
        & 0x8000_0000u32) | (b & 0x7fff_ffffu32))) & 1u32 == 0 {
        0u32
    } else {
        0x9908_b0dfu32
    })) == 0 && src == 0) ==> (a & 0x8000_0000u32) == 0 && (b & 0x7fff_ffffu32) == 0)
        by (bit_vector);
}

/// A word whose two halves are zero is zero.
proof fn lemma_halves_zero(a: u32)
    ensures
        (a & UPPER_MASK) == 0 && (a & LOWER_MASK) == 0 ==> a == 0,
        a == 0 ==> (a & UPPER_MASK) == 0 && (a & LOWER_MASK) == 0,
        (a & UPPER_MASK) != 0 ==> a != 0,
{
    assert((a & 0x8000_0000u32) == 0 && (a & 0x7fff_ffffu32) == 0 ==> a == 0) by (bit_vector);
    assert(a == 0 ==> (a & 0x8000_0000u32) == 0 && (a & 0x7fff_ffffu32) == 0) by (bit_vector);
    assert((a & 0x8000_0000u32) != 0 ==> a != 0) by (bit_vector);
}

/// The twist keeps a live state live: it is invertible on the bits that
/// drive the generator, so only a state without such bits twists to one.
pub proof fn lemma_twist_keeps_live(s: Seq<u32>)
    requires
        s.len() == 624,
        mt_live(s),
    ensures
        mt_live(mt_twist(s)),
        mt_twist(s).len() == 624,
{
    let t = mt_twist(s);
    lemma_twist_prefix_len(s, 624);
    if !mt_live(t) {
        assert forall|j: int| 1 <= j < 624 implies t[j] == 0 by {
            if t[j] != 0 {
                assert(mt_live(t));
            }
        }
        // The last word reads the new first word: it forces that word to zero.
        lemma_twisted_word(s, 623);
        lemma_twisted_zero(s[623], t[0], t[396]);
        lemma_halves_zero(t[0]);
        // The words after the wrap-around mix in new, zero words.
        assert forall|k: int| 227 <= k < 624 implies (s[k] & UPPER_MASK) == 0 by {
            if k < 623 {
                lemma_twisted_word(s, k);
                lemma_twisted_zero(s[k], s[k + 1], t[k - 227]);
            }
        }
        assert forall|k: int| 228 <= k < 624 implies (s[k] & LOWER_MASK) == 0 by {
            lemma_twisted_word(s, k - 1);
            lemma_twisted_zero(s[k - 1], s[k], t[k - 1 - 227]);
        }
        assert forall|k: int| 228 <= k < 624 implies s[k] == 0 by {
            lemma_halves_zero(s[k]);
        }
        // The words before it mix in old words, which are now known to be zero.
        assert forall|k: int| 0 <= k < 227 implies (s[k] & UPPER_MASK) == 0 by {
            lemma_twisted_word(s, k);
            assert(s[k + 397] == 0);
            lemma_twisted_zero(s[k], s[k + 1], s[k + 397]);
        }
        assert forall|k: int| 1 <= k < 228 implies (s[k] & LOWER_MASK) == 0 by {
            lemma_twisted_word(s, k - 1);
            assert(s[k - 1 + 397] == 0);
            lemma_twisted_zero(s[k - 1], s[k], s[k - 1 + 397]);
        }
        assert forall|k: int| 1 <= k < 624 implies s[k] == 0 by {
            lemma_halves_zero(s[k]);
        }
        assert((s[0] & UPPER_MASK) == 0);
        assert(!mt_live(s));
    }
}

/// One output keeps a live state live.
pub proof fn lemma_next_keeps_live(words: Seq<u32>, position: nat)
    requires
        words.len() == 624,
        mt_live(words),
    ensures
        mt_live(mt_next(words, position).0),
        mt_next(words, position).0.len() == 624,
{
    if position >= 624 {
        lemma_twist_keeps_live(words);
    }
}

/// Regenerates the 624 words of the state in place.
pub fn mt_twist_exec(words: &mut [u32; MT_LEN])
    ensures
        final(words)@ == mt_twist(old(words)@),
{
    let mut i: usize = 0;
    while i < MT_LEN
        invariant
            i <= MT_LEN,
            words@.len() == MT_LEN,
            old(words)@.len() == MT_LEN,
            words@ == twist_prefix(old(words)@, i as nat),
        decreases MT_LEN - i,
    {
        proof {
            lemma_twist_prefix_len(old(words)@, i as nat);
        }
        let next = if i + 1 == MT_LEN {
            0
        } else {
            i + 1
        };
        let far = if i + MT_M >= MT_LEN {
            i + MT_M - MT_LEN
        } else {
            i + MT_M
        };
        let combined = (words[i] & UPPER_MASK) | (words[next] & LOWER_MASK);
        let value = words[far] ^ (combined >> 1u32) ^ (if combined & 1u32 == 0 {
            0u32
        } else {
            MATRIX_A
        });
        words[i] = value;
        i = i + 1;
    }
}

/// Tempers a state word into an output word.
pub fn temper_exec(y: u32) -> (out: u32)
    ensures
        out == temper(y),
{
    let mut value = y;
    value = value ^ (value >> 11u32);
    value = value ^ ((value << 7u32) & 0x9d2c_5680u32);
    value = value ^ ((value << 15u32) & 0xefc6_0000u32);
    value ^ (value >> 18u32)
}

/// Draws one output word, twisting first when the cursor has passed the end.
pub fn mt_next_exec(words: &mut [u32; MT_LEN], position: &mut usize) -> (out: u32)
    requires
        *old(position) <= MT_LEN,
    ensures
        final(words)@ == mt_next(old(words)@, *old(position) as nat).0,
        *final(position) as nat == mt_next(old(words)@, *old(position) as nat).1,
        out == mt_next(old(words)@, *old(position) as nat).2,
        1 <= *final(position) <= MT_LEN,
{
    if *position >= MT_LEN {
        mt_twist_exec(words);
        *position = 0;
    }
    let value = words[*position];
    *position = *position + 1;
    temper_exec(value)
}

} // verus!
