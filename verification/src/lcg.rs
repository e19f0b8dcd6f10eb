use vstd::prelude::*;

verus! {

/// One step of the linear congruential generator that R uses to scramble
/// seeds: `x -> 69069 x + 1 (mod 2^32)`.
pub open spec fn lcg_step(x: u32) -> u32 {
    ((69069 * x + 1) % 0x1_0000_0000) as u32
}

/// `n` successive steps of [`lcg_step`].
pub open spec fn lcg_iterate(x: u32, n: nat) -> u32
    decreases n,
{
    if n == 0 {
        x
    } else {
        lcg_step(lcg_iterate(x, (n - 1) as nat))
    }
}

/// One step of R's seed-scrambling generator.
pub fn lcg_next(seed: u32) -> (next: u32)
    ensures
        next == lcg_step(seed),
{
    ((seed as u64 * 69069 + 1) % 0x1_0000_0000) as u32
}

} // verus!
