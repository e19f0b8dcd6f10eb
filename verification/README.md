# rng_compat_r

R-compatible random-number generation, verified with Verus.

The library reproduces R's default random-number behaviour exactly:
`set.seed()` scrambling, the MT19937 Mersenne Twister and L'Ecuyer-CMRG
generators with R's stream jumps, the double that `unif_rand()` returns, the
rejection (R >= 3.6) and rounding (R 3.5) integer samplers behind
`sample.int()`, and `.Random.seed` export and import.

Uniform draws are handed out in exact form (`RUniform`: `mantissa / 2^exponent`),
so every integer and double that the samplers compute is specified and proved
without floating-point arithmetic in the library.

Layout:

- `src/` — the verified library.
  - `model.rs`: the mathematical model of a generator and of every draw.
  - `rng.rs`: `RRng`, its constructors, state export/import and samplers.
  - `error.rs`: the errors and their messages, with the decimal digits proved.
  - `mt.rs`, `lecuyer.rs`, `lcg.rs`: the generators and the seed scrambler.
  - `streams.rs`: the generator's recurrences as matrices, and the proof that
    the stream and substream jumps skip exactly `2^127` and `2^76` draws.
  - `uniform.rs`: exact doubles and IEEE-754 rounding on integers.
  - `laws.rs`: properties across calls (save/restore, states that every call
    keeps restorable, sampling results, versions that sample alike).
- `tests/` — concrete scenarios, including values drawn by R.
- `app/` — the floating-point front end: `runif()`/`rnorm()` as `f64`,
  `pnorm()`, and `Display` for errors (the text comes from `RRngError::message`).
