//! The pseudo-random generator, held as its seed.
//!
//! The generator is `fastrand::Rng`, whose whole state is one `u64`. The
//! library keeps that word instead of the generator, so that a state can be
//! copied, compared and replayed; each draw rebuilds the generator around the
//! word, draws once and reads the word back.

use vstd::prelude::*;
use crate::fixed::{Fixed, ONE};

verus! {

/// How many drawn words share one fraction: 2^40, which leaves the upper 24
/// bits of a word.
pub const WORDS_PER_FRACTION: u64 = 0x100_0000_0000;

/// The word that a generator holding `seed` draws next.
pub uninterp spec fn drawn_word(seed: u64) -> u64;

/// The seed that a generator holding `seed` holds after one draw.
pub uninterp spec fn seed_after_draw(seed: u64) -> u64;

/// The seed after `n` draws in a row.
pub open spec fn seed_after_draws(seed: u64, n: nat) -> u64
    decreases n,
{
    if n == 0 {
        seed
    } else {
        seed_after_draw(seed_after_draws(seed, (n - 1) as nat))
    }
}

/// The fraction in `[0, 1)` that a drawn word stands for, in raw units: its
/// upper 24 bits.
pub open spec fn unit_fraction(word: u64) -> int {
    word as int / WORDS_PER_FRACTION as int
}

/// One draw. The generator is made by `fastrand::Rng::with_seed(seed)`; the
/// word is what `fastrand::Rng::u64` gives over the full range, which cannot
/// fail; the new seed is what `fastrand::Rng::get_seed` reports after it.
/// Trusted: the generator has no state but its seed and consults nothing
/// else, so both results are functions of `seed` alone.
#[verifier::external_body]
pub(crate) fn draw_word(seed: u64) -> (r: (u64, u64))
    ensures
        r.0 == drawn_word(seed),
        r.1 == seed_after_draw(seed),
{
    let mut rng = fastrand::Rng::with_seed(seed);
    let word: u64 = rng.u64(..);
    (word, rng.get_seed())
}

/// The fraction in `[0, 1)` that `word` stands for.
pub fn unit_from_word(word: u64) -> (r: Fixed)
    ensures
        r@ == unit_fraction(word),
        0 <= r@ < ONE,
{
    assert(word >> 40 == word / 0x100_0000_0000u64) by (bit_vector);
    let upper: u64 = word >> 40;
    Fixed { raw: upper as i64 }
}

/// Draws add up: `a` draws and then `b` more are `a + b` draws.
pub proof fn lemma_seed_after_draws_add(seed: u64, a: nat, b: nat)
    ensures
        seed_after_draws(seed_after_draws(seed, a), b) == seed_after_draws(seed, a + b),
    decreases b,
{
    if b > 0 {
        lemma_seed_after_draws_add(seed, a, (b - 1) as nat);
    }
}

} // verus!
