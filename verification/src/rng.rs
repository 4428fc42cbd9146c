//! Deterministic randomness for one attempt: a ChaCha stream read word by word.

use rand::Rng;
use rand::SeedableRng;
use rand_chacha::ChaCha12Rng;
use vstd::prelude::*;

verus! {

/// The 32-bit word at offset `word_pos` of the output stream of the ChaCha
/// generator with 12 rounds, keyed by the 32 bytes of `seed`, on stream 0.
pub uninterp spec fn chacha12_word(seed: Seq<u8>, word_pos: nat) -> u32;

/// Calls `ChaCha12Rng::from_seed`, `ChaCha12Rng::set_word_pos` and
/// `Rng::next_u32` of `rand_chacha`: a fresh generator is keyed by `seed`,
/// moved to `word_pos` and asked for one word. The contract claims only that
/// this word is a function of the seed and the offset.
#[verifier::external_body]
fn chacha12_word_at(seed: &[u8; 32], word_pos: u64) -> (word: u32)
    ensures
        word == chacha12_word(seed@, word_pos as nat),
{
    let mut rng = ChaCha12Rng::from_seed(*seed);
    rng.set_word_pos(u128::from(word_pos));
    rng.next_u32()
}

/// A pseudo-random source seeded once per attempt. It holds the seed and the
/// offset of the next word, so that an attempt can be replayed from either.
pub struct DeterministicRng {
    pub seed: [u8; 32],
    pub word_pos: u64,
}

/// The offset that follows `word_pos`; the stream is read cyclically.
pub open spec fn next_word_pos(word_pos: u64) -> u64 {
    if word_pos == u64::MAX {
        0
    } else {
        (word_pos + 1) as u64
    }
}

impl DeterministicRng {
    /// The `k`-th word that this source will hand out, counted from 0, as
    /// long as the stream does not wrap.
    pub open spec fn upcoming(&self, k: nat) -> u32
        recommends
            self.word_pos + k <= u64::MAX,
    {
        chacha12_word(self.seed@, self.word_pos as nat + k)
    }

    pub fn from_seed(seed: [u8; 32]) -> (rng: Self)
        ensures
            rng.seed == seed,
            rng.word_pos == 0,
    {
        DeterministicRng { seed, word_pos: 0 }
    }

    /// Hands out the next word of the stream and moves one word on.
    pub fn next_u32(&mut self) -> (word: u32)
        ensures
            word == old(self).upcoming(0),
            final(self).seed == old(self).seed,
            final(self).word_pos == next_word_pos(old(self).word_pos),
    {
        let word = chacha12_word_at(&self.seed, self.word_pos);
        self.word_pos = if self.word_pos == u64::MAX {
            0
        } else {
            self.word_pos + 1
        };
        word
    }
}

/// Same seed, same sequence: two sources that agree on seed and offset hand
/// out the same words, and are in agreement again after each has handed out
/// one.
pub proof fn lemma_same_seed_same_sequence(a: DeterministicRng, b: DeterministicRng, k: nat)
    requires
        a.seed@ == b.seed@,
        a.word_pos == b.word_pos,
    ensures
        a.upcoming(k) == b.upcoming(k),
        next_word_pos(a.word_pos) == next_word_pos(b.word_pos),
{
}

} // verus!
