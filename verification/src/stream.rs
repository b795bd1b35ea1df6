use rand::Rng;
use rand::SeedableRng;
use rand_chacha::ChaCha20Rng;
use vstd::prelude::*;

verus! {

/// The number of 32-bit words after which the ChaCha20 stream of one seed
/// starts again: two to the power 68.
pub const STREAM_PERIOD_WORDS: u128 = 0x10_0000_0000_0000_0000;

/// The bytes that the ChaCha20 generator of the `rand_chacha` crate gives out
/// when it is seeded with `seed`, stands `word_pos` words into its stream and
/// is asked for `size` bytes.
pub uninterp spec fn chacha20_stream(seed: Seq<u8>, word_pos: nat, size: nat) -> Seq<u8>;

/// Where the generator stands after `size` bytes were drawn at `word_pos`: a
/// draw uses up whole words, and the stream wraps at its period.
pub open spec fn stream_advance(word_pos: nat, size: nat) -> nat {
    (word_pos + (size + 3) / 4) % (STREAM_PERIOD_WORDS as nat)
}

/// Fills `dest` from the ChaCha20 generator: `ChaCha20Rng::from_seed`, then
/// `set_word_pos`, `Rng::fill` and `get_word_pos`. The generator is a pure
/// function of seed and position, so the bytes written are named by
/// `chacha20_stream`. `fill` keeps the length of `dest` and consumes one word
/// for every four bytes, the last word in full; the position that comes back
/// is the one `get_word_pos` reports, a number below the period.
#[verifier::external_body]
pub(crate) fn chacha20_fill(seed: &[u8; 32], word_pos: u128, dest: &mut Vec<u8>) -> (next: u128)
    requires
        word_pos < STREAM_PERIOD_WORDS,
    ensures
        final(dest)@ == chacha20_stream(seed@, word_pos as nat, old(dest)@.len()),
        final(dest)@.len() == old(dest)@.len(),
        next as nat == stream_advance(word_pos as nat, old(dest)@.len()),
{
    let mut rng = ChaCha20Rng::from_seed(*seed);
    rng.set_word_pos(word_pos);
    rng.fill(&mut dest[..]);
    rng.get_word_pos()
}

} // verus!
