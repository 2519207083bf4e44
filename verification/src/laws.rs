//! Library-wide laws of Multimixer-128, stated and proved against the
//! model in [`crate::model`].

use vstd::prelude::*;

use vstd::arithmetic::div_mod::lemma_add_mod_noop_right;

use crate::model::block_bytes;
use crate::model::block_word;
use crate::model::f_128_words;
use crate::model::mixer_input;
use crate::model::multimixer_128_digest;
use crate::model::parsed_block;
use crate::model::state_after;
use crate::model::state_bytes;
use crate::model::word32_le_bytes;
use crate::model::word32_of_bytes;
use crate::model::word64_le_bytes;
use crate::model::word64_of_bytes;

verus! {

/// Determinism: the digest is a function of the key and message bytes
/// alone. Two calls on equal inputs yield equal digests.
pub proof fn lemma_digest_deterministic(key1: Seq<u8>, msg1: Seq<u8>, key2: Seq<u8>, msg2: Seq<u8>)
    requires
        key1 == key2,
        msg1 == msg2,
    ensures
        multimixer_128_digest(key1, msg1) == multimixer_128_digest(key2, msg2),
{
}

/// Word `i` of the exact (unreduced) integer sum of the mixer outputs of
/// the first `n` blocks.
pub open spec fn mixer_output_sum(key: Seq<u8>, msg: Seq<u8>, n: int, i: int) -> int
    decreases n,
{
    if n <= 0 {
        0
    } else {
        mixer_output_sum(key, msg, n - 1, i) + f_128_words(mixer_input(key, msg, n - 1))[i]
    }
}

/// Block-count scaling: however many blocks are processed, each
/// accumulator word equals the direct sum of that word across all
/// per-block mixer outputs, reduced modulo 2^64 — folding block by block
/// loses nothing against summing outright.
pub proof fn lemma_state_is_block_sum(key: Seq<u8>, msg: Seq<u8>, n: int, i: int)
    requires
        0 <= n,
        0 <= i < 8,
    ensures
        state_after(key, msg, n)[i] as int == mixer_output_sum(key, msg, n, i)
            % 0x1_0000_0000_0000_0000,
    decreases n,
{
    let m: int = 0x1_0000_0000_0000_0000;
    if n == 0 {
        assert(state_after(key, msg, 0)[i] == 0);
    } else {
        lemma_state_is_block_sum(key, msg, n - 1, i);
        let s_prev = mixer_output_sum(key, msg, n - 1, i);
        let prev = state_after(key, msg, n - 1)[i];
        let z = f_128_words(mixer_input(key, msg, n - 1))[i];
        lemma_add_mod_noop_right(z as int, s_prev, m);
        assert((z + s_prev % m) % m == (z + s_prev) % m);
    }
}

/// Parse/serialize round trip for 32-byte blocks: re-serializing the
/// eight parsed words little-endian gives the block back, so parsing is
/// little-endian and loses nothing.
pub proof fn lemma_parse_block_round_trip(bytes: Seq<u8>)
    requires
        bytes.len() == 32,
    ensures
        block_bytes(parsed_block(bytes)) == bytes,
{
    assert forall|i: int| 0 <= i < 32 implies block_bytes(parsed_block(bytes))[i] == bytes[i] by {
        let q = i / 4;
        let r = i % 4;
        assert(0 <= q < 8);
        assert(0 <= r < 4);
        assert(i == 4 * q + r);
        let b0 = bytes[4 * q];
        let b1 = bytes[4 * q + 1];
        let b2 = bytes[4 * q + 2];
        let b3 = bytes[4 * q + 3];
        let w = word32_of_bytes(b0, b1, b2, b3);
        assert((w & 0xff) as u8 == b0 && ((w >> 8) & 0xff) as u8 == b1 && ((w >> 16) & 0xff) as u8
            == b2 && ((w >> 24) & 0xff) as u8 == b3) by (bit_vector)
            requires
                w == (b0 as u32) | ((b1 as u32) << 8) | ((b2 as u32) << 16) | ((b3 as u32) << 24),
        ;
        assert(parsed_block(bytes)[q] == w);
        assert(word32_le_bytes(w)[r] == bytes[i]);
    }
    assert(block_bytes(parsed_block(bytes)) =~= bytes);
}

/// Serialize/parse round trip for 8-word blocks: parsing the 32-byte
/// little-endian serialization of eight 32-bit words gives the words
/// back.
pub proof fn lemma_block_words_round_trip(words: Seq<u32>)
    requires
        words.len() == 8,
    ensures
        parsed_block(block_bytes(words)) == words,
{
    assert forall|j: int| 0 <= j < 8 implies parsed_block(block_bytes(words))[j] == words[j] by {
        let w = words[j];
        assert(block_bytes(words)[4 * j] == word32_le_bytes(w)[0]);
        assert(block_bytes(words)[4 * j + 1] == word32_le_bytes(w)[1]);
        assert(block_bytes(words)[4 * j + 2] == word32_le_bytes(w)[2]);
        assert(block_bytes(words)[4 * j + 3] == word32_le_bytes(w)[3]);
        assert((((w & 0xff) as u8) as u32) | ((((w >> 8) & 0xff) as u8 as u32) << 8)
            | ((((w >> 16) & 0xff) as u8 as u32) << 16) | ((((w >> 24) & 0xff) as u8 as u32) << 24)
            == w) by (bit_vector);
        assert(block_word(block_bytes(words), j) == w);
    }
    assert(parsed_block(block_bytes(words)) =~= words);
}

/// Endianness consistency of the digest serialization: parsing any eight
/// consecutive bytes of the serialized accumulator as a little-endian
/// 64-bit word gives back the accumulator word they came from.
pub proof fn lemma_state_bytes_round_trip(h: Seq<u64>)
    requires
        h.len() == 8,
    ensures
        forall|i: int|
            0 <= i < 8 ==> word64_of_bytes(
                #[trigger] state_bytes(h).subrange(8 * i, 8 * i + 8),
            ) == h[i],
{
    assert forall|i: int|
        0 <= i < 8 implies word64_of_bytes(
        #[trigger] state_bytes(h).subrange(8 * i, 8 * i + 8),
    ) == h[i] by {
        let w = h[i];
        let sub = state_bytes(h).subrange(8 * i, 8 * i + 8);
        assert forall|k: int| 0 <= k < 8 implies sub[k] == word64_le_bytes(w)[k] by {
            assert((8 * i + k) / 8 == i);
            assert((8 * i + k) % 8 == k);
        }
        assert((((w & 0xff) as u8) as u64) | ((((w >> 8) & 0xff) as u8 as u64) << 8)
            | ((((w >> 16) & 0xff) as u8 as u64) << 16) | ((((w >> 24) & 0xff) as u8 as u64) << 24)
            | ((((w >> 32) & 0xff) as u8 as u64) << 32) | ((((w >> 40) & 0xff) as u8 as u64) << 40)
            | ((((w >> 48) & 0xff) as u8 as u64) << 48) | ((((w >> 56) & 0xff) as u8 as u64) << 56)
            == w) by (bit_vector);
        assert(word64_of_bytes(sub) == w);
    }
}

} // verus!
