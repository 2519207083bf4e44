//! The executable core of Multimixer-128: the word codec, the F-128 block
//! mixer, the block combiner, the digest accumulator, and the driver.

use vstd::prelude::*;

use crate::model::add_mod32;
use crate::model::add_mod64;
use crate::model::accumulated_words;
use crate::model::block_at;
use crate::model::block_word;
use crate::model::combined_words;
use crate::model::f_128_words;
use crate::model::mixer_input;
use crate::model::multimixer_128_digest;
use crate::model::parsed_block;
use crate::model::state_after;
use crate::model::state_bytes;
use crate::model::valid_input_shape;
use crate::model::wide_product;
use crate::model::word64_le_bytes;
use crate::model::zero_state;

verus! {

/// Each key/message block of Multimixer-128 is 32 bytes wide.
pub const BLOCK_SIZE: usize = 32;

/// The message digest produced by Multimixer-128 is 64 bytes wide.
pub const DIGEST_SIZE: usize = BLOCK_SIZE * 2;

/// The ways a (key, message) pair can violate the driver's input contract.
#[derive(Clone, Copy, Debug, PartialEq, Eq, Structural)]
pub enum MultimixerError {
    /// Key and message byte lengths differ.
    LengthMismatch,
    /// The message (and key) are empty.
    EmptyInput,
    /// The common byte length is not a multiple of `BLOCK_SIZE`.
    UnalignedLength,
}

/// Addition modulo 2^32, the block combiner's word operation.
fn add32(a: u32, b: u32) -> (r: u32)
    ensures
        r == add_mod32(a, b),
{
    a.wrapping_add(b)
}

/// The exact widening product of two 32-bit words.
fn wide_mul(a: u32, b: u32) -> (r: u64)
    ensures
        r == wide_product(a, b),
{
    proof {
        assert((a as int) * (b as int) < 0x1_0000_0000_0000_0000) by (nonlinear_arith)
            requires
                a < 0x1_0000_0000,
                b < 0x1_0000_0000,
        ;
    }
    (a as u64) * (b as u64)
}

/// Parses 32 bytes as eight little-endian unsigned 32-bit words.
pub fn get_data_block(data: &[u8; 32]) -> (words: [u32; 8])
    ensures
        words@ == parsed_block(data@),
{
    let mut words: [u32; 8] = [0u32; 8];
    let mut off: usize = 0;
    while off < 32
        invariant
            off % 4 == 0,
            off <= 32,
            forall|i: int| 0 <= i < off / 4 ==> words@[i] == block_word(data@, i),
        decreases 32 - off,
    {
        let word = (data[off] as u32) | ((data[off + 1] as u32) << 8)
            | ((data[off + 2] as u32) << 16) | ((data[off + 3] as u32) << 24);
        words[off / 4] = word;
        off += 4;
    }
    proof {
        assert(words@ =~= parsed_block(data@));
    }
    words
}

/// Adds two 8-word blocks word-wise modulo 2^32, producing the mixer's
/// input from a key block and a message block.
fn add_blocks(blk_a: &[u32; 8], blk_b: &[u32; 8]) -> (res: [u32; 8])
    ensures
        res@ == combined_words(blk_a@, blk_b@),
{
    let mut res: [u32; 8] = [0u32; 8];
    let mut i: usize = 0;
    while i < 8
        invariant
            i <= 8,
            forall|j: int| 0 <= j < i ==> res@[j] == add_mod32(blk_a@[j], blk_b@[j]),
        decreases 8 - i,
    {
        res[i] = add32(blk_a[i], blk_b[i]);
        i += 1;
    }
    proof {
        assert(res@ =~= combined_words(blk_a@, blk_b@));
    }
    res
}

/// Folds one mixer output into the running accumulator, word-wise
/// modulo 2^64.
fn add_with_result(h: &[u64; 8], z: &[u64; 8]) -> (h_prime: [u64; 8])
    ensures
        h_prime@ == accumulated_words(h@, z@),
{
    let mut h_prime: [u64; 8] = [0u64; 8];
    let mut i: usize = 0;
    while i < 8
        invariant
            i <= 8,
            forall|j: int| 0 <= j < i ==> h_prime@[j] == add_mod64(h@[j], z@[j]),
        decreases 8 - i,
    {
        h_prime[i] = h[i].wrapping_add(z[i]);
        i += 1;
    }
    proof {
        assert(h_prime@ =~= accumulated_words(h@, z@));
    }
    h_prime
}

/// The F-128 block mixer.
///
/// Given eight 32-bit words, returns eight 64-bit words: the widening
/// products of opposite input words, followed by the widening products of
/// circulant three-word sums of each half. The index pairing is a fixed
/// contract of the algorithm; any permutation would change the digest.
#[verifier::rlimit(30)]
pub fn f_128(x: &[u32; 8]) -> (z: [u64; 8])
    ensures
        z@ == f_128_words(x@),
{
    let u0 = add32(add32(x[0], x[1]), x[2]);
    let u1 = add32(add32(x[1], x[2]), x[3]);
    let u2 = add32(add32(x[2], x[3]), x[0]);
    let u3 = add32(add32(x[3], x[0]), x[1]);

    let v0 = add32(add32(x[5], x[6]), x[7]);
    let v1 = add32(add32(x[6], x[7]), x[4]);
    let v2 = add32(add32(x[7], x[4]), x[5]);
    let v3 = add32(add32(x[4], x[5]), x[6]);

    let mut z: [u64; 8] = [0u64; 8];

    z[0] = wide_mul(x[0], x[4]);
    z[1] = wide_mul(x[1], x[5]);
    z[2] = wide_mul(x[2], x[6]);
    z[3] = wide_mul(x[3], x[7]);

    z[4] = wide_mul(u0, v0);
    z[5] = wide_mul(u1, v1);
    z[6] = wide_mul(u2, v2);
    z[7] = wide_mul(u3, v3);

    proof {
        assert(z@ =~= f_128_words(x@));
    }
    z
}

/// Copies the 32-byte block at `off` out of a byte slice.
fn read_block(data: &[u8], off: usize) -> (block: [u8; 32])
    requires
        off + 32 <= data@.len(),
    ensures
        block@ == data@.subrange(off as int, off as int + 32),
{
    let mut block: [u8; 32] = [0u8; 32];
    let n = data.len();
    let mut j: usize = 0;
    while j < 32
        invariant
            j <= 32,
            n == data@.len(),
            off + 32 <= n,
            forall|i: int| 0 <= i < j ==> block@[i] == data@[off + i],
        decreases 32 - j,
    {
        block[j] = data[off + j];
        j += 1;
    }
    proof {
        assert(block@ =~= data@.subrange(off as int, off as int + 32));
    }
    block
}

/// Serializes the eight accumulator words into the 64-byte digest buffer,
/// little-endian, in word order. The buffer is overwritten in full.
fn serialize_state(h: &[u64; 8], dig: &mut [u8; 64])
    ensures
        final(dig)@ == state_bytes(h@),
{
    let mut i: usize = 0;
    while i < 8
        invariant
            i <= 8,
            forall|j: int| 0 <= j < 8 * i ==> dig@[j] == state_bytes(h@)[j],
        decreases 8 - i,
    {
        let w = h[i];
        proof {
            assert((w & 0xff) < 256 && ((w >> 8) & 0xff) < 256 && ((w >> 16) & 0xff) < 256
                && ((w >> 24) & 0xff) < 256 && ((w >> 32) & 0xff) < 256
                && ((w >> 40) & 0xff) < 256 && ((w >> 48) & 0xff) < 256
                && ((w >> 56) & 0xff) < 256) by (bit_vector);
        }
        dig[8 * i] = (w & 0xff) as u8;
        dig[8 * i + 1] = ((w >> 8) & 0xff) as u8;
        dig[8 * i + 2] = ((w >> 16) & 0xff) as u8;
        dig[8 * i + 3] = ((w >> 24) & 0xff) as u8;
        dig[8 * i + 4] = ((w >> 32) & 0xff) as u8;
        dig[8 * i + 5] = ((w >> 40) & 0xff) as u8;
        dig[8 * i + 6] = ((w >> 48) & 0xff) as u8;
        dig[8 * i + 7] = ((w >> 56) & 0xff) as u8;
        proof {
            assert forall|j: int| 8 * i <= j < 8 * (i + 1) implies dig@[j] == state_bytes(h@)[j] by {
                assert(j / 8 == i as int);
                assert(state_bytes(h@)[j] == word64_le_bytes(h@[i as int])[j % 8]);
            }
        }
        i += 1;
    }
    proof {
        assert(dig@ =~= state_bytes(h@));
    }
}

/// Computes the Multimixer-128 digest of a key and a message of equal,
/// nonempty, 32-byte-aligned length.
///
/// Each 32-byte key block is combined with the message block at the same
/// offset word-wise modulo 2^32, mixed through F-128, and folded into the
/// accumulator word-wise modulo 2^64, in increasing block order. The
/// final accumulator is written to `dig` little-endian, as one full-width
/// overwrite after the last block.
pub fn multimixer_128(key: &[u8], msg: &[u8], dig: &mut [u8; 64])
    requires
        key@.len() == msg@.len(),
        msg@.len() > 0,
        msg@.len() % 32 == 0,
    ensures
        final(dig)@ == multimixer_128_digest(key@, msg@),
{
    let mut h: [u64; 8] = [0u64; 8];
    proof {
        assert(h@ =~= zero_state());
    }
    let len = msg.len();
    let mut off: usize = 0;
    while off < len
        invariant
            len == msg@.len(),
            key@.len() == msg@.len(),
            len % 32 == 0,
            off % 32 == 0,
            off <= len,
            h@ == state_after(key@, msg@, off as int / 32),
        decreases len - off,
    {
        let key_block = read_block(key, off);
        let msg_block = read_block(msg, off);
        let key_words = get_data_block(&key_block);
        let msg_words = get_data_block(&msg_block);
        let x = add_blocks(&key_words, &msg_words);
        let z = f_128(&x);
        h = add_with_result(&h, &z);
        proof {
            let b = off as int / 32;
            assert(32 * b == off as int);
            assert(key_words@ == block_at(key@, b));
            assert(msg_words@ == block_at(msg@, b));
            assert(z@ == f_128_words(mixer_input(key@, msg@, b)));
            assert(h@ == state_after(key@, msg@, b + 1));
            assert((off + 32) as int / 32 == b + 1);
        }
        off += 32;
    }
    serialize_state(&h, dig);
}

/// The checked entry point: validates the input shape, then computes the
/// digest.
///
/// On success the digest buffer is overwritten in full; on any input
/// error the buffer is left untouched and the error names the violated
/// precondition. Length mismatch is reported first, then emptiness, then
/// misalignment.
pub fn multimixer_128_checked(key: &[u8], msg: &[u8], dig: &mut [u8; 64]) -> (result: Result<
    (),
    MultimixerError,
>)
    ensures
        key@.len() != msg@.len() ==> result == Err::<(), MultimixerError>(
            MultimixerError::LengthMismatch,
        ),
        key@.len() == msg@.len() && msg@.len() == 0 ==> result == Err::<(), MultimixerError>(
            MultimixerError::EmptyInput,
        ),
        key@.len() == msg@.len() && msg@.len() > 0 && msg@.len() % 32 != 0 ==> result == Err::<
            (),
            MultimixerError,
        >(MultimixerError::UnalignedLength),
        valid_input_shape(key@, msg@) ==> result == Ok::<(), MultimixerError>(())
            && final(dig)@ == multimixer_128_digest(key@, msg@),
        !valid_input_shape(key@, msg@) ==> final(dig)@ == old(dig)@,
{
    if key.len() != msg.len() {
        return Err(MultimixerError::LengthMismatch);
    }
    if msg.len() == 0 {
        return Err(MultimixerError::EmptyInput);
    }
    if msg.len() % BLOCK_SIZE != 0 {
        return Err(MultimixerError::UnalignedLength);
    }
    multimixer_128(key, msg, dig);
    Ok(())
}

} // verus!
