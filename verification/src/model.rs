//! The mathematical model of Multimixer-128.
//!
//! Every executable function of the library is specified against the
//! definitions in this module: the little-endian word codec, the F-128
//! block mixer, the block combiner, the digest accumulator, and the
//! driver that folds a whole (key, message) pair into a digest.

use vstd::prelude::*;

verus! {

/// The input shape the driver requires: key and message of equal byte
/// length, nonempty, and made of whole 32-byte blocks.
pub open spec fn valid_input_shape(key: Seq<u8>, msg: Seq<u8>) -> bool {
    &&& key.len() == msg.len()
    &&& msg.len() > 0
    &&& msg.len() % 32 == 0
}

/// The little-endian value of four bytes as a 32-bit word.
pub open spec fn word32_of_bytes(b0: u8, b1: u8, b2: u8, b3: u8) -> u32 {
    (b0 as u32) | ((b1 as u32) << 8) | ((b2 as u32) << 16) | ((b3 as u32) << 24)
}

/// Word `i` of a byte sequence read as consecutive little-endian 32-bit words.
pub open spec fn block_word(bytes: Seq<u8>, i: int) -> u32
    recommends
        0 <= i,
        4 * i + 4 <= bytes.len(),
{
    word32_of_bytes(bytes[4 * i], bytes[4 * i + 1], bytes[4 * i + 2], bytes[4 * i + 3])
}

/// The eight 32-bit words of one 32-byte block, in little-endian order.
pub open spec fn parsed_block(bytes: Seq<u8>) -> Seq<u32>
    recommends
        bytes.len() == 32,
{
    Seq::new(8, |i: int| block_word(bytes, i))
}

/// The four little-endian bytes of a 32-bit word.
pub open spec fn word32_le_bytes(w: u32) -> Seq<u8> {
    seq![
        (w & 0xff) as u8,
        ((w >> 8) & 0xff) as u8,
        ((w >> 16) & 0xff) as u8,
        ((w >> 24) & 0xff) as u8,
    ]
}

/// The 32-byte little-endian serialization of eight 32-bit words.
pub open spec fn block_bytes(words: Seq<u32>) -> Seq<u8>
    recommends
        words.len() == 8,
{
    Seq::new(32, |i: int| word32_le_bytes(words[i / 4])[i % 4])
}

/// The eight little-endian bytes of a 64-bit word.
pub open spec fn word64_le_bytes(w: u64) -> Seq<u8> {
    seq![
        (w & 0xff) as u8,
        ((w >> 8) & 0xff) as u8,
        ((w >> 16) & 0xff) as u8,
        ((w >> 24) & 0xff) as u8,
        ((w >> 32) & 0xff) as u8,
        ((w >> 40) & 0xff) as u8,
        ((w >> 48) & 0xff) as u8,
        ((w >> 56) & 0xff) as u8,
    ]
}

/// The little-endian value of eight bytes as a 64-bit word.
pub open spec fn word64_of_bytes(b: Seq<u8>) -> u64
    recommends
        b.len() == 8,
{
    (b[0] as u64) | ((b[1] as u64) << 8) | ((b[2] as u64) << 16) | ((b[3] as u64) << 24)
        | ((b[4] as u64) << 32) | ((b[5] as u64) << 40) | ((b[6] as u64) << 48)
        | ((b[7] as u64) << 56)
}

/// Addition of 32-bit words modulo 2^32.
pub open spec fn add_mod32(a: u32, b: u32) -> u32 {
    ((a + b) % 0x1_0000_0000) as u32
}

/// The sum of three 32-bit words modulo 2^32, folded left to right.
pub open spec fn add3_mod32(a: u32, b: u32, c: u32) -> u32 {
    add_mod32(add_mod32(a, b), c)
}

/// Addition of 64-bit words modulo 2^64.
pub open spec fn add_mod64(a: u64, b: u64) -> u64 {
    ((a + b) % 0x1_0000_0000_0000_0000) as u64
}

/// The exact widening product of two 32-bit words; it always fits in 64 bits.
pub open spec fn wide_product(a: u32, b: u32) -> u64 {
    (a * b) as u64
}

/// The F-128 block mixer on eight 32-bit words.
///
/// The first four outputs are the widening products of opposite input
/// words; the last four multiply circulant three-word sums of the lower
/// half against circulant three-word sums of the upper half. The exact
/// pairing of indices is a fixed contract of the algorithm.
pub open spec fn f_128_words(x: Seq<u32>) -> Seq<u64>
    recommends
        x.len() == 8,
{
    let u0 = add3_mod32(x[0], x[1], x[2]);
    let u1 = add3_mod32(x[1], x[2], x[3]);
    let u2 = add3_mod32(x[2], x[3], x[0]);
    let u3 = add3_mod32(x[3], x[0], x[1]);
    let v0 = add3_mod32(x[5], x[6], x[7]);
    let v1 = add3_mod32(x[6], x[7], x[4]);
    let v2 = add3_mod32(x[7], x[4], x[5]);
    let v3 = add3_mod32(x[4], x[5], x[6]);
    seq![
        wide_product(x[0], x[4]),
        wide_product(x[1], x[5]),
        wide_product(x[2], x[6]),
        wide_product(x[3], x[7]),
        wide_product(u0, v0),
        wide_product(u1, v1),
        wide_product(u2, v2),
        wide_product(u3, v3),
    ]
}

/// Word-wise addition of two 8-word blocks modulo 2^32.
pub open spec fn combined_words(a: Seq<u32>, b: Seq<u32>) -> Seq<u32>
    recommends
        a.len() == 8,
        b.len() == 8,
{
    Seq::new(8, |i: int| add_mod32(a[i], b[i]))
}

/// Word-wise addition of two 8-word accumulator states modulo 2^64.
pub open spec fn accumulated_words(h: Seq<u64>, z: Seq<u64>) -> Seq<u64>
    recommends
        h.len() == 8,
        z.len() == 8,
{
    Seq::new(8, |i: int| add_mod64(h[i], z[i]))
}

/// The all-zero accumulator the driver starts from.
pub open spec fn zero_state() -> Seq<u64> {
    Seq::new(8, |i: int| 0u64)
}

/// The eight words of 32-byte block `b` of a byte sequence.
pub open spec fn block_at(bytes: Seq<u8>, b: int) -> Seq<u32>
    recommends
        0 <= b,
        32 * b + 32 <= bytes.len(),
{
    parsed_block(bytes.subrange(32 * b, 32 * b + 32))
}

/// The mixer input for block `b`: key block and message block combined
/// word-wise modulo 2^32.
pub open spec fn mixer_input(key: Seq<u8>, msg: Seq<u8>, b: int) -> Seq<u32> {
    combined_words(block_at(key, b), block_at(msg, b))
}

/// The accumulator after the first `n` blocks have been mixed and folded
/// in, in increasing block order.
pub open spec fn state_after(key: Seq<u8>, msg: Seq<u8>, n: int) -> Seq<u64>
    decreases n,
{
    if n <= 0 {
        zero_state()
    } else {
        accumulated_words(
            state_after(key, msg, n - 1),
            f_128_words(mixer_input(key, msg, n - 1)),
        )
    }
}

/// The 64-byte little-endian serialization of an 8-word accumulator.
pub open spec fn state_bytes(h: Seq<u64>) -> Seq<u8>
    recommends
        h.len() == 8,
{
    Seq::new(64, |i: int| word64_le_bytes(h[i / 8])[i % 8])
}

/// The digest of a valid (key, message) pair: the accumulator after all
/// blocks, serialized little-endian.
pub open spec fn multimixer_128_digest(key: Seq<u8>, msg: Seq<u8>) -> Seq<u8>
    recommends
        valid_input_shape(key, msg),
{
    state_bytes(state_after(key, msg, msg.len() as int / 32))
}

} // verus!
