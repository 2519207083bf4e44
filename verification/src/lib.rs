//! Multimixer-128: a universal keyed-hashing primitive.
//!
//! Given a secret key and a message of equal, 32-byte-aligned length, the
//! library produces a 64-byte authentication digest by combining key and
//! message block-wise modulo 2^32, mixing each combined block through the
//! keyless bilinear transform F-128, and accumulating the mixer outputs
//! word-wise modulo 2^64.

pub mod laws;
pub mod model;
mod multimixer_128;

pub use multimixer_128::BLOCK_SIZE;
pub use multimixer_128::DIGEST_SIZE;
pub use multimixer_128::MultimixerError;
pub use multimixer_128::f_128;
pub use multimixer_128::get_data_block;
pub use multimixer_128::multimixer_128;
pub use multimixer_128::multimixer_128_checked;
