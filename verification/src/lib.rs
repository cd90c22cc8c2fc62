//! Least-significant-bit image steganography.
//!
//! A secret image is hidden in a decoy image of the same size: every channel
//! of the result keeps the seven high bits of the decoy and carries the high
//! bit of the secret in its low bit. Decoding moves that bit back to the top
//! and leaves the other seven bits zero, so only the most significant
//! bit-plane of the secret survives the round trip.
//!
//! - `codec`: the rule for one channel and for one pixel, and its laws.
//! - `buffer`: pixel buffers, which always hold `width * height` pixels.
//! - `transformer`: the rule applied to whole buffers, in parallel.
//! - `cli`: what a command line asks for, and how the output is named.
//! - `error`: the failures and their messages.
//! - `parallel`: the two functions of rayon that `transformer` calls.
//!
//! Everything here is verified but for three contracts that are taken on
//! trust: those of `rayon::join` and `rayon::current_num_threads` in
//! `parallel`, and that of the standard library's `Path::extension` in `cli`.
//! Reading and writing image files is left to the caller, who hands over and
//! gets back pixels or interleaved bytes.

pub mod buffer;
pub mod cli;
pub mod codec;
pub mod error;
pub mod parallel;
pub mod transformer;
