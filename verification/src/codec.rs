//! The channel and pixel transform.

use vstd::prelude::*;

verus! {

/// Keeps the seven high bits of a decoy channel.
pub const MASK_ENCODING: u8 = 0b1111_1110;

/// Keeps the low bit of an encoded channel.
pub const MASK_DECODING: u8 = 0b0000_0001;

/// Distance between the low bit and the high bit of a channel.
pub const SHIFT: u8 = 7;

/// Keeps the high bit of a channel: all of a secret that survives.
pub const MASK_TOP_BIT: u8 = 0b1000_0000;

/// Which rule the transform applies.
#[derive(Clone, Copy, Debug, PartialEq, Eq, Structural)]
pub enum Mode {
    Encode,
    Decode,
}

/// Three 8-bit channels. The transform treats each of them alike.
#[derive(Clone, Copy, Debug, PartialEq, Eq, Structural)]
pub struct Pixel {
    pub red: u8,
    pub green: u8,
    pub blue: u8,
}

/// The encoded channel: the seven high bits of `decoy`, and the high bit of
/// `secret` in the low bit.
pub open spec fn encode_channel(secret: u8, decoy: u8) -> u8 {
    (decoy & MASK_ENCODING) | (secret >> SHIFT)
}

/// The recovered channel: the low bit of `encoded` as the high bit, zero
/// elsewhere.
pub open spec fn decode_channel(encoded: u8) -> u8 {
    (encoded & MASK_DECODING) << SHIFT
}

/// What `transform` computes. In `Decode` mode `secondary` plays no part.
pub open spec fn transform_spec(mode: Mode, primary: u8, secondary: u8) -> u8 {
    match mode {
        Mode::Encode => encode_channel(primary, secondary),
        Mode::Decode => decode_channel(primary),
    }
}

/// `encode_channel` on each of the three channels.
pub open spec fn encode_pixel(secret: Pixel, decoy: Pixel) -> Pixel {
    Pixel {
        red: encode_channel(secret.red, decoy.red),
        green: encode_channel(secret.green, decoy.green),
        blue: encode_channel(secret.blue, decoy.blue),
    }
}

/// `decode_channel` on each of the three channels.
pub open spec fn decode_pixel(encoded: Pixel) -> Pixel {
    Pixel {
        red: decode_channel(encoded.red),
        green: decode_channel(encoded.green),
        blue: decode_channel(encoded.blue),
    }
}

/// What `process_pixel` computes. In `Decode` mode `secondary` plays no part.
pub open spec fn process_pixel_spec(primary: Pixel, secondary: Pixel, mode: Mode) -> Pixel {
    match mode {
        Mode::Encode => encode_pixel(primary, secondary),
        Mode::Decode => decode_pixel(primary),
    }
}

/// The part of a pixel that a round trip preserves: the high bit of each
/// channel.
pub open spec fn top_bits(pixel: Pixel) -> Pixel {
    Pixel {
        red: pixel.red & MASK_TOP_BIT,
        green: pixel.green & MASK_TOP_BIT,
        blue: pixel.blue & MASK_TOP_BIT,
    }
}

/// The part of a pixel that encoding takes over from the decoy: the seven
/// high bits of each channel.
pub open spec fn high_bits(pixel: Pixel) -> Pixel {
    Pixel {
        red: pixel.red & MASK_ENCODING,
        green: pixel.green & MASK_ENCODING,
        blue: pixel.blue & MASK_ENCODING,
    }
}

/// Transforms one channel. In `Encode` mode `primary` is the secret channel
/// and `secondary` the decoy channel; in `Decode` mode `primary` is the
/// encoded channel and `secondary` is ignored.
pub fn transform(mode: Mode, primary: u8, secondary: u8) -> (out: u8)
    ensures
        out == transform_spec(mode, primary, secondary),
{
    match mode {
        Mode::Encode => (secondary & MASK_ENCODING) | (primary >> SHIFT),
        Mode::Decode => (primary & MASK_DECODING) << SHIFT,
    }
}

/// Transforms one pixel, channel by channel. In `Encode` mode `primary` is
/// the secret pixel and `secondary` the decoy pixel; in `Decode` mode
/// `primary` is the encoded pixel and `secondary` is ignored.
pub fn process_pixel(primary: Pixel, secondary: Pixel, mode: Mode) -> (out: Pixel)
    ensures
        out == process_pixel_spec(primary, secondary, mode),
{
    Pixel {
        red: transform(mode, primary.red, secondary.red),
        green: transform(mode, primary.green, secondary.green),
        blue: transform(mode, primary.blue, secondary.blue),
    }
}

/// Decoding an encoded channel gives back the high bit of the secret and
/// nothing else.
pub proof fn lemma_decode_recovers_top_bit(secret: u8, decoy: u8)
    ensures
        decode_channel(encode_channel(secret, decoy)) == secret & MASK_TOP_BIT,
{
    assert(((((decoy & 0b1111_1110u8) | (secret >> 7u8)) & 0b0000_0001u8) << 7u8) == secret
        & 0b1000_0000u8) by (bit_vector);
}

/// Encoding leaves the seven high bits of the decoy as they were.
pub proof fn lemma_encode_keeps_high_bits(secret: u8, decoy: u8)
    ensures
        encode_channel(secret, decoy) & MASK_ENCODING == decoy & MASK_ENCODING,
{
    assert(((decoy & 0b1111_1110u8) | (secret >> 7u8)) & 0b1111_1110u8 == decoy & 0b1111_1110u8)
        by (bit_vector);
}

/// The low bit of an encoded channel is the high bit of the secret.
pub proof fn lemma_encode_stores_top_bit(secret: u8, decoy: u8)
    ensures
        encode_channel(secret, decoy) & MASK_DECODING == secret >> SHIFT,
{
    assert(((decoy & 0b1111_1110u8) | (secret >> 7u8)) & 0b0000_0001u8 == secret >> 7u8)
        by (bit_vector);
}

/// Decoding is no fixed point: a second decoding always gives zero, so it
/// differs from the first exactly when the low bit of the input is set.
pub proof fn lemma_decode_twice_is_zero(encoded: u8)
    ensures
        decode_channel(decode_channel(encoded)) == 0,
        decode_channel(decode_channel(encoded)) != decode_channel(encoded) <==> encoded
            & MASK_DECODING == 1,
{
    assert((((encoded & 0b0000_0001u8) << 7u8) & 0b0000_0001u8) << 7u8 == 0u8) by (bit_vector);
    assert(((encoded & 0b0000_0001u8) << 7u8 != 0u8) <==> (encoded & 0b0000_0001u8 == 1u8))
        by (bit_vector);
}

/// The two rules in arithmetic: encoding replaces the parity of the decoy by
/// the upper-half flag of the secret, and decoding turns parity into 0 or 128.
pub proof fn lemma_channel_arithmetic(secret: u8, decoy: u8)
    ensures
        encode_channel(secret, decoy) == decoy - decoy % 2 + secret / 128,
        decode_channel(decoy) == 128 * (decoy % 2),
{
    assert(((decoy & 0b1111_1110u8) | (secret >> 7u8)) == decoy - decoy % 2 + secret / 128)
        by (bit_vector);
    assert(((decoy & 0b0000_0001u8) << 7u8) == 128 * (decoy % 2)) by (bit_vector);
}

/// Decoding an encoded pixel gives back the high bit of every channel of the
/// secret pixel and nothing else.
pub proof fn lemma_decode_pixel_recovers_top_bits(secret: Pixel, decoy: Pixel)
    ensures
        decode_pixel(encode_pixel(secret, decoy)) == top_bits(secret),
{
    lemma_decode_recovers_top_bit(secret.red, decoy.red);
    lemma_decode_recovers_top_bit(secret.green, decoy.green);
    lemma_decode_recovers_top_bit(secret.blue, decoy.blue);
}

/// Encoding leaves the seven high bits of every channel of the decoy pixel
/// as they were.
pub proof fn lemma_encode_pixel_keeps_high_bits(secret: Pixel, decoy: Pixel)
    ensures
        high_bits(encode_pixel(secret, decoy)) == high_bits(decoy),
{
    lemma_encode_keeps_high_bits(secret.red, decoy.red);
    lemma_encode_keeps_high_bits(secret.green, decoy.green);
    lemma_encode_keeps_high_bits(secret.blue, decoy.blue);
}

} // verus!
