//! The transform applied to whole buffers, pixel by pixel and in parallel.
//!
//! Output pixel `i` depends on input pixel `i` alone. The work is cut into
//! ranges of indices; each range is computed on its own, possibly on another
//! thread, and the results are joined in index order, so the outcome does
//! not depend on how the work was cut or scheduled.

use vstd::prelude::*;
use crate::buffer::PixelBuffer;
use crate::codec::{
    decode_pixel, encode_pixel, high_bits, lemma_decode_pixel_recovers_top_bits,
    lemma_encode_pixel_keeps_high_bits, process_pixel, process_pixel_spec, top_bits, Mode, Pixel,
};
use crate::error::StegoError;

verus! {

/// Two buffers are compatible when they agree in width and in height.
pub open spec fn compatible(first: &PixelBuffer, second: &PixelBuffer) -> bool {
    first.spec_width() == second.spec_width() && first.spec_height() == second.spec_height()
}

/// `process_pixel_spec` at every index of `primary`.
pub open spec fn transform_pixels(mode: Mode, primary: Seq<Pixel>, secondary: Seq<Pixel>) -> Seq<
    Pixel,
> {
    Seq::new(primary.len(), |i: int| process_pixel_spec(primary[i], secondary[i], mode))
}

/// The encoded pixels: pixel `i` hides `secret[i]` in `decoy[i]`.
pub open spec fn encode_pixels(secret: Seq<Pixel>, decoy: Seq<Pixel>) -> Seq<Pixel> {
    Seq::new(secret.len(), |i: int| encode_pixel(secret[i], decoy[i]))
}

/// The recovered pixels: pixel `i` is decoded from `encoded[i]`.
pub open spec fn decode_pixels(encoded: Seq<Pixel>) -> Seq<Pixel> {
    Seq::new(encoded.len(), |i: int| decode_pixel(encoded[i]))
}

/// The most significant bit-plane of a sequence of pixels.
pub open spec fn top_bit_plane(pixels: Seq<Pixel>) -> Seq<Pixel> {
    Seq::new(pixels.len(), |i: int| top_bits(pixels[i]))
}

/// Succeeds exactly when the two images have the same width and height.
pub fn check_compatibility(secret_img: &PixelBuffer, decoy_img: &PixelBuffer) -> (result: Result<
    (),
    StegoError,
>)
    ensures
        compatible(secret_img, decoy_img) ==> result is Ok,
        !compatible(secret_img, decoy_img) ==> result == Err::<(), StegoError>(
            StegoError::CompatibilityError,
        ),
{
    if secret_img.width() != decoy_img.width() || secret_img.height() != decoy_img.height() {
        return Err(StegoError::CompatibilityError);
    }
    Ok(())
}

/// The transformed pixels of the indices from `lo` up to `hi`, one after the
/// other on the calling thread.
fn transform_range_in_order(
    mode: Mode,
    primary: &Vec<Pixel>,
    secondary: &Vec<Pixel>,
    lo: usize,
    hi: usize,
) -> (part: Vec<Pixel>)
    requires
        lo <= hi <= primary@.len(),
        primary@.len() == secondary@.len(),
    ensures
        part@ == transform_pixels(mode, primary@, secondary@).subrange(lo as int, hi as int),
{
    let mut part: Vec<Pixel> = Vec::with_capacity(hi - lo);
    let mut i: usize = lo;
    while i < hi
        invariant
            lo <= i <= hi <= primary@.len(),
            primary@.len() == secondary@.len(),
            part@ == transform_pixels(mode, primary@, secondary@).subrange(lo as int, i as int),
        decreases hi - i,
    {
        part.push(process_pixel(primary[i], secondary[i], mode));
        i += 1;
    }
    part
}

/// The transformed pixels of the indices from `lo` up to `hi`, computed in
/// pieces that may run at the same time: at most `degree` of them, and one
/// if `degree` is 0. The range is halved, and `degree` shared out between
/// the halves, until a half is left with a degree below 2 or with fewer than
/// two pixels. In `Decode` mode `secondary` is not read for its values: any
/// vector as long as `primary` will do.
fn transform_range(
    mode: Mode,
    primary: &Vec<Pixel>,
    secondary: &Vec<Pixel>,
    lo: usize,
    hi: usize,
    degree: usize,
) -> (part: Vec<Pixel>)
    requires
        lo <= hi <= primary@.len(),
        primary@.len() == secondary@.len(),
    ensures
        part@ == transform_pixels(mode, primary@, secondary@).subrange(lo as int, hi as int),
    decreases degree,
{
    if degree < 2 || hi - lo < 2 {
        return transform_range_in_order(mode, primary, secondary, lo, hi);
    }
    let mid: usize = lo + (hi - lo) / 2;
    let lower_degree: usize = degree / 2;
    let upper_degree: usize = degree - lower_degree;
    let lower = || -> (part: Vec<Pixel>)
        ensures
            part@ == transform_pixels(mode, primary@, secondary@).subrange(lo as int, mid as int),
        { transform_range(mode, primary, secondary, lo, mid, lower_degree) };
    let upper = || -> (part: Vec<Pixel>)
        ensures
            part@ == transform_pixels(mode, primary@, secondary@).subrange(mid as int, hi as int),
        { transform_range(mode, primary, secondary, mid, hi, upper_degree) };
    let (mut part, mut rest) = rayon::join(lower, upper);
    part.append(&mut rest);
    proof {
        lemma_parts_join_in_order(mode, primary@, secondary@, lo as int, mid as int, hi as int);
    }
    part
}

/// The encoded pixels of two buffers of the same size.
fn encode_compatible(secret_img: &PixelBuffer, decoy_img: &PixelBuffer, degree: usize) -> (output:
    PixelBuffer)
    requires
        compatible(secret_img, decoy_img),
    ensures
        output.spec_width() == secret_img.spec_width(),
        output.spec_height() == secret_img.spec_height(),
        output@ == encode_pixels(secret_img@, decoy_img@),
{
    let secret = secret_img.pixels();
    let decoy = decoy_img.pixels();
    let encoded = transform_range(Mode::Encode, secret, decoy, 0, secret.len(), degree);
    assert(encoded@ =~= encode_pixels(secret@, decoy@));
    PixelBuffer::assemble(secret_img.width(), secret_img.height(), encoded)
}

/// Hides `secret_img` in `decoy_img`, in at most `degree` pieces that may run
/// at the same time; with a `degree` of 0 or 1 the pixels are computed one
/// after the other on the calling thread. Images of different size are
/// refused before any pixel is touched. The result does not depend on
/// `degree`.
pub fn perform_lsb_steganography_with_degree(
    secret_img: &PixelBuffer,
    decoy_img: &PixelBuffer,
    degree: usize,
) -> (result: Result<PixelBuffer, StegoError>)
    ensures
        match result {
            Ok(output) => {
                &&& compatible(secret_img, decoy_img)
                &&& output.spec_width() == secret_img.spec_width()
                &&& output.spec_height() == secret_img.spec_height()
                &&& output@ == encode_pixels(secret_img@, decoy_img@)
            },
            Err(error) => !compatible(secret_img, decoy_img) && error
                == StegoError::CompatibilityError,
        },
{
    match check_compatibility(secret_img, decoy_img) {
        Err(error) => Err(error),
        Ok(()) => Ok(encode_compatible(secret_img, decoy_img, degree)),
    }
}

/// Recovers what is hidden in `encoded_img`, in at most `degree` pieces that
/// may run at the same time; with a `degree` of 0 or 1 the pixels are
/// computed one after the other on the calling thread. The result does not
/// depend on `degree`.
pub fn decode_lsb_steganography_with_degree(encoded_img: &PixelBuffer, degree: usize) -> (output:
    PixelBuffer)
    ensures
        output.spec_width() == encoded_img.spec_width(),
        output.spec_height() == encoded_img.spec_height(),
        output@ == decode_pixels(encoded_img@),
{
    let encoded = encoded_img.pixels();
    let decoded = transform_range(Mode::Decode, encoded, encoded, 0, encoded.len(), degree);
    assert(decoded@ =~= decode_pixels(encoded@));
    PixelBuffer::assemble(encoded_img.width(), encoded_img.height(), decoded)
}

/// Hides `secret_img` in `decoy_img`: every channel of the result keeps the
/// seven high bits of the decoy and carries the high bit of the secret in
/// its low bit. Images of different size are refused before any pixel is
/// touched. The work is cut into at most as many pieces as rayon has threads.
pub fn perform_lsb_steganography(secret_img: &PixelBuffer, decoy_img: &PixelBuffer) -> (result:
    Result<PixelBuffer, StegoError>)
    ensures
        match result {
            Ok(output) => {
                &&& compatible(secret_img, decoy_img)
                &&& output.spec_width() == secret_img.spec_width()
                &&& output.spec_height() == secret_img.spec_height()
                &&& output@ == encode_pixels(secret_img@, decoy_img@)
            },
            Err(error) => !compatible(secret_img, decoy_img) && error
                == StegoError::CompatibilityError,
        },
{
    match check_compatibility(secret_img, decoy_img) {
        Err(error) => Err(error),
        Ok(()) => {
            let degree: usize = rayon::current_num_threads();
            Ok(encode_compatible(secret_img, decoy_img, degree))
        },
    }
}

/// Recovers what is hidden in `encoded_img`: every channel of the result has
/// the low bit of the encoded channel as its high bit and is zero elsewhere.
/// The work is cut into at most as many pieces as rayon has threads.
pub fn decode_lsb_steganography(encoded_img: &PixelBuffer) -> (output: PixelBuffer)
    ensures
        output.spec_width() == encoded_img.spec_width(),
        output.spec_height() == encoded_img.spec_height(),
        output@ == decode_pixels(encoded_img@),
{
    let degree: usize = rayon::current_num_threads();
    decode_lsb_steganography_with_degree(encoded_img, degree)
}

/// Decoding what was encoded gives the most significant bit-plane of the
/// secret, whatever the decoy was.
pub proof fn lemma_decode_recovers_top_bit_plane(secret: Seq<Pixel>, decoy: Seq<Pixel>)
    ensures
        decode_pixels(encode_pixels(secret, decoy)) == top_bit_plane(secret),
{
    assert forall|i: int| 0 <= i < secret.len() implies decode_pixel(
        #[trigger] encode_pixels(secret, decoy)[i],
    ) == top_bits(secret[i]) by {
        lemma_decode_pixel_recovers_top_bits(secret[i], decoy[i]);
    }
    assert(decode_pixels(encode_pixels(secret, decoy)) =~= top_bit_plane(secret));
}

/// Encoding changes no pixel of the decoy but in the low bit of its
/// channels.
pub proof fn lemma_encode_keeps_decoy_high_bits(secret: Seq<Pixel>, decoy: Seq<Pixel>, i: int)
    requires
        0 <= i < secret.len(),
    ensures
        high_bits(encode_pixels(secret, decoy)[i]) == high_bits(decoy[i]),
{
    lemma_encode_pixel_keeps_high_bits(secret[i], decoy[i]);
}

/// Cutting the work anywhere and joining the parts in order gives what one
/// pass over the whole range gives.
pub proof fn lemma_parts_join_in_order(
    mode: Mode,
    primary: Seq<Pixel>,
    secondary: Seq<Pixel>,
    lo: int,
    mid: int,
    hi: int,
)
    requires
        0 <= lo <= mid <= hi <= primary.len(),
    ensures
        transform_pixels(mode, primary, secondary).subrange(lo, mid) + transform_pixels(
            mode,
            primary,
            secondary,
        ).subrange(mid, hi) == transform_pixels(mode, primary, secondary).subrange(lo, hi),
{
    assert(transform_pixels(mode, primary, secondary).subrange(lo, mid) + transform_pixels(
        mode,
        primary,
        secondary,
    ).subrange(mid, hi) =~= transform_pixels(mode, primary, secondary).subrange(lo, hi));
}

} // verus!
