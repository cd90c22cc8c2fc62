//! Pixel buffers: a width, a height, and exactly that many pixels.

use vstd::prelude::*;
use crate::codec::Pixel;
use crate::error::StegoError;

verus! {

/// The pixels of an image, row after row. A buffer always holds exactly
/// `width * height` pixels: nothing else can be constructed.
#[derive(Debug, PartialEq, Eq)]
pub struct PixelBuffer {
    width: u32,
    height: u32,
    pixels: Vec<Pixel>,
}

impl View for PixelBuffer {
    type V = Seq<Pixel>;

    closed spec fn view(&self) -> Seq<Pixel> {
        self.pixels@
    }
}

/// The interleaved bytes of a sequence of pixels: red, green, blue of the
/// first pixel, then of the second, and so on.
pub open spec fn raw_of_pixels(pixels: Seq<Pixel>) -> Seq<u8> {
    Seq::new(
        3 * pixels.len(),
        |k: int|
            if k % 3 == 0 {
                pixels[k / 3].red
            } else if k % 3 == 1 {
                pixels[k / 3].green
            } else {
                pixels[k / 3].blue
            },
    )
}

/// The pixels that interleaved bytes stand for; bytes beyond the last whole
/// triple are left out.
pub open spec fn pixels_of_raw(raw: Seq<u8>) -> Seq<Pixel> {
    Seq::new(
        raw.len() / 3,
        |i: int| Pixel { red: raw[3 * i], green: raw[3 * i + 1], blue: raw[3 * i + 2] },
    )
}

impl Clone for PixelBuffer {
    fn clone(&self) -> (copy: PixelBuffer)
        ensures
            copy.spec_width() == self.spec_width(),
            copy.spec_height() == self.spec_height(),
            copy@ == self@,
    {
        proof {
            use_type_invariant(self);
        }
        let pixels = self.pixels.clone();
        assert(pixels@ =~= self.pixels@);
        PixelBuffer { width: self.width, height: self.height, pixels }
    }
}

impl PixelBuffer {
    #[verifier::type_invariant]
    spec fn filled(&self) -> bool {
        self.pixels@.len() == self.width * self.height
    }

    /// The width in pixels.
    pub closed spec fn spec_width(&self) -> u32 {
        self.width
    }

    /// The height in pixels.
    pub closed spec fn spec_height(&self) -> u32 {
        self.height
    }

    /// A buffer of the given size over `pixels`, or `BufferAssemblyError` if
    /// their number is not `width * height`.
    pub fn new(width: u32, height: u32, pixels: Vec<Pixel>) -> (result: Result<
        PixelBuffer,
        StegoError,
    >)
        ensures
            pixels@.len() == width * height ==> (result matches Ok(buffer)
                && buffer.spec_width() == width && buffer.spec_height() == height && buffer@
                == pixels@),
            pixels@.len() != width * height ==> result == Err::<PixelBuffer, StegoError>(
                StegoError::BufferAssemblyError,
            ),
    {
        assert(width * height <= u64::MAX) by (nonlinear_arith)
            requires
                width <= u32::MAX,
                height <= u32::MAX,
        ;
        let expected: u64 = (width as u64) * (height as u64);
        if pixels.len() as u64 == expected {
            Ok(PixelBuffer { width, height, pixels })
        } else {
            Err(StegoError::BufferAssemblyError)
        }
    }

    /// A buffer of the given size over interleaved bytes (red, green, blue of
    /// each pixel in turn), or `BufferAssemblyError` if their number is not
    /// `3 * width * height`.
    pub fn from_raw(width: u32, height: u32, raw: &Vec<u8>) -> (result: Result<
        PixelBuffer,
        StegoError,
    >)
        ensures
            raw@.len() == 3 * (width * height) ==> (result matches Ok(buffer)
                && buffer.spec_width() == width && buffer.spec_height() == height && buffer@
                == pixels_of_raw(raw@)),
            raw@.len() != 3 * (width * height) ==> result == Err::<PixelBuffer, StegoError>(
                StegoError::BufferAssemblyError,
            ),
    {
        assert(3 * (width * height) <= u128::MAX) by (nonlinear_arith)
            requires
                width <= u32::MAX,
                height <= u32::MAX,
        ;
        let area: u128 = (width as u128) * (height as u128);
        if raw.len() as u128 != 3 * area {
            return Err(StegoError::BufferAssemblyError);
        }
        let count: usize = raw.len() / 3;
        let mut pixels: Vec<Pixel> = Vec::with_capacity(count);
        let mut i: usize = 0;
        while i < count
            invariant
                raw@.len() == 3 * count,
                3 * count <= usize::MAX,
                i <= count,
                pixels@ == pixels_of_raw(raw@).subrange(0, i as int),
            decreases count - i,
        {
            pixels.push(Pixel { red: raw[3 * i], green: raw[3 * i + 1], blue: raw[3 * i + 2] });
            i += 1;
        }
        assert(pixels@ == pixels_of_raw(raw@));
        Ok(PixelBuffer { width, height, pixels })
    }

    /// A buffer over pixels that are known to fill the given size.
    pub(crate) fn assemble(width: u32, height: u32, pixels: Vec<Pixel>) -> (buffer: PixelBuffer)
        requires
            pixels@.len() == width * height,
        ensures
            buffer.spec_width() == width,
            buffer.spec_height() == height,
            buffer@ == pixels@,
    {
        PixelBuffer { width, height, pixels }
    }

    /// The width in pixels.
    #[verifier::when_used_as_spec(spec_width)]
    pub fn width(&self) -> (width: u32)
        ensures
            width == self.spec_width(),
    {
        self.width
    }

    /// The height in pixels.
    #[verifier::when_used_as_spec(spec_height)]
    pub fn height(&self) -> (height: u32)
        ensures
            height == self.spec_height(),
    {
        self.height
    }

    /// Width and height, in that order.
    pub fn dimensions(&self) -> (size: (u32, u32))
        ensures
            size == (self.spec_width(), self.spec_height()),
    {
        (self.width, self.height)
    }

    /// The number of pixels, which is always `width * height`.
    pub fn len(&self) -> (count: usize)
        ensures
            count == self@.len(),
            count == self.spec_width() * self.spec_height(),
    {
        proof {
            use_type_invariant(self);
        }
        self.pixels.len()
    }

    /// The pixels, row after row.
    pub fn pixels(&self) -> (pixels: &Vec<Pixel>)
        ensures
            pixels@ == self@,
            pixels@.len() == self.spec_width() * self.spec_height(),
    {
        proof {
            use_type_invariant(self);
        }
        &self.pixels
    }

    /// The pixels as interleaved bytes: red, green, blue of each in turn.
    pub fn to_raw(&self) -> (raw: Vec<u8>)
        ensures
            raw@ == raw_of_pixels(self@),
    {
        let count: usize = self.pixels.len();
        let mut raw: Vec<u8> = Vec::new();
        let mut i: usize = 0;
        while i < count
            invariant
                count == self.pixels@.len(),
                i <= count,
                raw@.len() == 3 * i,
                forall|k: int| 0 <= k < 3 * i ==> raw@[k] == raw_of_pixels(self.pixels@)[k],
            decreases count - i,
        {
            let pixel = self.pixels[i];
            raw.push(pixel.red);
            raw.push(pixel.green);
            raw.push(pixel.blue);
            i += 1;
        }
        assert(raw@ =~= raw_of_pixels(self.pixels@));
        raw
    }
}

/// Interleaving loses nothing: the bytes of a sequence of pixels stand for
/// that sequence again.
pub proof fn lemma_raw_round_trip(pixels: Seq<Pixel>)
    ensures
        raw_of_pixels(pixels).len() == 3 * pixels.len(),
        pixels_of_raw(raw_of_pixels(pixels)) == pixels,
{
    assert(pixels_of_raw(raw_of_pixels(pixels)) =~= pixels);
}

/// Bytes that come in whole triples are the interleaving of the pixels they
/// stand for.
pub proof fn lemma_pixels_round_trip(raw: Seq<u8>)
    requires
        raw.len() % 3 == 0,
    ensures
        pixels_of_raw(raw).len() * 3 == raw.len(),
        raw_of_pixels(pixels_of_raw(raw)) == raw,
{
    assert(raw_of_pixels(pixels_of_raw(raw)) =~= raw);
}

} // verus!
