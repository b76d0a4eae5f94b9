//! A two-dimensional grid of pixels, with its PNG encoding.

use vstd::prelude::*;
use crate::geometry::{Position, Size};
use crate::image::Color;
use crate::image::png_stream::{decode_png, encode_png, png_decoded, png_encoded};

verus! {

/// Why an image could not be built, decoded or encoded.
#[derive(Debug, PartialEq, Eq, Structural)]
pub enum Error {
    /// The number of pixels does not match the size; holds the number expected.
    InvalidPixels(usize),
    /// The bytes are not a valid PNG stream.
    CorruptedData,
    /// The PNG stream decodes to something other than 8-bit RGBA.
    UnsupportedFormat,
    /// The image could not be encoded as PNG (for instance, it is empty).
    EncodingFailed,
}

/// What an image holds: its size, and its pixels from left to right, then
/// from top to bottom.
pub struct ImageView {
    pub size: Size<usize>,
    pub pixels: Seq<Color>,
}

impl ImageView {
    /// The pixels fill the size exactly.
    pub open spec fn well_formed(self) -> bool {
        self.pixels.len() == self.size.width * self.size.height
    }

    /// The position of a pixel in the row-major order, for any coordinates.
    pub open spec fn linear_index(self, position: Position<isize>) -> int {
        position.y * self.size.width + position.x
    }

    /// Whether the linear index of `position` falls on a pixel.
    pub open spec fn holds_index(self, position: Position<isize>) -> bool {
        0 <= self.linear_index(position) < self.pixels.len()
    }
}

/// A grid of RGBA pixels.
///
/// An empty image has size (0, 0) and no pixels. The pixels are stored from
/// left to right, then from top to bottom, and their number always equals
/// the width times the height.
#[derive(Debug, Clone, PartialEq, Eq)]
pub struct Image {
    size: Size<usize>,
    pixels: Vec<Color>,
}

impl View for Image {
    type V = ImageView;

    closed spec fn view(&self) -> ImageView {
        ImageView { size: self.size, pixels: self.pixels@ }
    }
}

/// The four bytes of a color, in the order red, green, blue, alpha.
pub open spec fn channel(c: Color, k: int) -> u8 {
    if k == 0 {
        c.red
    } else if k == 1 {
        c.green
    } else if k == 2 {
        c.blue
    } else {
        c.alpha
    }
}

/// Pixels laid out as bytes, four per pixel, in the order red, green, blue,
/// alpha.
pub open spec fn rgba_bytes(pixels: Seq<Color>) -> Seq<u8> {
    Seq::new(4 * pixels.len(), |k: int| channel(pixels[k / 4], k % 4))
}

/// The color held by bytes `4 * i` to `4 * i + 3`.
pub open spec fn color_at(bytes: Seq<u8>, i: int) -> Color {
    Color {
        red: bytes[4 * i],
        green: bytes[4 * i + 1],
        blue: bytes[4 * i + 2],
        alpha: bytes[4 * i + 3],
    }
}

/// Bytes read as pixels, four bytes per pixel in the order red, green, blue,
/// alpha.
pub open spec fn rgba_colors(bytes: Seq<u8>) -> Seq<Color> {
    Seq::new(bytes.len() / 4, |i: int| color_at(bytes, i))
}

/// The PNG color type code of RGBA samples.
pub const PNG_COLOR_TYPE_RGBA: u8 = 6;

/// The PNG bit depth of 8 bits per sample.
pub const PNG_BIT_DEPTH_EIGHT: u8 = 8;

/// The image that a decoded PNG frame describes: only 8-bit RGBA frames are
/// taken, and their data must hold four bytes per pixel.
pub open spec fn decoded_image(
    width: u32,
    height: u32,
    color_type: u8,
    bit_depth: u8,
    data: Seq<u8>,
) -> Result<ImageView, Error> {
    if color_type != PNG_COLOR_TYPE_RGBA || bit_depth != PNG_BIT_DEPTH_EIGHT {
        Err(Error::UnsupportedFormat)
    } else if data.len() != 4 * (width * height) {
        Err(Error::CorruptedData)
    } else {
        Ok(
            ImageView {
                size: Size { width: width as usize, height: height as usize },
                pixels: rgba_colors(data),
            },
        )
    }
}

/// The row-major index of `position` in an image `width` pixels wide.
fn position_to_index(position: &Position<isize>, width: usize) -> (r: i128)
    ensures
        r == position.y * width + position.x,
{
    let y = position.y as i128;
    let w = width as i128;
    let x = position.x as i128;
    assert(-0x8000_0000_0000_0000 <= y < 0x8000_0000_0000_0000);
    assert(0 <= w < 0x1_0000_0000_0000_0000);
    assert(-0x7fff_ffff_ffff_ffff_8000_0000_0000_0000 <= y * w
        <= 0x7fff_ffff_ffff_fffe_8000_0000_0000_0001) by (nonlinear_arith)
        requires
            -0x8000_0000_0000_0000 <= y < 0x8000_0000_0000_0000,
            0 <= w < 0x1_0000_0000_0000_0000,
    ;
    y * w + x
}

impl Image {
    /// The pixels fill the size exactly.
    pub open spec fn well_formed(&self) -> bool {
        self@.well_formed()
    }

    /// An empty image: size (0, 0) and no pixels.
    pub fn new() -> (r: Image)
        ensures
            r@.size == (Size { width: 0usize, height: 0usize }),
            r@.pixels == Seq::<Color>::empty(),
            r.well_formed(),
    {
        Image { size: Size::new(0, 0), pixels: Vec::new() }
    }

    /// An image of the given size whose pixels all have the given color.
    pub fn with_size(size: Size<usize>, color: Color) -> (r: Image)
        requires
            size.width * size.height <= usize::MAX,
        ensures
            r@.size == size,
            r@.pixels == Seq::new((size.width * size.height) as nat, |i: int| color),
            r.well_formed(),
    {
        let pixels = vec![color; size.width * size.height];
        let r = Image { size: size, pixels: pixels };
        assert(r@.pixels =~= Seq::new((size.width * size.height) as nat, |i: int| color));
        r
    }

    /// An image of the given size with the given pixels.
    ///
    /// Fails with `InvalidPixels` carrying the expected number of pixels when
    /// there are not exactly width times height pixels.
    pub fn with_pixels(size: Size<usize>, pixels: Vec<Color>) -> (r: Result<Image, Error>)
        requires
            size.width * size.height <= usize::MAX,
        ensures
            pixels@.len() == size.width * size.height ==> (r matches Ok(image) && image@.size
                == size && image@.pixels == pixels@ && image.well_formed()),
            pixels@.len() != size.width * size.height ==> r == Err::<Image, Error>(
                Error::InvalidPixels((size.width * size.height) as usize),
            ),
    {
        let mut image = Image::new();
        match image.update_pixels(pixels, size) {
            Ok(()) => Ok(image),
            Err(e) => Err(e),
        }
    }

    /// The size of the image.
    pub fn size(&self) -> (r: Size<usize>)
        ensures
            r == self@.size,
    {
        self.size
    }

    /// Changes the size of the image.
    ///
    /// The pixels keep their place in the row-major order: the list is cut to
    /// the new number of pixels, or extended with pixels of the given color.
    pub fn resize(&mut self, size: Size<usize>, color: Color)
        requires
            size.width * size.height <= usize::MAX,
        ensures
            final(self)@.size == size,
            final(self).well_formed(),
            size.width * size.height <= old(self)@.pixels.len() ==> final(self)@.pixels
                == old(self)@.pixels.subrange(0, size.width * size.height),
            size.width * size.height > old(self)@.pixels.len() ==> final(self)@.pixels
                == old(self)@.pixels + Seq::new(
                (size.width * size.height - old(self)@.pixels.len()) as nat,
                |i: int| color,
            ),
    {
        let length = size.width * size.height;
        self.size = size;
        let ghost before = self.pixels@;
        self.pixels.resize(length, color);
        proof {
            if length > before.len() {
                assert(self.pixels@ =~= before + Seq::new(
                    (length - before.len()) as nat,
                    |i: int| color,
                )) by {
                    assert forall|i: int| 0 <= i < length implies self.pixels@[i] == (before
                        + Seq::new((length - before.len()) as nat, |i: int| color))[i] by {
                        if i < before.len() {
                            assert(self.pixels@.subrange(0, before.len() as int)[i]
                                == self.pixels@[i]);
                        }
                    }
                }
            }
        }
    }

    /// The pixel whose row-major index is `y * width + x`, if there is one.
    ///
    /// Coordinates past the right edge reach into the following rows, as the
    /// index alone decides.
    pub fn pixel(&self, position: Position<isize>) -> (r: Option<&Color>)
        ensures
            self@.holds_index(position) ==> r == Some(
                &self@.pixels[self@.linear_index(position)],
            ),
            !self@.holds_index(position) ==> r is None,
    {
        let index = position_to_index(&position, self.size.width);
        if 0 <= index && index < self.pixels.len() as i128 {
            Some(&self.pixels[index as usize])
        } else {
            None
        }
    }

    /// The pixel whose row-major index is `y * width + x`, for writing, if
    /// there is one.
    pub fn pixel_mut(&mut self, position: Position<isize>) -> (r: Option<&mut Color>)
        ensures
            old(self)@.holds_index(position) ==> (r matches Some(c) && *c == old(
                self,
            )@.pixels[old(self)@.linear_index(position)] && final(self)@.size == old(self)@.size
                && final(self)@.pixels == old(self)@.pixels.update(
                old(self)@.linear_index(position),
                *final(c),
            )),
            !old(self)@.holds_index(position) ==> (r is None && *final(self) == *old(self)),
    {
        let index = position_to_index(&position, self.size.width);
        if 0 <= index && index < self.pixels.len() as i128 {
            Some(&mut self.pixels[index as usize])
        } else {
            None
        }
    }

    /// The pixels, from left to right, then from top to bottom.
    pub fn pixels(&self) -> (r: &Vec<Color>)
        ensures
            r@ == self@.pixels,
    {
        &self.pixels
    }

    /// Replaces the size and the pixels.
    ///
    /// Fails with `InvalidPixels` carrying the expected number of pixels, and
    /// leaves the image untouched, when there are not exactly width times
    /// height pixels.
    pub fn update_pixels(&mut self, pixels: Vec<Color>, size: Size<usize>) -> (r: Result<
        (),
        Error,
    >)
        requires
            size.width * size.height <= usize::MAX,
        ensures
            pixels@.len() == size.width * size.height ==> (r is Ok && final(self)@.size == size
                && final(self)@.pixels == pixels@),
            pixels@.len() != size.width * size.height ==> (r == Err::<(), Error>(
                Error::InvalidPixels((size.width * size.height) as usize),
            ) && *final(self) == *old(self)),
    {
        let length = size.width * size.height;
        if pixels.len() != length {
            return Err(Error::InvalidPixels(length));
        }
        self.size = size;
        self.pixels = pixels;
        Ok(())
    }

    /// The image described by a decoded PNG frame: its width, height, PNG
    /// color type code, bit depth and sample bytes.
    ///
    /// Only 8-bit RGBA frames are taken (`UnsupportedFormat` otherwise), and
    /// the data must hold exactly four bytes per pixel (`CorruptedData`
    /// otherwise).
    pub fn from_png_frame(width: u32, height: u32, color_type: u8, bit_depth: u8, data: &Vec<u8>)
        -> (r: Result<Image, Error>)
        ensures
            decoded_image(width, height, color_type, bit_depth, data@) matches Ok(v) ==> (
            r matches Ok(image) && image@ == v && image.well_formed()),
            decoded_image(width, height, color_type, bit_depth, data@) matches Err(e) ==> r
                == Err::<Image, Error>(e),
    {
        if color_type != PNG_COLOR_TYPE_RGBA || bit_depth != PNG_BIT_DEPTH_EIGHT {
            return Err(Error::UnsupportedFormat);
        }
        let count = (width as usize).checked_mul(height as usize);
        let count = match count {
            Some(c) => c,
            None => {
                let n = data.len();
                assert(n != 4 * (width * height)) by (nonlinear_arith)
                    requires
                        width * height > usize::MAX,
                        n <= usize::MAX,
                ;
                return Err(Error::CorruptedData);
            },
        };
        assert(count == width * height);
        if count > data.len() / 4 {
            assert(data@.len() != 4 * count);
            return Err(Error::CorruptedData);
        }
        if data.len() != 4 * count {
            return Err(Error::CorruptedData);
        }
        let mut pixels: Vec<Color> = Vec::with_capacity(count);
        let mut i: usize = 0;
        while i < count
            invariant
                0 <= i <= count,
                data@.len() == 4 * count,
                data.len() == data@.len(),
                pixels@.len() == i,
                forall|j: int| 0 <= j < i ==> #[trigger] pixels@[j] == color_at(data@, j),
            decreases count - i,
        {
            let base = 4 * i;
            pixels.push(
                Color {
                    red: data[base],
                    green: data[base + 1],
                    blue: data[base + 2],
                    alpha: data[base + 3],
                },
            );
            i = i + 1;
        }
        let image = Image { size: Size::new(width as usize, height as usize), pixels: pixels };
        assert(data@.len() / 4 == count);
        assert(image@.pixels =~= rgba_colors(data@));
        assert(image@.pixels.len() == image@.size.width * image@.size.height);
        Ok(image)
    }

    /// The pixels laid out as bytes, four per pixel, in the order red, green,
    /// blue, alpha.
    pub fn to_rgba8(&self) -> (r: Vec<u8>)
        requires
            4 * self@.pixels.len() <= usize::MAX,
        ensures
            r@ == rgba_bytes(self@.pixels),
    {
        let mut bytes: Vec<u8> = Vec::with_capacity(4 * self.pixels.len());
        let mut i: usize = 0;
        while i < self.pixels.len()
            invariant
                0 <= i <= self.pixels@.len(),
                4 * self.pixels@.len() <= usize::MAX,
                bytes@.len() == 4 * i,
                forall|k: int|
                    0 <= k < 4 * i ==> #[trigger] bytes@[k] == channel(
                        self.pixels@[k / 4],
                        k % 4,
                    ),
            decreases self.pixels@.len() - i,
        {
            let c = self.pixels[i];
            bytes.push(c.red);
            bytes.push(c.green);
            bytes.push(c.blue);
            bytes.push(c.alpha);
            i = i + 1;
        }
        assert(bytes@ =~= rgba_bytes(self@.pixels));
        bytes
    }

    /// Replaces this image with the one that a PNG stream holds.
    ///
    /// Fails with `CorruptedData` when the stream cannot be decoded, and with
    /// the error of `from_png_frame` when its frame is not an 8-bit RGBA image;
    /// the image is left untouched on failure.
    pub fn load(&mut self, bytes: &[u8]) -> (r: Result<(), Error>)
        ensures
            png_decoded(bytes@) is None ==> (r == Err::<(), Error>(Error::CorruptedData)
                && *final(self) == *old(self)),
            png_decoded(bytes@) matches Some((w, h, c, d, data)) ==> match decoded_image(
                w,
                h,
                c,
                d,
                data,
            ) {
                Ok(v) => r is Ok && final(self)@ == v && final(self).well_formed(),
                Err(e) => r == Err::<(), Error>(e) && *final(self) == *old(self),
            },
    {
        match decode_png(bytes) {
            Err(_) => Err(Error::CorruptedData),
            Ok((width, height, color_type, bit_depth, data)) => {
                match Image::from_png_frame(width, height, color_type, bit_depth, &data) {
                    Ok(image) => {
                        *self = image;
                        Ok(())
                    },
                    Err(e) => Err(e),
                }
            },
        }
    }

    /// The PNG stream of this image, as 8-bit RGBA.
    ///
    /// Fails with `EncodingFailed` when the image is empty, when its width or
    /// height does not fit in 32 bits, or when its pixels do not fill its size.
    pub fn save(&self) -> (r: Result<Vec<u8>, Error>)
        ensures
            self@.size.width == 0 || self@.size.height == 0 || self@.size.width > u32::MAX
                || self@.size.height > u32::MAX || !self.well_formed() ==> r == Err::<
                Vec<u8>,
                Error,
            >(Error::EncodingFailed),
            self.well_formed() && 0 < self@.size.width <= u32::MAX && 0 < self@.size.height
                <= u32::MAX && 4 * self@.pixels.len() <= usize::MAX ==> r is Ok,
            r matches Ok(bytes) ==> bytes@ == png_encoded(
                self@.size.width as u32,
                self@.size.height as u32,
                rgba_bytes(self@.pixels),
            ),
            r matches Err(e) ==> e == Error::EncodingFailed,
    {
        if self.size.width > u32::MAX as usize || self.size.height > u32::MAX as usize
            || self.pixels.len() > usize::MAX / 4 {
            return Err(Error::EncodingFailed);
        }
        if self.size.width == 0 || self.size.height == 0 {
            return Err(Error::EncodingFailed);
        }
        match self.size.width.checked_mul(self.size.height) {
            Some(count) => {
                if count != self.pixels.len() {
                    return Err(Error::EncodingFailed);
                }
            },
            None => {
                return Err(Error::EncodingFailed);
            },
        }
        let data = self.to_rgba8();
        let width = self.size.width as u32;
        let height = self.size.height as u32;
        assert(data@.len() == 4 * (width * height));
        match encode_png(width, height, data.as_slice()) {
            Ok(bytes) => Ok(bytes),
            Err(_) => Err(Error::EncodingFailed),
        }
    }
}


} // verus!
