//! Images: grids of RGBA pixels kept in the `image` crate's buffers.
//!
//! Verus cannot look inside an `image::RgbaImage`, so what an image holds is
//! described by two uninterpreted functions, [`dimensions_of`] and
//! [`pixels_of`], from which the view of an [`Image`] is built. The private
//! functions of this module that call into `image` and `imageproc` are
//! trusted to behave as their contracts say; everything else is proved from
//! those contracts.

use vstd::prelude::*;
use image::{Rgba, RgbaImage};
use crate::grid::Grid;
use crate::texel::{ChannelMap, Texel};

verus! {

/// A grid of RGBA pixels, 8 bits per channel, stored in an `image::RgbaImage`.
///
/// Trusted: the buffer is hidden from the verifier, because `ImageBuffer` is
/// generic over a trait that cannot be declared to it. Contracts speak of an
/// image through its view, a [`Grid`].
#[verifier::external_body]
pub struct Image {
    buffer: RgbaImage,
}

/// Width and height of the buffer of an image, in this order.
pub uninterp spec fn dimensions_of(image: Image) -> (u32, u32);

/// The pixel that the buffer of an image holds at each coordinate pair
/// `(x, y)` with `x` below its width and `y` below its height.
pub uninterp spec fn pixels_of(image: Image) -> Map<(u32, u32), Texel>;

impl View for Image {
    type V = Grid;

    /// The size of the buffer, and its pixels at the places inside that size.
    open spec fn view(&self) -> Grid {
        Grid {
            width: dimensions_of(*self).0,
            height: dimensions_of(*self).1,
            pixels: Map::new(
                |k: (u32, u32)| k.0 < dimensions_of(*self).0 && k.1 < dimensions_of(*self).1,
                |k: (u32, u32)| pixels_of(*self)[k],
            ),
        }
    }
}

/// Whether the samples of an image of this size, four bytes per pixel, fit a
/// single allocation, which holds at most `isize::MAX` bytes.
pub open spec fn fits(width: u32, height: u32) -> bool {
    4 * (width * height) <= isize::MAX
}

/// `ImageBuffer::dimensions`: the width and height of the buffer.
///
/// Trusted. Also claims that the samples of the buffer fit an allocation:
/// `ImageBuffer` is only ever built over a `Vec<u8>` that it has found to be
/// at least `4 * width * height` long.
#[verifier::external_body]
pub(crate) fn dimensions(image: &Image) -> (size: (u32, u32))
    ensures
        size == dimensions_of(*image),
        fits(size.0, size.1),
{
    image.buffer.dimensions()
}

/// `ImageBuffer::get_pixel`: the pixel at `(x, y)`.
///
/// Trusted. The outside function panics outside the bounds, which `requires`
/// rules out.
#[verifier::external_body]
pub(crate) fn get_pixel(image: &Image, x: u32, y: u32) -> (pixel: Texel)
    requires
        x < dimensions_of(*image).0,
        y < dimensions_of(*image).1,
    ensures
        pixel == pixels_of(*image)[(x, y)],
{
    let p = image.buffer.get_pixel(x, y).0;
    Texel { r: p[0], g: p[1], b: p[2], a: p[3] }
}

/// `ImageBuffer::put_pixel`: overwrites the pixel at `(x, y)` and leaves the
/// size and every other pixel as they were.
///
/// Trusted. The outside function panics outside the bounds, which `requires`
/// rules out.
#[verifier::external_body]
pub(crate) fn put_pixel(image: &mut Image, x: u32, y: u32, pixel: Texel)
    requires
        x < dimensions_of(*old(image)).0,
        y < dimensions_of(*old(image)).1,
    ensures
        dimensions_of(*final(image)) == dimensions_of(*old(image)),
        pixels_of(*final(image)) == pixels_of(*old(image)).insert((x, y), pixel),
{
    image.buffer.put_pixel(x, y, Rgba([pixel.r, pixel.g, pixel.b, pixel.a]));
}

/// `ImageBuffer::new`: a buffer of the given size with every sample zero.
///
/// Trusted. The outside function panics when the samples do not fit an
/// allocation, which `requires` rules out.
#[verifier::external_body]
pub(crate) fn blank(width: u32, height: u32) -> (image: Image)
    requires
        fits(width, height),
    ensures
        dimensions_of(image) == (width, height),
        forall|k: (u32, u32)|
            k.0 < width && k.1 < height ==> #[trigger] pixels_of(image)[k] == (Texel {
                r: 0,
                g: 0,
                b: 0,
                a: 0,
            }),
{
    Image { buffer: RgbaImage::new(width, height) }
}

/// `imageproc::map::map_colors`: a new image of the same size in which each
/// pixel is `rule` applied to the pixel of `image` at the same place.
///
/// Trusted. The closure handed to the outside function is [`ChannelMap::apply`].
#[verifier::external_body]
pub(crate) fn map_colors(image: &Image, rule: ChannelMap) -> (mapped: Image)
    ensures
        dimensions_of(mapped) == dimensions_of(*image),
        forall|k: (u32, u32)|
            k.0 < dimensions_of(*image).0 && k.1 < dimensions_of(*image).1
                ==> #[trigger] pixels_of(mapped)[k] == rule.map(pixels_of(*image)[k]),
{
    let buffer = imageproc::map::map_colors(&image.buffer, |p: Rgba<u8>| {
        let q = rule.apply(Texel { r: p.0[0], g: p.0[1], b: p.0[2], a: p.0[3] });
        Rgba([q.r, q.g, q.b, q.a])
    });
    Image { buffer }
}

impl Image {
    /// The view of an image holds a pixel exactly for the places inside it.
    pub proof fn view_wf(&self)
        ensures
            self@.wf(),
    {
    }

    /// A transparent black image of the given size, or `None` where such an
    /// image cannot be allocated.
    pub fn new(width: u32, height: u32) -> (image: Option<Image>)
        ensures
            image is Some <==> fits(width, height),
            image matches Some(made) ==> made@ == Grid::solid(
                width,
                height,
                Texel { r: 0, g: 0, b: 0, a: 0 },
            ),
    {
        let limit: usize = isize::MAX as usize;
        match (width as usize).checked_mul(height as usize) {
            None => None,
            Some(area) => match area.checked_mul(4) {
                None => None,
                Some(samples) => if samples <= limit {
                    let made = blank(width, height);
                    assert(made@ =~= Grid::solid(width, height, Texel { r: 0, g: 0, b: 0, a: 0 }));
                    Some(made)
                } else {
                    None
                },
            },
        }
    }

    /// Width of the image in pixels.
    pub fn width(&self) -> (width: u32)
        ensures
            width == self@.width,
    {
        dimensions(self).0
    }

    /// Height of the image in pixels.
    pub fn height(&self) -> (height: u32)
        ensures
            height == self@.height,
    {
        dimensions(self).1
    }

    /// Width and height of the image, in this order. An image that exists is
    /// one whose samples fit an allocation.
    pub fn dimensions(&self) -> (size: (u32, u32))
        ensures
            size == (self@.width, self@.height),
            fits(size.0, size.1),
    {
        dimensions(self)
    }

    /// The pixel at `(x, y)`, or `None` outside the image.
    pub fn get(&self, x: u32, y: u32) -> (pixel: Option<Texel>)
        ensures
            pixel == if self@.contains(x, y) {
                Some(self@.at(x, y))
            } else {
                None
            },
    {
        let (width, height) = dimensions(self);
        if x < width && y < height {
            Some(get_pixel(self, x, y))
        } else {
            None
        }
    }

    /// Overwrites the pixel at `(x, y)`. Outside the image nothing changes and
    /// the result is `false`.
    pub fn set(&mut self, x: u32, y: u32, pixel: Texel) -> (inside: bool)
        ensures
            inside == old(self)@.contains(x, y),
            final(self)@ == if inside {
                old(self)@.with_pixel(x, y, pixel)
            } else {
                old(self)@
            },
    {
        let (width, height) = dimensions(self);
        if x < width && y < height {
            put_pixel(self, x, y, pixel);
            assert(self@ =~= old(self)@.with_pixel(x, y, pixel));
            true
        } else {
            false
        }
    }
}

} // verus!
