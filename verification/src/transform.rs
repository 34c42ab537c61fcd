//! The three transforms: split, join and fix-normal.
//!
//! Each takes decoded images and gives decoded images; what it computes is
//! stated as an operation on the [`Grid`]s that the images stand for.

use vstd::prelude::*;
use crate::error::Error;
use crate::grid::Grid;
use crate::raster::{blank, dimensions, get_pixel, map_colors, put_pixel, Image};
use crate::texel::{Channel, ChannelMap, Texel};

verus! {

/// Applies a channel map to every pixel: the result has the size of `source`,
/// and each of its pixels is `rule` applied to the pixel of `source` at the
/// same place.
pub fn remap(source: &Image, rule: ChannelMap) -> (mapped: Image)
    ensures
        mapped@ == source@.mapped(rule),
{
    let mapped = map_colors(source, rule);
    assert(mapped@ =~= source@.mapped(rule));
    mapped
}

/// Splits a packed texture into four opaque greyscale images, one per channel
/// in the order R, G, B, A: where the source holds a pixel whose value in
/// that channel is `s`, the image holds `(s, s, s, 255)`.
pub fn split(source: &Image) -> (parts: Vec<Image>)
    ensures
        parts.len() == 4,
        forall|c: int|
            0 <= c < 4 ==> (#[trigger] parts[c])@ == source@.mapped(
                ChannelMap::Grey(Channel::at(c)),
            ),
{
    let mut parts: Vec<Image> = Vec::new();
    let mut index: usize = 0;
    while index < 4
        invariant
            index <= 4,
            parts.len() == index,
            forall|c: int|
                0 <= c < index ==> (#[trigger] parts[c])@ == source@.mapped(
                    ChannelMap::Grey(Channel::at(c)),
                ),
        decreases 4 - index,
    {
        if let Some(channel) = Channel::from_index(index) {
            parts.push(remap(source, ChannelMap::Grey(channel)));
        }
        index += 1;
    }
    parts
}

/// Packs four images into one: the result takes its red channel from `r`, its
/// green from `g`, its blue from `b` and its alpha from `a`. Images that do
/// not all have the same width and the same height are refused.
pub fn join(r: &Image, g: &Image, b: &Image, a: &Image) -> (packed: Result<Image, Error>)
    ensures
        packed is Ok <==> r@.same_size(g@) && r@.same_size(b@) && r@.same_size(a@),
        packed matches Ok(out) ==> out@ == Grid::joined(r@, g@, b@, a@),
        packed matches Err(e) ==> e == Error::DimensionMismatch,
{
    let (width, height) = dimensions(r);
    let (g_width, g_height) = dimensions(g);
    let (b_width, b_height) = dimensions(b);
    let (a_width, a_height) = dimensions(a);
    if g_width != width || b_width != width || a_width != width {
        return Err(Error::DimensionMismatch);
    }
    if g_height != height || b_height != height || a_height != height {
        return Err(Error::DimensionMismatch);
    }
    let ghost target = Grid::joined(r@, g@, b@, a@);
    let mut out = blank(width, height);
    let mut x: u32 = 0;
    while x < width
        invariant
            x <= width,
            out@.width == width,
            out@.height == height,
            r@.width == width && r@.height == height,
            r@.same_size(g@) && r@.same_size(b@) && r@.same_size(a@),
            target == Grid::joined(r@, g@, b@, a@),
            forall|i: u32, j: u32| i < x && j < height ==> #[trigger] out@.at(i, j) == target.at(i, j),
        decreases width - x,
    {
        let mut y: u32 = 0;
        while y < height
            invariant
                x < width,
                y <= height,
                out@.width == width,
                out@.height == height,
                r@.width == width && r@.height == height,
                r@.same_size(g@) && r@.same_size(b@) && r@.same_size(a@),
                target == Grid::joined(r@, g@, b@, a@),
                forall|i: u32, j: u32|
                    (i < x && j < height) || (i == x && j < y) ==> #[trigger] out@.at(i, j)
                        == target.at(i, j),
            decreases height - y,
        {
            let pixel = Texel {
                r: get_pixel(r, x, y).r,
                g: get_pixel(g, x, y).g,
                b: get_pixel(b, x, y).b,
                a: get_pixel(a, x, y).a,
            };
            let ghost before = out@;
            put_pixel(&mut out, x, y, pixel);
            assert forall|i: u32, j: u32|
                before.contains(i, j) && (i != x || j != y) implies #[trigger] out@.at(i, j)
                == before.at(i, j) by {
                assert((i, j) != (x, y));
            }
            y += 1;
        }
        x += 1;
    }
    assert(out@ =~= target) by {
        assert forall|k: (u32, u32)| out@.pixels.dom().contains(k) implies out@.pixels[k]
            == target.pixels[k] by {
            assert(out@.at(k.0, k.1) == target.at(k.0, k.1));
        }
    }
    Ok(out)
}

/// Rearranges the channels of a normal map: each pixel `(R, G, B, A)` becomes
/// `(A, G, R, R)`.
pub fn normal(source: &Image) -> (fixed: Image)
    ensures
        fixed@ == source@.mapped(ChannelMap::FixNormal),
{
    remap(source, ChannelMap::FixNormal)
}

} // verus!
