//! The mathematical model of an image: a size, and a pixel for each place
//! inside it. Contracts state what the transforms compute as operations on
//! this model.

use vstd::prelude::*;
use crate::texel::{Channel, ChannelMap, Texel};

verus! {

/// A `width` by `height` grid of pixels. The pixel in column `x` and row `y`
/// is `pixels[(x, y)]`.
#[verifier::ext_equal]
pub struct Grid {
    pub width: u32,
    pub height: u32,
    pub pixels: Map<(u32, u32), Texel>,
}

impl Grid {
    /// Whether column `x`, row `y` lies inside the grid.
    pub open spec fn contains(self, x: u32, y: u32) -> bool {
        x < self.width && y < self.height
    }

    /// The pixel in column `x` and row `y`.
    pub open spec fn at(self, x: u32, y: u32) -> Texel {
        self.pixels[(x, y)]
    }

    /// The grid holds a pixel exactly for the places inside it.
    pub open spec fn wf(self) -> bool {
        forall|k: (u32, u32)| self.pixels.dom().contains(k) <==> self.contains(k.0, k.1)
    }

    /// The two grids have the same width and the same height.
    pub open spec fn same_size(self, other: Grid) -> bool {
        self.width == other.width && self.height == other.height
    }

    /// The grid of the given size that holds `pixel` everywhere.
    pub open spec fn solid(width: u32, height: u32, pixel: Texel) -> Grid {
        Grid {
            width,
            height,
            pixels: Map::new(|k: (u32, u32)| k.0 < width && k.1 < height, |k: (u32, u32)| pixel),
        }
    }

    /// This grid with the pixel in column `x`, row `y` replaced by `pixel`.
    pub open spec fn with_pixel(self, x: u32, y: u32, pixel: Texel) -> Grid {
        Grid { width: self.width, height: self.height, pixels: self.pixels.insert((x, y), pixel) }
    }

    /// The grid of the same size whose pixel at each place is `f` of the
    /// pixel that this grid holds there.
    pub open spec fn map_with(self, f: spec_fn(Texel) -> Texel) -> Grid {
        Grid {
            width: self.width,
            height: self.height,
            pixels: Map::new(
                |k: (u32, u32)| self.contains(k.0, k.1),
                |k: (u32, u32)| f(self.pixels[k]),
            ),
        }
    }

    /// The grid of the same size whose pixel at each place is `rule` applied
    /// to the pixel that this grid holds there.
    pub open spec fn mapped(self, rule: ChannelMap) -> Grid {
        self.map_with(|p: Texel| rule.map(p))
    }

    /// The grid of the size of `r` that takes, at each place, its red from
    /// `r`, its green from `g`, its blue from `b` and its alpha from `a`.
    pub open spec fn joined(r: Grid, g: Grid, b: Grid, a: Grid) -> Grid {
        Grid {
            width: r.width,
            height: r.height,
            pixels: Map::new(
                |k: (u32, u32)| r.contains(k.0, k.1),
                |k: (u32, u32)|
                    Texel { r: r.pixels[k].r, g: g.pixels[k].g, b: b.pixels[k].b, a: a.pixels[k].a },
            ),
        }
    }
}

/// Fix-normal applied twice to a pixel `(R, G, B, A)` gives `(R, G, A, A)`.
/// That is the pixel itself only where its blue equals its alpha, so the
/// transform does not undo itself.
pub proof fn fix_normal_twice(p: Texel)
    ensures
        ChannelMap::FixNormal.map(ChannelMap::FixNormal.map(p)) == (Texel {
            r: p.r,
            g: p.g,
            b: p.a,
            a: p.a,
        }),
        ChannelMap::FixNormal.map(ChannelMap::FixNormal.map(p)) == p <==> p.b == p.a,
{
}

/// On a pixel whose green equals its red, fix-normal applied twice gives
/// `(R, R, A, A)`.
pub proof fn fix_normal_twice_red_green(p: Texel)
    requires
        p.g == p.r,
    ensures
        ChannelMap::FixNormal.map(ChannelMap::FixNormal.map(p)) == (Texel {
            r: p.r,
            g: p.r,
            b: p.a,
            a: p.a,
        }),
{
}

/// A grid that went through fix-normal twice holds `(R, G, A, A)` wherever it
/// held `(R, G, B, A)`. It is the grid it was only if blue equals alpha in
/// every one of its pixels.
pub proof fn normal_twice(grid: Grid)
    ensures
        grid.mapped(ChannelMap::FixNormal).mapped(ChannelMap::FixNormal) == grid.map_with(
            |p: Texel| Texel { r: p.r, g: p.g, b: p.a, a: p.a },
        ),
        grid.wf() ==> (grid.mapped(ChannelMap::FixNormal).mapped(ChannelMap::FixNormal) == grid
            <==> forall|x: u32, y: u32|
            grid.contains(x, y) ==> (#[trigger] grid.at(x, y)).b == grid.at(x, y).a),
{
    let twice = grid.mapped(ChannelMap::FixNormal).mapped(ChannelMap::FixNormal);
    assert(twice =~= grid.map_with(|p: Texel| Texel { r: p.r, g: p.g, b: p.a, a: p.a }));
    if grid.wf() {
        if forall|x: u32, y: u32|
            grid.contains(x, y) ==> (#[trigger] grid.at(x, y)).b == grid.at(x, y).a {
            assert forall|k: (u32, u32)| twice.pixels.dom().contains(k) implies twice.pixels[k]
                == grid.pixels[k] by {
                assert(grid.at(k.0, k.1).b == grid.at(k.0, k.1).a);
            }
            assert(twice =~= grid);
        }
        if twice == grid {
            assert forall|x: u32, y: u32| grid.contains(x, y) implies (#[trigger] grid.at(
                x,
                y,
            )).b == grid.at(x, y).a by {
                assert(twice.pixels[(x, y)] == grid.pixels[(x, y)]);
            }
        }
    }
}

/// The four parts of a split have one size, and joining them gives back the
/// colour of every pixel with its alpha set to 255. The result is the grid
/// that was split only if every one of its pixels was opaque.
pub proof fn split_then_join(grid: Grid)
    ensures
        grid.mapped(ChannelMap::Grey(Channel::R)).same_size(grid),
        grid.mapped(ChannelMap::Grey(Channel::G)).same_size(grid),
        grid.mapped(ChannelMap::Grey(Channel::B)).same_size(grid),
        grid.mapped(ChannelMap::Grey(Channel::A)).same_size(grid),
        Grid::joined(
            grid.mapped(ChannelMap::Grey(Channel::R)),
            grid.mapped(ChannelMap::Grey(Channel::G)),
            grid.mapped(ChannelMap::Grey(Channel::B)),
            grid.mapped(ChannelMap::Grey(Channel::A)),
        ) == grid.map_with(|p: Texel| Texel { r: p.r, g: p.g, b: p.b, a: 255 }),
        grid.wf() ==> (Grid::joined(
            grid.mapped(ChannelMap::Grey(Channel::R)),
            grid.mapped(ChannelMap::Grey(Channel::G)),
            grid.mapped(ChannelMap::Grey(Channel::B)),
            grid.mapped(ChannelMap::Grey(Channel::A)),
        ) == grid <==> forall|x: u32, y: u32|
            grid.contains(x, y) ==> (#[trigger] grid.at(x, y)).a == 255),
{
    let packed = Grid::joined(
        grid.mapped(ChannelMap::Grey(Channel::R)),
        grid.mapped(ChannelMap::Grey(Channel::G)),
        grid.mapped(ChannelMap::Grey(Channel::B)),
        grid.mapped(ChannelMap::Grey(Channel::A)),
    );
    assert(packed =~= grid.map_with(|p: Texel| Texel { r: p.r, g: p.g, b: p.b, a: 255 }));
    if grid.wf() {
        if forall|x: u32, y: u32| grid.contains(x, y) ==> (#[trigger] grid.at(x, y)).a == 255 {
            assert forall|k: (u32, u32)| packed.pixels.dom().contains(k) implies packed.pixels[k]
                == grid.pixels[k] by {
                assert(grid.at(k.0, k.1).a == 255);
            }
            assert(packed =~= grid);
        }
        if packed == grid {
            assert forall|x: u32, y: u32| grid.contains(x, y) implies (#[trigger] grid.at(
                x,
                y,
            )).a == 255 by {
                assert(packed.pixels[(x, y)] == grid.pixels[(x, y)]);
            }
        }
    }
}

} // verus!
