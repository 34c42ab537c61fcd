//! Pixel values, their channels, and the per-pixel channel maps.

use vstd::prelude::*;

verus! {

/// One of the four 8-bit components of a pixel.
#[derive(Clone, Copy, Debug, PartialEq, Eq, Structural)]
pub enum Channel {
    R,
    G,
    B,
    A,
}

/// The value of one RGBA pixel, 8 bits per channel.
#[derive(Clone, Copy, Debug, PartialEq, Eq, Structural)]
pub struct Texel {
    pub r: u8,
    pub g: u8,
    pub b: u8,
    pub a: u8,
}

/// A rule that computes an output pixel from the input pixel at the same place.
#[derive(Clone, Copy, Debug, PartialEq, Eq, Structural)]
pub enum ChannelMap {
    /// One channel promoted to an opaque grey: `(s, s, s, 255)` for channel value `s`.
    Grey(Channel),
    /// The normal-map layout `(A, G, R, R)`.
    FixNormal,
}

impl Channel {
    /// The channel at position `index` of the order R, G, B, A, for `index`
    /// from 0 to 3.
    pub open spec fn at(index: int) -> Channel {
        if index == 0 {
            Channel::R
        } else if index == 1 {
            Channel::G
        } else if index == 2 {
            Channel::B
        } else {
            Channel::A
        }
    }

    /// The channel at `index` in the order R, G, B, A; `None` from 4 on.
    pub fn from_index(index: usize) -> (channel: Option<Channel>)
        ensures
            channel == if index < 4 {
                Some(Channel::at(index as int))
            } else {
                None
            },
    {
        if index == 0 {
            Some(Channel::R)
        } else if index == 1 {
            Some(Channel::G)
        } else if index == 2 {
            Some(Channel::B)
        } else if index == 3 {
            Some(Channel::A)
        } else {
            None
        }
    }
}

impl Texel {
    /// The value this pixel holds in `channel`.
    pub open spec fn channel(self, channel: Channel) -> u8 {
        match channel {
            Channel::R => self.r,
            Channel::G => self.g,
            Channel::B => self.b,
            Channel::A => self.a,
        }
    }

    /// Reads one channel of the pixel.
    pub fn get(&self, channel: Channel) -> (value: u8)
        ensures
            value == self.channel(channel),
    {
        match channel {
            Channel::R => self.r,
            Channel::G => self.g,
            Channel::B => self.b,
            Channel::A => self.a,
        }
    }
}

impl ChannelMap {
    /// The output pixel this rule gives for the input pixel `p`.
    pub open spec fn map(self, p: Texel) -> Texel {
        match self {
            ChannelMap::Grey(c) => Texel {
                r: p.channel(c),
                g: p.channel(c),
                b: p.channel(c),
                a: 255,
            },
            ChannelMap::FixNormal => Texel { r: p.a, g: p.g, b: p.r, a: p.r },
        }
    }

    /// Computes the output pixel for the input pixel `p`.
    pub fn apply(&self, p: Texel) -> (q: Texel)
        ensures
            q == self.map(p),
    {
        match self {
            ChannelMap::Grey(c) => {
                let s = p.get(*c);
                Texel { r: s, g: s, b: s, a: 255 }
            },
            ChannelMap::FixNormal => Texel { r: p.a, g: p.g, b: p.r, a: p.r },
        }
    }
}

} // verus!
