//! RGBA pixels carried as opaque 32-bit sample words.
//!
//! The rectification engine never does arithmetic on sample values: it
//! only moves them (gathering source quads, writing destination rows) or
//! replaces them with the transparent zero pixel.  Each channel is
//! therefore held as a raw 32-bit word in whatever encoding the caller's
//! renderer uses; the all-zero word doubles as the transparent black
//! sample of every common encoding.

use vstd::prelude::*;

verus! {

/// One RGBA pixel: four raw 32-bit sample words.
#[derive(Clone, Copy, Debug, PartialEq, Eq, Structural)]
pub struct Rgba {
    pub r: u32,
    pub g: u32,
    pub b: u32,
    pub a: u32,
}

impl Rgba {
    /// True when every channel word is zero: the transparent black pixel.
    pub open spec fn is_zero(self) -> bool {
        self.r == 0 && self.g == 0 && self.b == 0 && self.a == 0
    }

    /// The fully transparent zero pixel written wherever a destination
    /// pixel has no valid source sample.
    pub fn transparent() -> (p: Rgba)
        ensures
            p.is_zero(),
    {
        Rgba { r: 0, g: 0, b: 0, a: 0 }
    }
}

} // verus!
