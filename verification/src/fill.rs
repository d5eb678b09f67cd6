use vstd::prelude::*;

use crate::math::Rgba;
use crate::math::ONE_BITS;

verus! {

/// A fill style: a color and a feather, the anti-aliasing falloff width at the
/// fill's edge, in the same units as the geometry. A color whose alpha channel
/// is zero signals "no fill" without a separate flag.
pub struct Fill {
    pub color: Rgba,
    pub feather: u32,
}

impl Fill {
    /// The five words this fill contributes to the op-code stream.
    pub open spec fn encoded(self) -> Seq<u32> {
        seq![self.color.r, self.color.g, self.color.b, self.color.a, self.feather]
    }

    /// A fill of the given color with the default feather of one unit, the
    /// minimal anti-alias ramp.
    pub fn new(color: Rgba) -> (f: Self)
        ensures
            f.color == color,
            f.feather == ONE_BITS,
    {
        Self { color, feather: ONE_BITS }
    }

    /// A fill of the given channels with the default feather of one unit.
    #[inline]
    pub fn solid(r: u32, g: u32, b: u32, alpha: u32) -> (f: Self)
        ensures
            f.color == (Rgba { r, g, b, a: alpha }),
            f.feather == ONE_BITS,
    {
        Self::new(Rgba { r, g, b, a: alpha })
    }

    /// The same fill with another feather.
    pub fn with_feather(self, feather: u32) -> (f: Self)
        ensures
            f.color == self.color,
            f.feather == feather,
    {
        Self { feather, ..self }
    }

    /// Appends the fill's five words to the op-code stream.
    pub fn encode(&self, out: &mut Vec<u32>)
        ensures
            final(out)@ == old(out)@ + self.encoded(),
    {
        out.push(self.color.r);
        out.push(self.color.g);
        out.push(self.color.b);
        out.push(self.color.a);
        out.push(self.feather);
        proof {
            assert(out@ =~= old(out)@ + self.encoded());
        }
    }
}

} // verus!
