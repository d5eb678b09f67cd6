use vstd::prelude::*;

use crate::math::Rgba;
use crate::math::ONE_BITS;

verus! {

/// A stroke style: a color, an outline thickness and a feather. A thickness of
/// zero (the canonical [`Stroke::none`]) means no stroke; the record still
/// occupies its six stream words, so the device's decoder needs no
/// shape-dependent branching.
pub struct Stroke {
    color: Rgba,
    thickness: u32,
    feather: u32,
}

impl Stroke {
    /// The six words this stroke contributes to the op-code stream.
    pub closed spec fn encoded(self) -> Seq<u32> {
        seq![
            self.color.r,
            self.color.g,
            self.color.b,
            self.color.a,
            self.thickness,
            self.feather,
        ]
    }

    /// A stroke of the given color and thickness with the default feather of
    /// one unit.
    pub fn new(color: Rgba, thickness: u32) -> (s: Self)
        ensures
            s.encoded() == seq![color.r, color.g, color.b, color.a, thickness, ONE_BITS],
    {
        let s = Self { color, thickness, feather: ONE_BITS };
        proof {
            assert(s.encoded() =~= seq![color.r, color.g, color.b, color.a, thickness, ONE_BITS]);
        }
        s
    }

    /// A stroke of the given channels and thickness with the default feather.
    #[inline]
    pub fn solid(r: u32, g: u32, b: u32, alpha: u32, thickness: u32) -> (s: Self)
        ensures
            s.encoded() == seq![r, g, b, alpha, thickness, ONE_BITS],
    {
        Self::new(Rgba { r, g, b, a: alpha }, thickness)
    }

    /// The canonical absent stroke: zero color, zero thickness, zero feather.
    /// It always encodes to six zero words.
    #[inline]
    pub fn none() -> (s: Self)
        ensures
            s.encoded() == seq![0u32, 0u32, 0u32, 0u32, 0u32, 0u32],
    {
        let s = Self { color: Rgba { r: 0, g: 0, b: 0, a: 0 }, thickness: 0, feather: 0 };
        proof {
            assert(s.encoded() =~= seq![0u32, 0u32, 0u32, 0u32, 0u32, 0u32]);
        }
        s
    }

    /// Every stroke encodes to exactly six words, the absent stroke too: the
    /// record is fixed-arity, so the device's decoder needs no branching.
    pub proof fn lemma_fixed_arity(self)
        ensures
            self.encoded().len() == 6,
    {
    }

    /// Appends the stroke's six words to the op-code stream.
    pub fn encode(&self, out: &mut Vec<u32>)
        ensures
            final(out)@ == old(out)@ + self.encoded(),
    {
        out.push(self.color.r);
        out.push(self.color.g);
        out.push(self.color.b);
        out.push(self.color.a);
        out.push(self.thickness);
        out.push(self.feather);
        proof {
            assert(out@ =~= old(out)@ + self.encoded());
        }
    }
}

} // verus!
