use vstd::prelude::*;

use crate::math::Point2;
use crate::math::Rgba;

verus! {

/// Tag of the end-of-stream marker in the screen demo's command format.
pub const END_ID: u32 = 0;

/// Tag of a circle command in the screen demo's command format.
pub const CIRCLE_ID: u32 = 1;

/// Tag of a ring command in the screen demo's command format.
pub const RING_ID: u32 = 2;

/// Tag of a rectangle command in the screen demo's command format.
pub const RECTANGLE_ID: u32 = 3;

/// The screen demo's command data: one flat stream of words, each command a
/// tag word followed by its fixed-arity parameter words. As everywhere in
/// this crate, parameter words carry single-precision bit patterns and tag
/// words carry exact integers.
pub struct Shapes {
    pub data: Vec<u32>,
}

impl Shapes {
    /// Appends one command: the tag word, then its parameter words.
    pub fn command(&mut self, command: u32, data: &[u32])
        ensures
            final(self).data@ == old(self).data@ + seq![command] + data@,
    {
        self.data.push(command);
        let n = data.len();
        for i in 0..n
            invariant
                n == data@.len(),
                self.data@ == old(self).data@ + seq![command] + data@.take(i as int),
        {
            self.data.push(data[i]);
            proof {
                assert(data@.take(i + 1) =~= data@.take(i as int).push(data@[i as int]));
                assert(self.data@ =~= old(self).data@ + seq![command] + data@.take(i + 1));
            }
        }
        proof {
            assert(data@.take(n as int) =~= data@);
        }
    }

    /// Appends a circle: color, center, radius and feather.
    pub fn circle(&mut self, color: Rgba, center: Point2, radius: u32, feather: u32)
        ensures
            final(self).data@ == old(self).data@ + seq![
                CIRCLE_ID,
                color.r,
                color.g,
                color.b,
                color.a,
                center.x,
                center.y,
                radius,
                feather,
            ],
    {
        let words: [u32; 8] = [
            color.r,
            color.g,
            color.b,
            color.a,
            center.x,
            center.y,
            radius,
            feather,
        ];
        self.command(CIRCLE_ID, words.as_slice());
        proof {
            assert(self.data@ =~= old(self).data@ + seq![
                CIRCLE_ID,
                color.r,
                color.g,
                color.b,
                color.a,
                center.x,
                center.y,
                radius,
                feather,
            ]);
        }
    }

    /// Appends a ring: color, center, the inner and outer radii and feather.
    pub fn ring(
        &mut self,
        color: Rgba,
        center: Point2,
        radius_inner: u32,
        radius_outer: u32,
        feather: u32,
    )
        ensures
            final(self).data@ == old(self).data@ + seq![
                RING_ID,
                color.r,
                color.g,
                color.b,
                color.a,
                center.x,
                center.y,
                radius_inner,
                radius_outer,
                feather,
            ],
    {
        let words: [u32; 9] = [
            color.r,
            color.g,
            color.b,
            color.a,
            center.x,
            center.y,
            radius_inner,
            radius_outer,
            feather,
        ];
        self.command(RING_ID, words.as_slice());
        proof {
            assert(self.data@ =~= old(self).data@ + seq![
                RING_ID,
                color.r,
                color.g,
                color.b,
                color.a,
                center.x,
                center.y,
                radius_inner,
                radius_outer,
                feather,
            ]);
        }
    }

    /// Appends a rectangle: color, center, half-size, corner radius, rotation
    /// angle and feather.
    pub fn rectangle(
        &mut self,
        color: Rgba,
        center: Point2,
        half_size: Point2,
        radius: u32,
        angle: u32,
        feather: u32,
    )
        ensures
            final(self).data@ == old(self).data@ + seq![
                RECTANGLE_ID,
                color.r,
                color.g,
                color.b,
                color.a,
                center.x,
                center.y,
                half_size.x,
                half_size.y,
                radius,
                angle,
                feather,
            ],
    {
        let words: [u32; 11] = [
            color.r,
            color.g,
            color.b,
            color.a,
            center.x,
            center.y,
            half_size.x,
            half_size.y,
            radius,
            angle,
            feather,
        ];
        self.command(RECTANGLE_ID, words.as_slice());
        proof {
            assert(self.data@ =~= old(self).data@ + seq![
                RECTANGLE_ID,
                color.r,
                color.g,
                color.b,
                color.a,
                center.x,
                center.y,
                half_size.x,
                half_size.y,
                radius,
                angle,
                feather,
            ]);
        }
    }
}

impl Default for Shapes {
    /// An empty command stream.
    fn default() -> (r: Self)
        ensures
            r.data@ == Seq::<u32>::empty(),
    {
        Shapes { data: Vec::new() }
    }
}

} // verus!
