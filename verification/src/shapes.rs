use vstd::prelude::*;

use crate::commands::IsBoundingBox;
use crate::commands::ShapeEncoder;
use crate::math::BoundingBox;
use crate::math::Point2;
use crate::math::add_bits;
use crate::math::sub_bits;
use crate::math::vec2_add_bits;
use crate::math::vec2_sub_bits;

verus! {

/// An axis-aligned rectangle with rounded corners, given by its center, its
/// half-extent and a corner radius. It encodes to five parameter words.
pub struct Rectangle {
    center: Point2,
    extent: Point2,
    corner_radius: u32,
}

impl Rectangle {
    pub closed spec fn spec_center(self) -> Point2 {
        self.center
    }

    pub closed spec fn spec_extent(self) -> Point2 {
        self.extent
    }

    pub closed spec fn spec_corner_radius(self) -> u32 {
        self.corner_radius
    }

    /// A sharp-cornered rectangle: the corner radius is zero.
    pub fn new(center: Point2, extent: Point2) -> (r: Self)
        ensures
            r.spec_center() == center,
            r.spec_extent() == extent,
            r.spec_corner_radius() == 0,
    {
        Self { center, extent, corner_radius: 0 }
    }

    /// The same rectangle with another corner radius.
    pub fn with_corner_radius(self, corner_radius: u32) -> (r: Self)
        ensures
            r.spec_center() == self.spec_center(),
            r.spec_extent() == self.spec_extent(),
            r.spec_corner_radius() == corner_radius,
    {
        Self { corner_radius, ..self }
    }
}

impl ShapeEncoder for Rectangle {
    /// The stable identifier of the rectangle kind.
    open spec fn spec_id() -> u32 {
        1
    }

    open spec fn encoded(&self) -> Seq<u32> {
        seq![
            self.spec_center().x,
            self.spec_center().y,
            self.spec_extent().x,
            self.spec_extent().y,
            self.spec_corner_radius(),
        ]
    }

    /// A rectangle's center, half-extent and corner radius.
    open spec fn spec_word_count() -> nat {
        5
    }

    proof fn lemma_fixed_arity(&self) {
    }

    fn id() -> u32 {
        1
    }

    fn encode(&self, out: &mut Vec<u32>) {
        out.push(self.center.x);
        out.push(self.center.y);
        out.push(self.extent.x);
        out.push(self.extent.y);
        out.push(self.corner_radius);
        proof {
            assert(out@ =~= old(out)@ + self.encoded());
        }
    }
}

impl IsBoundingBox for Rectangle {
    /// The tight bound of a rectangle: center minus extent up to center plus
    /// extent, in single-precision arithmetic on the carried bit patterns.
    open spec fn spec_bounding_box(&self) -> BoundingBox {
        BoundingBox {
            min: Point2 {
                x: sub_bits(self.spec_center().x, self.spec_extent().x),
                y: sub_bits(self.spec_center().y, self.spec_extent().y),
            },
            max: Point2 {
                x: add_bits(self.spec_center().x, self.spec_extent().x),
                y: add_bits(self.spec_center().y, self.spec_extent().y),
            },
        }
    }

    fn bounding_box(&self) -> BoundingBox {
        let min = vec2_sub_bits(self.center, self.extent);
        let max = vec2_add_bits(self.center, self.extent);
        BoundingBox { min, max }
    }
}

/// An axis-aligned ellipse given by its center and its two radii. It encodes
/// to four parameter words.
pub struct Ellipse {
    center: Point2,
    radius: Point2,
}

impl Ellipse {
    pub closed spec fn spec_center(self) -> Point2 {
        self.center
    }

    pub closed spec fn spec_radius(self) -> Point2 {
        self.radius
    }

    pub fn new(center: Point2, radius: Point2) -> (e: Self)
        ensures
            e.spec_center() == center,
            e.spec_radius() == radius,
    {
        Self { center, radius }
    }
}

impl ShapeEncoder for Ellipse {
    /// The stable identifier of the ellipse kind.
    open spec fn spec_id() -> u32 {
        2
    }

    open spec fn encoded(&self) -> Seq<u32> {
        seq![
            self.spec_center().x,
            self.spec_center().y,
            self.spec_radius().x,
            self.spec_radius().y,
        ]
    }

    /// An ellipse's center and radii.
    open spec fn spec_word_count() -> nat {
        4
    }

    proof fn lemma_fixed_arity(&self) {
    }

    fn id() -> u32 {
        2
    }

    fn encode(&self, out: &mut Vec<u32>) {
        out.push(self.center.x);
        out.push(self.center.y);
        out.push(self.radius.x);
        out.push(self.radius.y);
        proof {
            assert(out@ =~= old(out)@ + self.encoded());
        }
    }
}

impl IsBoundingBox for Ellipse {
    /// The tight bound of an ellipse: center minus radii up to center plus
    /// radii, in single-precision arithmetic on the carried bit patterns.
    open spec fn spec_bounding_box(&self) -> BoundingBox {
        BoundingBox {
            min: Point2 {
                x: sub_bits(self.spec_center().x, self.spec_radius().x),
                y: sub_bits(self.spec_center().y, self.spec_radius().y),
            },
            max: Point2 {
                x: add_bits(self.spec_center().x, self.spec_radius().x),
                y: add_bits(self.spec_center().y, self.spec_radius().y),
            },
        }
    }

    fn bounding_box(&self) -> BoundingBox {
        let min = vec2_sub_bits(self.center, self.radius);
        let max = vec2_add_bits(self.center, self.radius);
        BoundingBox { min, max }
    }
}

} // verus!
