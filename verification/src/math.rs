use vstd::prelude::*;

verus! {

/// A two-component vector (a point or a half-extent). Each component holds the
/// 32-bit pattern of an IEEE 754 single-precision value; the host moves these
/// patterns around without ever converting them numerically.
#[derive(Clone, Copy, PartialEq, Eq, Structural, Debug)]
pub struct Point2 {
    pub x: u32,
    pub y: u32,
}

/// An RGBA color; each channel holds the bit pattern of a single-precision
/// value in the unit range.
#[derive(Clone, Copy, PartialEq, Eq, Structural, Debug)]
pub struct Rgba {
    pub r: u32,
    pub g: u32,
    pub b: u32,
    pub a: u32,
}

/// The bit pattern of single-precision one, the default anti-alias ramp width.
pub const ONE_BITS: u32 = 0x3F80_0000;

/// An axis-aligned bounding box, tight around a shape's geometric support.
#[derive(Clone, Copy, PartialEq, Eq, Structural, Debug)]
pub struct BoundingBox {
    pub min: Point2,
    pub max: Point2,
}

impl BoundingBox {
    pub fn new(min: Point2, max: Point2) -> (r: Self)
        ensures
            r.min == min,
            r.max == max,
    {
        Self { min, max }
    }
}

// The single-precision sum and difference of two values given by their bit
// patterns. Both are total functions determined, on a given platform, by the
// two operands alone; for operands that produce a NaN the result's pattern
// differs between instruction sets, though it is fixed within any one
// process. Nothing more is assumed of them here.
pub uninterp spec fn add_bits(a: u32, b: u32) -> u32;

pub uninterp spec fn sub_bits(a: u32, b: u32) -> u32;

/// Relies on `glam::Vec2`'s component-wise `-` operator: the single-precision
/// difference of two vectors, moved in and out as bit patterns through
/// `bytemuck::cast` (a bit-exact transmute between plain-data types).
#[verifier::external_body]
pub(crate) fn vec2_sub_bits(a: Point2, b: Point2) -> (r: Point2)
    ensures
        r.x == sub_bits(a.x, b.x),
        r.y == sub_bits(a.y, b.y),
{
    let av = glam::Vec2::from_array(bytemuck::cast([a.x, a.y]));
    let bv = glam::Vec2::from_array(bytemuck::cast([b.x, b.y]));
    let d: [u32; 2] = bytemuck::cast((av - bv).to_array());
    Point2 { x: d[0], y: d[1] }
}

/// Relies on `glam::Vec2`'s component-wise `+` operator: the single-precision
/// sum of two vectors, moved in and out as bit patterns through
/// `bytemuck::cast`.
#[verifier::external_body]
pub(crate) fn vec2_add_bits(a: Point2, b: Point2) -> (r: Point2)
    ensures
        r.x == add_bits(a.x, b.x),
        r.y == add_bits(a.y, b.y),
{
    let av = glam::Vec2::from_array(bytemuck::cast([a.x, a.y]));
    let bv = glam::Vec2::from_array(bytemuck::cast([b.x, b.y]));
    let s: [u32; 2] = bytemuck::cast((av + bv).to_array());
    Point2 { x: s[0], y: s[1] }
}

// The single-precision value nearest to an unsigned integer, as a bit
// pattern: a total deterministic function of the integer alone.
pub uninterp spec fn float_bits_of_uint(x: u32) -> u32;

/// Relies on `glam::UVec2::as_vec2`: numeric conversion of each component to
/// the nearest single-precision value, returned as bit patterns through
/// `bytemuck::cast`.
#[verifier::external_body]
pub(crate) fn uvec2_to_bits(x: u32, y: u32) -> (r: Point2)
    ensures
        r.x == float_bits_of_uint(x),
        r.y == float_bits_of_uint(y),
{
    let v: [u32; 2] = bytemuck::cast(glam::UVec2::new(x, y).as_vec2().to_array());
    Point2 { x: v[0], y: v[1] }
}

} // verus!
