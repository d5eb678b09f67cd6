use wgpu_vectors::commands::IsBoundingBox;
use wgpu_vectors::commands::ShapeEncoder;
use wgpu_vectors::fill::Fill;
use wgpu_vectors::math::Point2;
use wgpu_vectors::math::Rgba;
use wgpu_vectors::shapes::Ellipse;
use wgpu_vectors::shapes::Rectangle;
use wgpu_vectors::stroke::Stroke;

fn bits(x: f32) -> u32 {
    x.to_bits()
}

fn p(x: f32, y: f32) -> Point2 {
    Point2 { x: x.to_bits(), y: y.to_bits() }
}

fn rgba(r: f32, g: f32, b: f32, a: f32) -> Rgba {
    Rgba { r: r.to_bits(), g: g.to_bits(), b: b.to_bits(), a: a.to_bits() }
}

#[test]
fn rectangle_encodes_five_words() {
    let rect = Rectangle::new(p(100.0, 200.0), p(10.0, 20.0));
    let mut out: Vec<u32> = Vec::new();
    rect.encode(&mut out);
    assert_eq!(
        out,
        vec![bits(100.0), bits(200.0), bits(10.0), bits(20.0), 0]
    );
}

#[test]
fn rectangle_corner_radius_is_encoded() {
    let rect = Rectangle::new(p(1.0, 2.0), p(3.0, 4.0)).with_corner_radius(bits(5.0));
    let mut out: Vec<u32> = Vec::new();
    rect.encode(&mut out);
    assert_eq!(out, vec![bits(1.0), bits(2.0), bits(3.0), bits(4.0), bits(5.0)]);
}

#[test]
fn rectangle_bounding_box_is_center_plus_minus_extent() {
    let rect = Rectangle::new(p(100.0, 200.0), p(10.0, 20.0));
    let bb = rect.bounding_box();
    assert_eq!(bb.min, p(90.0, 180.0));
    assert_eq!(bb.max, p(110.0, 220.0));
}

#[test]
fn ellipse_encodes_four_words() {
    let ellipse = Ellipse::new(p(3.0, 4.0), p(1.0, 2.0));
    let mut out: Vec<u32> = Vec::new();
    ellipse.encode(&mut out);
    assert_eq!(out, vec![bits(3.0), bits(4.0), bits(1.0), bits(2.0)]);
}

#[test]
fn ellipse_bounding_box_is_center_plus_minus_radii() {
    let ellipse = Ellipse::new(p(3.0, 4.0), p(1.0, 2.0));
    let bb = ellipse.bounding_box();
    assert_eq!(bb.min, p(2.0, 2.0));
    assert_eq!(bb.max, p(4.0, 6.0));
}

#[test]
fn shape_kind_ids_are_distinct() {
    assert_eq!(Rectangle::id(), 1);
    assert_eq!(Ellipse::id(), 2);
}

#[test]
fn fill_defaults_to_unit_feather() {
    let fill = Fill::new(rgba(0.1, 0.2, 0.3, 0.4));
    assert_eq!(fill.feather, bits(1.0));
    let fill = Fill::solid(bits(0.1), bits(0.2), bits(0.3), bits(0.4));
    assert_eq!(fill.color.r, bits(0.1));
    assert_eq!(fill.color.a, bits(0.4));
    assert_eq!(fill.feather, bits(1.0));
}

#[test]
fn fill_with_feather_replaces_only_the_feather() {
    let fill = Fill::solid(bits(0.1), bits(0.2), bits(0.3), bits(0.4)).with_feather(bits(2.5));
    assert_eq!(fill.color, rgba(0.1, 0.2, 0.3, 0.4));
    assert_eq!(fill.feather, bits(2.5));
}

#[test]
fn fill_encodes_five_words() {
    let fill = Fill::solid(bits(0.1), bits(0.2), bits(0.3), bits(0.4));
    let mut out: Vec<u32> = Vec::new();
    fill.encode(&mut out);
    assert_eq!(
        out,
        vec![bits(0.1), bits(0.2), bits(0.3), bits(0.4), bits(1.0)]
    );
}

#[test]
fn stroke_encodes_six_words_with_unit_feather() {
    let stroke = Stroke::new(rgba(0.5, 0.6, 0.7, 0.8), bits(3.0));
    let mut out: Vec<u32> = Vec::new();
    stroke.encode(&mut out);
    assert_eq!(
        out,
        vec![bits(0.5), bits(0.6), bits(0.7), bits(0.8), bits(3.0), bits(1.0)]
    );
}

#[test]
fn stroke_none_encodes_to_six_zero_words() {
    let mut out: Vec<u32> = Vec::new();
    Stroke::none().encode(&mut out);
    assert_eq!(out, vec![0u32, 0, 0, 0, 0, 0]);
}
