use wgpu_vectors::math::Point2;
use wgpu_vectors::math::Rgba;
use wgpu_vectors::screen::CIRCLE_ID;
use wgpu_vectors::screen::RECTANGLE_ID;
use wgpu_vectors::screen::RING_ID;
use wgpu_vectors::screen::Shapes;

fn bits(x: f32) -> u32 {
    x.to_bits()
}

fn p(x: f32, y: f32) -> Point2 {
    Point2 { x: x.to_bits(), y: y.to_bits() }
}

fn rgba(r: f32, g: f32, b: f32, a: f32) -> Rgba {
    Rgba { r: r.to_bits(), g: g.to_bits(), b: b.to_bits(), a: a.to_bits() }
}

#[test]
fn a_bare_command_is_one_tag_word() {
    let mut shapes = Shapes::default();
    shapes.command(7, &[]);
    assert_eq!(shapes.data, vec![7]);
}

#[test]
fn a_circle_is_a_tag_and_eight_words() {
    let mut shapes = Shapes::default();
    shapes.circle(rgba(1.0, 0.0, 0.0, 1.0), p(4.0, 5.0), bits(10.0), bits(2.0));
    assert_eq!(
        shapes.data,
        vec![
            CIRCLE_ID,
            bits(1.0),
            bits(0.0),
            bits(0.0),
            bits(1.0),
            bits(4.0),
            bits(5.0),
            bits(10.0),
            bits(2.0),
        ]
    );
}

#[test]
fn a_ring_is_a_tag_and_nine_words() {
    let mut shapes = Shapes::default();
    shapes.ring(rgba(0.0, 0.0, 0.0, 1.0), p(405.0, 305.0), bits(10.0), bits(20.0), bits(30.0));
    assert_eq!(
        shapes.data,
        vec![
            RING_ID,
            bits(0.0),
            bits(0.0),
            bits(0.0),
            bits(1.0),
            bits(405.0),
            bits(305.0),
            bits(10.0),
            bits(20.0),
            bits(30.0),
        ]
    );
}

#[test]
fn a_rectangle_is_a_tag_and_eleven_words() {
    let mut shapes = Shapes::default();
    shapes.rectangle(
        rgba(0.5, 0.0, 0.0, 1.0),
        p(400.0, 300.0),
        p(100.0, 10.0),
        bits(10.0),
        bits(0.0),
        bits(0.0),
    );
    assert_eq!(
        shapes.data,
        vec![
            RECTANGLE_ID,
            bits(0.5),
            bits(0.0),
            bits(0.0),
            bits(1.0),
            bits(400.0),
            bits(300.0),
            bits(100.0),
            bits(10.0),
            bits(10.0),
            bits(0.0),
            bits(0.0),
        ]
    );
}

#[test]
fn successive_commands_concatenate_in_submission_order() {
    let mut shapes = Shapes::default();
    shapes.rectangle(
        rgba(0.5, 0.0, 0.0, 1.0),
        p(400.0, 300.0),
        p(100.0, 10.0),
        bits(10.0),
        bits(0.0),
        bits(0.0),
    );
    shapes.ring(rgba(0.0, 0.0, 0.0, 1.0), p(405.0, 305.0), bits(10.0), bits(20.0), bits(30.0));
    shapes.ring(rgba(1.0, 0.0, 0.0, 1.0), p(400.0, 300.0), bits(10.0), bits(20.0), bits(1.0));

    assert_eq!(shapes.data.len(), 12 + 10 + 10);
    assert_eq!(shapes.data[0], RECTANGLE_ID);
    assert_eq!(shapes.data[12], RING_ID);
    assert_eq!(shapes.data[22], RING_ID);
}
