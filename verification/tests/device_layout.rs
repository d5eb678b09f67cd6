use wgpu_vectors::gpu::Draw;
use wgpu_vectors::gpu::Globals;
use wgpu_vectors::gpu::draw_table_bytes;
use wgpu_vectors::gpu::globals_bytes;
use wgpu_vectors::gpu::op_code_bytes;
use wgpu_vectors::renderer::globals_for;
use wgpu_vectors::renderer::tiles_across;
use wgpu_vectors::vec_buffer::grow_plan;

#[test]
fn op_code_words_are_laid_out_least_significant_byte_first() {
    let bytes = op_code_bytes(&vec![0x0102_0304]);
    assert_eq!(bytes, vec![0x04, 0x03, 0x02, 0x01]);

    let bytes = op_code_bytes(&vec![1.0f32.to_bits(), 0]);
    assert_eq!(bytes, vec![0x00, 0x00, 0x80, 0x3f, 0x00, 0x00, 0x00, 0x00]);
}

#[test]
fn empty_arrays_serialize_to_no_bytes() {
    assert_eq!(op_code_bytes(&Vec::new()).len(), 0);
    assert_eq!(draw_table_bytes(&Vec::new()).len(), 0);
}

#[test]
fn draw_records_occupy_twenty_bytes_each_in_order() {
    let first = Draw { left: 1, top: 2, right: 3, bottom: 4, op_code_index: 5 };
    let second = Draw {
        left: 0x0102_0304,
        top: 6,
        right: 7,
        bottom: 8,
        op_code_index: 9,
    };
    let bytes = draw_table_bytes(&vec![first, second]);
    assert_eq!(bytes.len(), 40);
    assert_eq!(
        &bytes[..20],
        &[1, 0, 0, 0, 2, 0, 0, 0, 3, 0, 0, 0, 4, 0, 0, 0, 5, 0, 0, 0]
    );
    assert_eq!(
        &bytes[20..],
        &[4, 3, 2, 1, 6, 0, 0, 0, 7, 0, 0, 0, 8, 0, 0, 0, 9, 0, 0, 0]
    );
}

#[test]
fn globals_record_serializes_to_eight_bytes() {
    let g = Globals { view_width: 800.0f32.to_bits(), view_height: 600.0f32.to_bits() };
    let mut expected = 800.0f32.to_bits().to_le_bytes().to_vec();
    expected.extend(600.0f32.to_bits().to_le_bytes());
    assert_eq!(globals_bytes(&g), expected);
}

#[test]
fn globals_for_converts_the_surface_size_numerically() {
    let g = globals_for(800, 600);
    assert_eq!(g.view_width, 800.0f32.to_bits());
    assert_eq!(g.view_height, 600.0f32.to_bits());
    // Unlike the stream's tag words, the globals are converted by value, not
    // reinterpreted: the pattern differs from the integer.
    assert_ne!(g.view_width, 800);
}

#[test]
fn writes_within_capacity_never_reallocate() {
    assert_eq!(grow_plan(100, 0), (false, 100));
    assert_eq!(grow_plan(100, 50), (false, 100));
    assert_eq!(grow_plan(100, 100), (false, 100));
}

#[test]
fn writes_beyond_capacity_reallocate_to_the_required_size() {
    assert_eq!(grow_plan(100, 101), (true, 101));
    assert_eq!(grow_plan(0, 1), (true, 1));
    assert_eq!(grow_plan(0, 0), (false, 0));
}

#[test]
fn a_repeated_write_fits_the_capacity_the_first_one_left() {
    let (grew, capacity) = grow_plan(80, 100);
    assert!(grew);
    let (grew_again, capacity_again) = grow_plan(capacity, 100);
    assert!(!grew_again);
    assert_eq!(capacity_again, capacity);
}

#[test]
fn the_tile_grid_rounds_up() {
    assert_eq!(tiles_across(0), 0);
    assert_eq!(tiles_across(1), 1);
    assert_eq!(tiles_across(16), 1);
    assert_eq!(tiles_across(17), 2);
    assert_eq!(tiles_across(100), 7);
    assert_eq!(tiles_across(256), 16);
}
