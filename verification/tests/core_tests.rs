use kiss3d::masks::combinatorial_masks;
use kiss3d::mesh::quad_triangles;
use kiss3d::pixels::{padded_bytes_per_row, remove_row_padding, vflip, COPY_BYTES_PER_ROW_ALIGNMENT};
use kiss3d::NumSamples;

#[test]
fn num_samples_from_u32() {
    assert_eq!(NumSamples::from_u32(1), Some(NumSamples::One));
    assert_eq!(NumSamples::from_u32(4), Some(NumSamples::Four));
    assert_eq!(NumSamples::from_u32(0), None);
    assert_eq!(NumSamples::from_u32(2), None);
    assert_eq!(NumSamples::from_u32(8), None);
    assert_eq!(NumSamples::Four.count(), 4);
    assert_eq!(NumSamples::One.count(), 1);
}

#[test]
fn combinatorial_masks_three_bits() {
    // all-off, all-on, each single bit on and off, each pair of bits.
    let masks = combinatorial_masks(3);
    assert_eq!(masks, vec![0b000, 0b001, 0b010, 0b011, 0b100, 0b101, 0b110, 0b111]);
}

#[test]
fn combinatorial_masks_five_bits() {
    let masks = combinatorial_masks(5);
    let expected: Vec<u32> = vec![
        0, 1, 2, 3, 4, 5, 6, 8, 9, 10, 12, 15, 16, 17, 18, 20, 23, 24, 27, 29, 30, 31,
    ];
    assert_eq!(masks, expected);
    // three features on and two off is not covered.
    assert!(!masks.contains(&0b00111));
}

#[test]
fn combinatorial_masks_zero_bits() {
    assert_eq!(combinatorial_masks(0), vec![0]);
}

#[test]
fn quad_triangles_one_cell() {
    // grid of 2 x 2 vertices: 0 1 / 2 3.
    let t = quad_triangles(1, 1);
    assert_eq!(t.len(), 2);
    assert_eq!(t[0], (2, 0, 3));
    assert_eq!(t[1], (0, 1, 3));
}

#[test]
fn quad_triangles_two_by_one() {
    let t = quad_triangles(2, 1);
    assert_eq!(t.len(), 4);
    // vertices 0 1 2 / 3 4 5
    assert_eq!(t[0], (3, 0, 4));
    assert_eq!(t[1], (0, 1, 4));
    assert_eq!(t[2], (4, 1, 5));
    assert_eq!(t[3], (1, 2, 5));
}

#[test]
fn vflip_swaps_rows() {
    let mut v = vec![1u8, 2, 3, 4, 5, 6, 9];
    vflip(&mut v, 2, 3);
    assert_eq!(v, vec![5, 6, 3, 4, 1, 2, 9]);
}

#[test]
fn vflip_twice_is_identity() {
    let orig: Vec<u8> = (0..24).collect();
    let mut v = orig.clone();
    vflip(&mut v, 6, 4);
    assert_ne!(v, orig);
    vflip(&mut v, 6, 4);
    assert_eq!(v, orig);
}

#[test]
fn padded_rows() {
    assert_eq!(COPY_BYTES_PER_ROW_ALIGNMENT, 256);
    assert_eq!(padded_bytes_per_row(0), 0);
    assert_eq!(padded_bytes_per_row(1), 256);
    assert_eq!(padded_bytes_per_row(256), 256);
    assert_eq!(padded_bytes_per_row(257), 512);
    assert_eq!(padded_bytes_per_row(4 * 100), 512);
}

#[test]
fn remove_padding_keeps_pixels() {
    let mapped = vec![1u8, 2, 0, 0, 3, 4, 0, 0];
    assert_eq!(remove_row_padding(&mapped, 2, 4, 2), vec![1, 2, 3, 4]);
}
