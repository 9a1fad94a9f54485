use imgresize::orientation::{orientation_steps, rotate_image};
use imgresize::raster::{apply_op, Op, Pixel, Raster};

fn px(v: u8) -> Pixel {
    [v, v, v, 255]
}

/// A 3 × 2 raster whose pixels are all distinct:
/// row 0: 1 2 3, row 1: 4 5 6.
fn sample() -> Raster {
    Raster { width: 3, height: 2, pixels: (1..=6).map(px).collect() }
}

fn values(r: &Raster) -> Vec<u8> {
    r.pixels.iter().map(|p| p[0]).collect()
}

#[test]
fn flip_horizontal_mirrors_rows() {
    let r = apply_op(&sample(), Op::FlipHorizontal);
    assert_eq!((r.width, r.height), (3, 2));
    assert_eq!(values(&r), vec![3, 2, 1, 6, 5, 4]);
}

#[test]
fn flip_vertical_mirrors_columns() {
    let r = apply_op(&sample(), Op::FlipVertical);
    assert_eq!((r.width, r.height), (3, 2));
    assert_eq!(values(&r), vec![4, 5, 6, 1, 2, 3]);
}

#[test]
fn rotate90_turns_clockwise() {
    let r = apply_op(&sample(), Op::Rotate90);
    assert_eq!((r.width, r.height), (2, 3));
    assert_eq!(values(&r), vec![4, 1, 5, 2, 6, 3]);
}

#[test]
fn rotate180_reverses() {
    let r = apply_op(&sample(), Op::Rotate180);
    assert_eq!((r.width, r.height), (3, 2));
    assert_eq!(values(&r), vec![6, 5, 4, 3, 2, 1]);
}

#[test]
fn rotate270_turns_counterclockwise() {
    let r = apply_op(&sample(), Op::Rotate270);
    assert_eq!((r.width, r.height), (2, 3));
    assert_eq!(values(&r), vec![3, 6, 2, 5, 1, 4]);
}

#[test]
fn orientation_steps_follow_table() {
    assert_eq!(orientation_steps(1), vec![]);
    assert_eq!(orientation_steps(2), vec![Op::FlipHorizontal]);
    assert_eq!(orientation_steps(3), vec![Op::Rotate180]);
    assert_eq!(orientation_steps(4), vec![Op::FlipVertical]);
    assert_eq!(orientation_steps(5), vec![Op::FlipHorizontal, Op::Rotate270]);
    assert_eq!(orientation_steps(6), vec![Op::Rotate90]);
    assert_eq!(orientation_steps(7), vec![Op::Rotate270, Op::FlipHorizontal]);
    assert_eq!(orientation_steps(8), vec![Op::Rotate270]);
    assert_eq!(orientation_steps(0), vec![]);
    assert_eq!(orientation_steps(9), vec![]);
}

#[test]
fn identity_tags_leave_pixels() {
    for tag in [0u32, 1, 9, 1000] {
        let r = rotate_image(sample(), tag);
        assert_eq!((r.width, r.height), (3, 2));
        assert_eq!(values(&r), values(&sample()));
    }
}

#[test]
fn tag_five_is_flip_then_rotate270() {
    let r = rotate_image(sample(), 5);
    let expected = apply_op(&apply_op(&sample(), Op::FlipHorizontal), Op::Rotate270);
    let swapped = apply_op(&apply_op(&sample(), Op::Rotate270), Op::FlipHorizontal);
    assert_eq!(values(&r), values(&expected));
    assert_eq!(values(&r), vec![1, 4, 2, 5, 3, 6]);
    assert_ne!(values(&r), values(&swapped));
}

#[test]
fn tag_seven_is_rotate270_then_flip() {
    let r = rotate_image(sample(), 7);
    let expected = apply_op(&apply_op(&sample(), Op::Rotate270), Op::FlipHorizontal);
    let swapped = apply_op(&apply_op(&sample(), Op::FlipHorizontal), Op::Rotate270);
    assert_eq!(values(&r), values(&expected));
    assert_eq!(values(&r), vec![6, 3, 5, 2, 4, 1]);
    assert_ne!(values(&r), values(&swapped));
}

#[test]
fn tag_six_swaps_dimensions() {
    let r = rotate_image(sample(), 6);
    assert_eq!((r.width, r.height), (2, 3));
    assert_eq!(values(&r), vec![4, 1, 5, 2, 6, 3]);
}
