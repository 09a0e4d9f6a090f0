use pixel_diff::diff::generate_diff_image;
use pixel_diff::diff::DiffError;
use pixel_diff::pixel::PixelBuffer;

fn buffer(width: u32, height: u32, data: Vec<u8>) -> PixelBuffer {
    PixelBuffer::new(width, height, data).expect("buffer length must match dimensions")
}

#[test]
fn one_pixel_equal() {
    let a = buffer(1, 1, vec![10, 20, 30, 255]);
    let b = buffer(1, 1, vec![10, 20, 30, 255]);
    let (w, h, diff) = generate_diff_image(&a, &b).unwrap();
    assert_eq!(w, 1);
    assert_eq!(h, 1);
    assert_eq!(diff, vec![255, 0, 0, 0]);
}

#[test]
fn one_pixel_alpha_differs() {
    let a = buffer(1, 1, vec![10, 20, 30, 255]);
    let b = buffer(1, 1, vec![10, 20, 30, 0]);
    let (w, h, diff) = generate_diff_image(&a, &b).unwrap();
    assert_eq!(w, 1);
    assert_eq!(h, 1);
    assert_eq!(diff, vec![255, 0, 0, 255]);
}

#[test]
fn second_pixel_differs() {
    let a = buffer(2, 1, vec![10, 20, 30, 255, 1, 2, 3, 4]);
    let b = buffer(2, 1, vec![10, 20, 30, 255, 1, 2, 9, 4]);
    let (w, h, diff) = generate_diff_image(&a, &b).unwrap();
    assert_eq!(w, 2);
    assert_eq!(h, 1);
    assert_eq!(diff, vec![255, 0, 0, 0, 255, 0, 0, 255]);
}

#[test]
fn width_mismatch_rejected() {
    let a = buffer(2, 1, vec![0; 8]);
    let b = buffer(1, 1, vec![0; 4]);
    assert_eq!(generate_diff_image(&a, &b), Err(DiffError::DimensionMismatch));
}

#[test]
fn height_mismatch_rejected() {
    let a = buffer(1, 2, vec![0; 8]);
    let b = buffer(1, 1, vec![0; 4]);
    assert_eq!(generate_diff_image(&a, &b), Err(DiffError::DimensionMismatch));
}

#[test]
fn output_length_is_four_per_pixel() {
    let a = buffer(3, 2, vec![7; 24]);
    let b = buffer(3, 2, vec![9; 24]);
    let (w, h, diff) = generate_diff_image(&a, &b).unwrap();
    assert_eq!(diff.len(), 4 * (w as usize) * (h as usize));
    assert_eq!(diff.len(), 24);
}

#[test]
fn deterministic_on_same_inputs() {
    let a = buffer(2, 2, vec![1, 2, 3, 4, 5, 6, 7, 8, 9, 10, 11, 12, 13, 14, 15, 16]);
    let b = buffer(2, 2, vec![1, 2, 3, 4, 5, 6, 7, 8, 9, 99, 11, 12, 13, 14, 15, 16]);
    let first = generate_diff_image(&a, &b).unwrap();
    let second = generate_diff_image(&a, &b).unwrap();
    assert_eq!(first, second);
}

#[test]
fn symmetric_detection() {
    let a = buffer(2, 1, vec![1, 2, 3, 4, 5, 6, 7, 8]);
    let b = buffer(2, 1, vec![1, 2, 3, 4, 5, 6, 7, 9]);
    let (_, _, ab) = generate_diff_image(&a, &b).unwrap();
    let (_, _, ba) = generate_diff_image(&b, &a).unwrap();
    assert_eq!(ab, ba);
    assert_eq!(ab, vec![255, 0, 0, 0, 255, 0, 0, 255]);
}

#[test]
fn identity_marks_nothing() {
    let a = buffer(2, 2, vec![9, 8, 7, 6, 5, 4, 3, 2, 1, 0, 255, 254, 253, 252, 251, 250]);
    let (w, h, diff) = generate_diff_image(&a, &a).unwrap();
    assert_eq!((w, h), (2, 2));
    assert_eq!(diff, vec![255, 0, 0, 0, 255, 0, 0, 0, 255, 0, 0, 0, 255, 0, 0, 0]);
}

#[test]
fn empty_image_gives_empty_diff() {
    let a = buffer(0, 0, vec![]);
    let b = buffer(0, 0, vec![]);
    let (w, h, diff) = generate_diff_image(&a, &b).unwrap();
    assert_eq!((w, h), (0, 0));
    assert_eq!(diff, Vec::<u8>::new());
}

#[test]
fn buffer_construction_checks_length() {
    assert!(PixelBuffer::new(1, 1, vec![0; 4]).is_some());
    assert!(PixelBuffer::new(1, 1, vec![0; 3]).is_none());
    assert!(PixelBuffer::new(2, 3, vec![0; 24]).is_some());
    assert!(PixelBuffer::new(2, 3, vec![0; 23]).is_none());
    assert!(PixelBuffer::new(0, 5, vec![]).is_some());
}
