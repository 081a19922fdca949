use wdotool::errors::WdError;
use wdotool::pixels::PixelArray;

#[test]
fn full_hd_capture_has_the_negotiated_shape() {
    let bytes = vec![0u8; 1920 * 1080 * 4];
    let p = PixelArray::from_vec(bytes, 1920, 1080).unwrap();
    assert_eq!(p.shape(), (1080, 1920, 4));
    assert_eq!(p.byte_len(), 1920 * 1080 * 4);
}

#[test]
fn mismatched_byte_count_is_rejected() {
    let bytes = vec![0u8; 7];
    assert!(matches!(
        PixelArray::from_vec(bytes, 1920, 1080),
        Err(WdError::Protocol)
    ));
    let bytes = vec![0u8; 1920 * 1080 * 4 - 1];
    assert!(matches!(
        PixelArray::from_vec(bytes, 1920, 1080),
        Err(WdError::Protocol)
    ));
}

#[test]
fn samples_are_row_major_four_per_pixel() {
    // 2 pixels wide, 2 rows: bytes 0..16
    let bytes: Vec<u8> = (0u8..16).collect();
    let p = PixelArray::from_vec(bytes, 2, 2).unwrap();
    assert_eq!(p.shape(), (2, 2, 4));
    // pixel (0, 0) holds bytes 0..4
    assert_eq!(p.get(0, 0, 0), 0);
    assert_eq!(p.get(0, 0, 3), 3);
    // pixel (0, 1) holds bytes 4..8
    assert_eq!(p.get(0, 1, 0), 4);
    // row 1 starts at byte 8
    assert_eq!(p.get(1, 0, 0), 8);
    assert_eq!(p.get(1, 1, 3), 15);
}

#[test]
fn into_vec_hands_the_bytes_back_unchanged() {
    let bytes: Vec<u8> = (0u8..16).collect();
    let p = PixelArray::from_vec(bytes.clone(), 2, 2).unwrap();
    assert_eq!(p.into_vec(), bytes);
}
