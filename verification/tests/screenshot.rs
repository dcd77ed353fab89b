use raybox::screenshot::{center_crop, crop_rgba, encode_screenshot, padded_bytes_per_row, unpad_rows, ScreenshotError};

#[test]
fn readback_rows_are_padded_to_256_bytes() {
    assert_eq!(padded_bytes_per_row(1), 256);
    assert_eq!(padded_bytes_per_row(64), 256);
    assert_eq!(padded_bytes_per_row(65), 512);
    assert_eq!(padded_bytes_per_row(800), 3328);
}

#[test]
fn padding_is_removed_row_by_row() {
    let mut data = vec![0u8; 512];
    for i in 0..8 {
        data[i] = i as u8 + 1;
        data[256 + i] = i as u8 + 11;
    }
    let pixels = unpad_rows(&data, 2, 2, 256);
    assert_eq!(pixels, vec![1, 2, 3, 4, 5, 6, 7, 8, 11, 12, 13, 14, 15, 16, 17, 18]);
}

#[test]
fn center_crop_is_clamped_and_centered() {
    assert_eq!(center_crop(800, 600, 200, 100), (300, 250, 200, 100));
    assert_eq!(center_crop(800, 600, 1000, 1000), (0, 0, 800, 600));
    assert_eq!(center_crop(5, 5, 2, 2), (1, 1, 2, 2));
}

#[test]
fn crop_takes_the_region() {
    let pixels: Vec<u8> = (0..36u8).collect();
    let cropped = crop_rgba(&pixels, 3, 3, 1, 1, 1, 2);
    assert_eq!(cropped, vec![16, 17, 18, 19, 28, 29, 30, 31]);
}

#[test]
fn screenshot_is_a_base64_png() {
    let data = vec![255u8; 512];
    let shot = encode_screenshot(&data, 2, 2, 256, None).expect("screenshot");
    assert_eq!(shot.width, 2);
    assert_eq!(shot.height, 2);
    assert!(shot.base64.starts_with("iVBORw0KGgo"));
    assert_eq!(shot.base64.len() % 4, 0);
    let cropped = encode_screenshot(&data, 2, 2, 256, Some((1, 1))).expect("cropped");
    assert_eq!((cropped.width, cropped.height), (1, 1));
    assert_ne!(cropped.base64, shot.base64);
    assert_eq!(ScreenshotError::PngEncoding("x".to_string()).message(), "PNG encoding failed: x");
    assert_eq!(ScreenshotError::ImageBuffer.message(), "Failed to create image buffer");
}
