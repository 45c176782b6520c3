use fadb_desktop::domain::ErrorCode;
use fadb_desktop::output_batch::{OutputBatch, MAX_OUTPUT_BATCH_CHUNKS};
use fadb_desktop::screenshot::{decode_screenshot, screenshot_from_decoded};

fn png_bytes(width: u32, height: u32) -> Vec<u8> {
    let mut image = image::RgbaImage::new(width, height);
    for (x, y, pixel) in image.enumerate_pixels_mut() {
        *pixel = image::Rgba([x as u8, y as u8, 7, 255]);
    }
    let mut bytes = std::io::Cursor::new(Vec::new());
    image
        .write_to(&mut bytes, image::ImageFormat::Png)
        .expect("encode");
    bytes.into_inner()
}

#[test]
fn decodes_png_screenshots_to_rgba() {
    let screenshot = decode_screenshot(&png_bytes(3, 2)).expect("decoded");
    assert_eq!(screenshot.width(), 3);
    assert_eq!(screenshot.height(), 2);
    assert_eq!(screenshot.rgba().len(), 3 * 2 * 4);
    assert_eq!(&screenshot.rgba()[4..8], &[1, 0, 7, 255]);
}

#[test]
fn garbage_is_a_decode_failure() {
    let error = decode_screenshot(b"not a png").unwrap_err();
    assert_eq!(error.code, ErrorCode::InvalidInput);
    assert_eq!(error.message_key, "screenshot.decode_failed");
    assert!(!error.detail.is_empty());
}

#[test]
fn oversized_screenshots_are_refused_with_their_size() {
    let error = decode_screenshot(&png_bytes(8193, 1)).unwrap_err();
    assert_eq!(error.code, ErrorCode::OutputLimit);
    assert_eq!(error.message_key, "screenshot.dimensions_too_large");
    assert_eq!(error.detail, "8193x1");
    assert!(decode_screenshot(&png_bytes(8192, 1)).is_ok());
}

#[test]
fn the_pixel_ceiling_applies_to_the_area() {
    let error = screenshot_from_decoded(Ok((4097, 4096, vec![0; 4 * 4097 * 4096]))).unwrap_err();
    assert_eq!(error.detail, "4097x4096");
    assert!(screenshot_from_decoded(Ok((4096, 4096, vec![0; 4 * 4096 * 4096]))).is_ok());
    let error = screenshot_from_decoded(Err("bad".to_owned())).unwrap_err();
    assert_eq!(error.detail, "bad");
}

#[test]
fn output_batches_join_chunks_in_order_up_to_the_limit() {
    let mut batch = OutputBatch::new(b"ab".to_vec());
    let mut joined = 1;
    while batch.wants_more() {
        batch.push(b"c");
        joined += 1;
    }
    assert_eq!(joined, MAX_OUTPUT_BATCH_CHUNKS);
    assert_eq!(batch.into_bytes(), b"abccccccc".to_vec());
}
