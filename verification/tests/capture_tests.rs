use std::io::Cursor;

use record_to_gif::capture::{capture_failure_message, decode_captured_frame, frame_from_rgba8, rect_arg};
use record_to_gif::CaptureRegion;

fn png_bytes(w: u32, h: u32) -> (Vec<u8>, Vec<u8>) {
    let mut raw = Vec::new();
    for i in 0..(w * h) {
        raw.extend_from_slice(&[i as u8, 255 - i as u8, 7, 255]);
    }
    let img = image::RgbaImage::from_raw(w, h, raw.clone()).unwrap();
    let mut out = Cursor::new(Vec::new());
    img.write_to(&mut out, image::ImageFormat::Png).unwrap();
    (out.into_inner(), raw)
}

#[test]
fn decodes_png_screenshot() {
    let (bytes, raw) = png_bytes(4, 3);
    let f = decode_captured_frame(&bytes).unwrap();
    assert_eq!((f.width, f.height), (4, 3));
    assert_eq!(f.rgba, raw);
    assert_eq!(f.rgba.len(), 4 * 4 * 3);
}

#[test]
fn decoded_gray_png_has_four_bytes_per_pixel() {
    let img = image::GrayImage::from_raw(3, 2, vec![0, 50, 100, 150, 200, 250]).unwrap();
    let mut out = Cursor::new(Vec::new());
    img.write_to(&mut out, image::ImageFormat::Png).unwrap();
    let f = decode_captured_frame(&out.into_inner()).unwrap();
    assert_eq!((f.width, f.height), (3, 2));
    assert_eq!(f.rgba.len(), 3 * 2 * 4);
    assert_eq!(&f.rgba[4..8], &[50, 50, 50, 255]);
}

#[test]
fn undecodable_bytes_fail() {
    let e = decode_captured_frame(b"definitely not an image").unwrap_err();
    assert!(e.starts_with("Decode image failed: "), "{}", e);
}

#[test]
fn sides_must_fit_gif() {
    assert_eq!(frame_from_rgba8(65536, 1, vec![]).unwrap_err(), "Image width exceeds GIF limit");
    assert_eq!(frame_from_rgba8(1, 70000, vec![]).unwrap_err(), "Image height exceeds GIF limit");
    let f = frame_from_rgba8(65535, 2, vec![1, 2]).unwrap();
    assert_eq!((f.width, f.height, f.rgba), (65535, 2, vec![1, 2]));
}

#[test]
fn rect_argument() {
    let r = CaptureRegion::new(100, 0, 800, 500).unwrap();
    assert_eq!(rect_arg(r), "100,0,800,500");
}

#[test]
fn failure_messages() {
    let advice = "No screen recording permission. Go to System Settings -> Privacy & Security -> Screen Recording and allow this app.";
    assert_eq!(capture_failure_message("could not create image: not authorized"), advice);
    assert_eq!(capture_failure_message("User canceled"), advice);
    assert_eq!(capture_failure_message("bad rect"), "screencapture error: bad rect");
    assert_eq!(capture_failure_message(""), "screencapture error: ");
}
