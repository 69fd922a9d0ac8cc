use record_to_gif::encoder::{check_export, encode_gif_bytes, export_result, frame_delay, EncodeError};
use record_to_gif::CapturedFrame;

fn frame(w: u16, h: u16, seed: u8) -> CapturedFrame {
    let mut rgba = Vec::new();
    for i in 0..(w as usize * h as usize) {
        rgba.extend_from_slice(&[seed.wrapping_add(i as u8), 20, 200, 255]);
    }
    CapturedFrame { width: w, height: h, rgba }
}

#[test]
fn delay_is_rounded_hundredths() {
    assert_eq!(frame_delay(1), 100);
    assert_eq!(frame_delay(3), 33);
    assert_eq!(frame_delay(6), 17);
    assert_eq!(frame_delay(8), 13);
    assert_eq!(frame_delay(12), 8);
    assert_eq!(frame_delay(40), 3);
    assert_eq!(frame_delay(60), 2);
    assert_eq!(frame_delay(200), 1);
    assert_eq!(frame_delay(250), 1);
    assert_eq!(frame_delay(u32::MAX), 1);
    for fps in 1u32..=300 {
        let float = ((100.0 / fps as f32).round() as u16).max(1);
        assert_eq!(frame_delay(fps), float, "fps {}", fps);
    }
}

#[test]
fn export_refuses_empty_and_zero_fps() {
    assert!(matches!(check_export(&vec![], 8), Err(EncodeError::NoFrames)));
    assert!(matches!(check_export(&vec![frame(1, 1, 0)], 0), Err(EncodeError::ZeroFps)));
    assert!(check_export(&vec![frame(1, 1, 0)], 1).is_ok());
    let (bytes, outcome) = encode_gif_bytes(&vec![], 0);
    assert!(bytes.is_empty() && matches!(outcome, Err(EncodeError::NoFrames)));
    let (bytes, outcome) = encode_gif_bytes(&vec![frame(1, 1, 0)], 0);
    assert!(bytes.is_empty() && matches!(outcome, Err(EncodeError::ZeroFps)));
}

#[test]
fn export_refuses_mixed_sizes() {
    let frames = vec![frame(2, 2, 0), frame(2, 2, 1), frame(3, 2, 2)];
    let (bytes, outcome) = encode_gif_bytes(&frames, 8);
    let err = outcome.unwrap_err();
    assert!(matches!(err, EncodeError::InconsistentFrameSizes));
    assert_eq!(err.message(), "Frame sizes are inconsistent");
    // The bytes are the GIF of the two frames before the odd one.
    let mut decoder = gif::DecodeOptions::new().read_info(&bytes[..]).unwrap();
    let mut count = 0;
    while decoder.read_next_frame().unwrap().is_some() {
        count += 1;
    }
    assert_eq!(count, 2);
    assert_eq!(*bytes.last().unwrap(), 0x3b);
}

#[test]
fn same_sizes_always_encode() {
    for n in 1..4u8 {
        let frames: Vec<_> = (0..n).map(|k| frame(5, 1, k * 50)).collect();
        let (bytes, outcome) = encode_gif_bytes(&frames, 60);
        assert!(outcome.is_ok());
        assert!(bytes.starts_with(b"GIF89a"));
    }
}

#[test]
fn encoded_gif_reads_back() {
    let frames = vec![frame(3, 2, 0), frame(3, 2, 40), frame(3, 2, 80)];
    let (bytes, outcome) = encode_gif_bytes(&frames, 8);
    assert!(outcome.is_ok());
    assert_eq!(&bytes[..6], b"GIF89a");
    assert_eq!(&bytes[6..13], &[3, 0, 2, 0, 0x80, 0, 0]);
    assert_eq!(&bytes[13..19], &[0; 6]);
    assert_eq!(bytes[19..22], [0x21, 0xff, 0x0b]);
    assert_eq!(&bytes[22..33], b"NETSCAPE2.0");
    assert_eq!(bytes[33..38], [3, 1, 0, 0, 0]);
    assert_eq!(*bytes.last().unwrap(), 0x3b);

    let mut options = gif::DecodeOptions::new();
    options.set_color_output(gif::ColorOutput::RGBA);
    let mut decoder = options.read_info(&bytes[..]).unwrap();
    assert_eq!((decoder.width(), decoder.height()), (3, 2));
    let mut count = 0;
    while let Some(f) = decoder.read_next_frame().unwrap() {
        assert_eq!(f.delay, 13);
        assert_eq!((f.width, f.height), (3, 2));
        assert_eq!(&f.buffer[..], &frames[count].rgba[..]);
        count += 1;
    }
    assert_eq!(count, 3);
}

#[test]
fn error_messages() {
    assert_eq!(EncodeError::NoFrames.message(), "No frames to export");
    assert_eq!(EncodeError::ZeroFps.message(), "FPS must be greater than 0");
    assert_eq!(EncodeError::CreateFile("denied".to_string()).message(), "Create output file failed: denied");
    assert_eq!(EncodeError::InitEncoder("x".to_string()).message(), "Init GIF encoder failed: x");
    assert_eq!(EncodeError::SetRepeat("y".to_string()).message(), "Set repeat mode failed: y");
    assert_eq!(EncodeError::WriteFrame("z".to_string()).message(), "Write GIF frame failed: z");
}

#[test]
fn export_result_hands_frames_back() {
    let frames = vec![frame(1, 1, 5)];
    let ok = export_result("out.gif".to_string(), frames.clone(), Ok(())).unwrap();
    assert_eq!(ok.output_path, "out.gif");
    assert_eq!(ok.frames[0].rgba, frames[0].rgba);
    let err = export_result("out.gif".to_string(), frames.clone(), Err(EncodeError::NoFrames)).unwrap_err();
    assert_eq!(err.message, "No frames to export");
    assert_eq!(err.frames.len(), 1);
}
