use record_to_gif::{Action, CapturedFrame, EncodeFailure, EncodeSuccess, Message, RecordToGifApp};

const SEC: u64 = 1_000_000_000;

fn frame(w: u16, h: u16, fill: u8) -> CapturedFrame {
    CapturedFrame { width: w, height: h, rgba: vec![fill; w as usize * h as usize * 4] }
}

fn recording_app() -> RecordToGifApp {
    let mut app = RecordToGifApp::new();
    assert!(matches!(app.update(Message::StartRecording, 0), Action::Nothing));
    app
}

#[test]
fn starts_with_defaults() {
    let app = RecordToGifApp::new();
    assert_eq!(app.region_x(), "100");
    assert_eq!(app.region_y(), "100");
    assert_eq!(app.region_width(), "800");
    assert_eq!(app.region_height(), "500");
    assert_eq!(app.fps(), "8");
    assert_eq!(app.max_seconds(), "10");
    assert_eq!(app.status(), "Ready: drag/resize window to update capture region");
    assert!(!app.is_recording() && !app.is_exporting() && !app.capture_in_flight());
    assert!(app.frames().is_empty());
    assert!(app.can_start() && app.can_export() && app.can_clear() && !app.can_stop());
    assert!(!app.wants_ticks());
}

#[test]
fn start_and_tick_ask_for_one_capture() {
    let mut app = recording_app();
    assert!(app.is_recording());
    assert_eq!(app.status(), "Recording...");
    assert!(app.can_stop() && !app.can_start());
    match app.update(Message::Tick, SEC / 2) {
        Action::CaptureFrame(r) => assert_eq!((r.x, r.y, r.width, r.height), (100, 100, 800, 500)),
        other => panic!("unexpected {:?}", other),
    }
    assert!(app.capture_in_flight());
    assert!(matches!(app.update(Message::Tick, SEC), Action::Nothing));
    assert!(matches!(app.update(Message::Tick, SEC), Action::Nothing));
    assert_eq!(app.skipped_ticks(), 2);
    app.update(Message::FrameCaptured(Ok(frame(2, 2, 9))), SEC);
    assert!(!app.capture_in_flight());
    assert_eq!(app.frames().len(), 1);
    assert_eq!(app.status(), "Recording... 1 frames (skipped 2 ticks)");
    assert!(matches!(app.update(Message::Tick, SEC), Action::CaptureFrame(_)));
}

#[test]
fn stop_reports_counts() {
    let mut app = recording_app();
    app.update(Message::Tick, 1);
    app.update(Message::Tick, 2);
    app.update(Message::FrameCaptured(Ok(frame(1, 1, 0))), 3);
    app.update(Message::StopRecording, 4);
    assert!(!app.is_recording());
    assert_eq!(app.status(), "Recording stopped, total 1 frames (skipped 1 ticks)");
    assert!(matches!(app.update(Message::Tick, 5), Action::Nothing));
}

#[test]
fn auto_stops_at_the_limit() {
    let mut app = RecordToGifApp::new();
    app.update(Message::MaxSecondsChanged("2".to_string()), 0);
    app.update(Message::StartRecording, 10 * SEC);
    assert!(matches!(app.update(Message::Tick, 11 * SEC), Action::CaptureFrame(_)));
    app.update(Message::FrameCaptured(Ok(frame(1, 1, 0))), 11 * SEC);
    assert!(matches!(app.update(Message::Tick, 12 * SEC - 1), Action::CaptureFrame(_)));
    app.update(Message::FrameCaptured(Ok(frame(1, 1, 0))), 12 * SEC - 1);
    assert!(matches!(app.update(Message::Tick, 12 * SEC), Action::Nothing));
    assert!(!app.is_recording());
    assert_eq!(app.status(), "Auto-stopped at 2s, total 2 frames");
    assert_eq!(app.frames().len(), 2);
}

#[test]
fn capture_failure_stops() {
    let mut app = recording_app();
    app.update(Message::Tick, 1);
    app.update(Message::FrameCaptured(Err("boom".to_string())), 2);
    assert!(!app.is_recording() && !app.capture_in_flight());
    assert_eq!(app.status(), "Capture failed, stopped: boom");
}

#[test]
fn bad_settings_refuse_to_start() {
    let mut app = RecordToGifApp::new();
    app.update(Message::RegionWidthChanged("abc".to_string()), 0);
    app.update(Message::StartRecording, 0);
    assert!(!app.is_recording());
    assert_eq!(app.status(), "width must be a non-negative integer");
    app.update(Message::RegionWidthChanged(" 0 ".to_string()), 0);
    app.update(Message::StartRecording, 0);
    assert_eq!(app.status(), "宽高必须大于 0");
    app.update(Message::RegionWidthChanged("10".to_string()), 0);
    app.update(Message::MaxSecondsChanged("301".to_string()), 0);
    app.update(Message::StartRecording, 0);
    assert_eq!(app.status(), "SEC range should be 1..=300");
    app.update(Message::MaxSecondsChanged("x".to_string()), 0);
    app.update(Message::StartRecording, 0);
    assert_eq!(app.status(), "SEC must be a positive integer");
    app.update(Message::RegionXChanged("-5".to_string()), 0);
    app.update(Message::StartRecording, 0);
    assert_eq!(app.status(), "x must be a non-negative integer");
}

#[test]
fn region_turning_bad_mid_recording_stops() {
    let mut app = recording_app();
    app.update(Message::RegionYChanged("y".to_string()), 1);
    assert!(matches!(app.update(Message::Tick, 2), Action::Nothing));
    assert!(!app.is_recording());
    assert_eq!(app.status(), "y must be a non-negative integer");
}

#[test]
fn window_geometry_rewrites_region() {
    let mut app = RecordToGifApp::new();
    app.update(Message::WindowMoved { x: -20, y: 35 }, 0);
    assert_eq!(app.region_x(), "0");
    assert_eq!(app.region_y(), "35");
    assert_eq!(app.region_width(), "800");
    app.update(Message::WindowResized { width: 0, height: 3_000_000_000 }, 0);
    assert_eq!(app.region_width(), "1");
    assert_eq!(app.region_height(), "1");
    app.update(Message::WindowOpened { x: 7, y: 8, width: 640, height: 480 }, 0);
    assert_eq!(
        (app.region_x().as_str(), app.region_y().as_str(), app.region_width().as_str(), app.region_height().as_str()),
        ("7", "8", "640", "480")
    );
    let r = app.parse_region().unwrap();
    assert_eq!((r.x, r.y, r.width, r.height), (7, 8, 640, 480));
    let c = RecordToGifApp::content_region_from_window(i32::MIN, 5, 1, 2);
    assert_eq!((c.x, c.y, c.width, c.height), (0, 5, 1, 2));
}

#[test]
fn clear_waits_for_idle() {
    let mut app = recording_app();
    app.update(Message::Tick, 1);
    app.update(Message::FrameCaptured(Ok(frame(1, 1, 0))), 2);
    app.update(Message::ClearFrames, 3);
    assert_eq!(app.status(), "Cannot clear while recording/exporting");
    assert_eq!(app.frames().len(), 1);
    app.update(Message::StopRecording, 4);
    app.update(Message::ClearFrames, 5);
    assert_eq!(app.status(), "Frame buffer cleared");
    assert!(app.frames().is_empty());
}

#[test]
fn export_flow_returns_frames() {
    let mut app = RecordToGifApp::new();
    assert!(matches!(app.update(Message::ExportGif, 0), Action::Nothing));
    assert_eq!(app.status(), "No frames to export. Record first.");
    app.update(Message::StartRecording, 0);
    app.update(Message::Tick, 1);
    app.update(Message::FrameCaptured(Ok(frame(2, 1, 3))), 2);
    assert!(matches!(app.update(Message::ExportGif, 3), Action::Nothing));
    assert_eq!(app.status(), "Stop recording before export");
    app.update(Message::StopRecording, 4);
    assert!(matches!(app.update(Message::ExportGif, 5), Action::ChooseOutputPath));
    app.update(Message::OutputPathChosen { path: None }, 6);
    assert_eq!(app.status(), "Export cancelled");
    assert_eq!(app.frames().len(), 1);
    let handed = match app.update(Message::OutputPathChosen { path: Some("/tmp/a.gif".to_string()) }, 7) {
        Action::EncodeGif { output_path, frames, fps } => {
            assert_eq!(output_path, "/tmp/a.gif");
            assert_eq!(fps, 8);
            frames
        }
        other => panic!("unexpected {:?}", other),
    };
    assert!(app.is_exporting());
    assert!(app.frames().is_empty());
    assert_eq!(app.status(), "Exporting GIF... 1 frames");
    assert!(!app.can_start() && !app.can_stop() && !app.can_export() && !app.can_clear());
    app.update(
        Message::ExportFinished(Ok(EncodeSuccess { output_path: "/tmp/a.gif".to_string(), frames: handed.clone() })),
        8,
    );
    assert!(!app.is_exporting());
    assert_eq!(app.frames().len(), 1);
    assert_eq!(app.frames()[0].rgba, handed[0].rgba);
    assert_eq!(app.status(), "Exported: /tmp/a.gif");
    app.update(Message::ExportFinished(Err(EncodeFailure { message: "disk full".to_string(), frames: handed })), 9);
    assert_eq!(app.status(), "Export failed: disk full");
    assert_eq!(app.frames().len(), 1);
}

#[test]
fn export_checks_fps() {
    let mut app = RecordToGifApp::new();
    app.update(Message::StartRecording, 0);
    app.update(Message::Tick, 1);
    app.update(Message::FrameCaptured(Ok(frame(1, 1, 0))), 2);
    app.update(Message::StopRecording, 3);
    app.update(Message::FpsChanged("61".to_string()), 4);
    assert!(matches!(app.update(Message::ExportGif, 5), Action::Nothing));
    assert_eq!(app.status(), "FPS range should be 1..=60");
    app.update(Message::FpsChanged("fast".to_string()), 6);
    app.update(Message::ExportGif, 7);
    assert_eq!(app.status(), "FPS must be a positive integer");
    app.update(Message::FpsChanged(" 60".to_string()), 8);
    assert!(matches!(app.update(Message::ExportGif, 9), Action::ChooseOutputPath));
    match app.update(Message::OutputPathChosen { path: Some("x.gif".to_string()) }, 10) {
        Action::EncodeGif { fps, .. } => assert_eq!(fps, 60),
        other => panic!("unexpected {:?}", other),
    }
}

#[test]
fn unprompted_path_starts_nothing() {
    let mut app = RecordToGifApp::new();
    let path = Some("x.gif".to_string());
    assert!(matches!(app.update(Message::OutputPathChosen { path: path.clone() }, 0), Action::Nothing));
    assert_eq!(app.status(), "No frames to export. Record first.");
    assert!(!app.is_exporting());
    app.update(Message::StartRecording, 0);
    app.update(Message::Tick, 1);
    app.update(Message::FrameCaptured(Ok(frame(1, 1, 0))), 2);
    assert!(matches!(app.update(Message::OutputPathChosen { path }, 3), Action::Nothing));
    assert_eq!(app.status(), "Stop recording before export");
    assert_eq!(app.frames().len(), 1);
    assert!(app.is_recording() && !app.is_exporting());
}

#[test]
fn padded_numbers_read_back() {
    for n in [0u32, 42, u32::MAX] {
        let padded = format!(" \t{}\u{3000}\n", n);
        assert_eq!(RecordToGifApp::parse_u32("x", &padded), Ok(n));
    }
}

#[test]
fn tick_interval_follows_fps() {
    let mut app = RecordToGifApp::new();
    assert_eq!(app.tick_interval_ms(), 125);
    app.update(Message::FpsChanged("1".to_string()), 0);
    assert_eq!(app.tick_interval_ms(), 1000);
    app.update(Message::FpsChanged("60".to_string()), 0);
    assert_eq!(app.tick_interval_ms(), 16);
    app.update(Message::FpsChanged("0".to_string()), 0);
    assert_eq!(app.tick_interval_ms(), 125);
    app.update(Message::FpsChanged("nope".to_string()), 0);
    assert_eq!(app.tick_interval_ms(), 125);
}

#[test]
fn parse_settings_directly() {
    assert_eq!(RecordToGifApp::parse_u32("w", " 12 "), Ok(12));
    assert_eq!(RecordToGifApp::parse_u32("w", "1.5"), Err("w must be a non-negative integer".to_string()));
    let mut app = RecordToGifApp::new();
    assert_eq!(app.parse_fps(), Ok(8));
    assert_eq!(app.parse_max_seconds(), Ok(10));
    app.update(Message::MaxSecondsChanged("300".to_string()), 0);
    assert_eq!(app.parse_max_seconds(), Ok(300));
    app.update(Message::MaxSecondsChanged("0".to_string()), 0);
    assert_eq!(app.parse_max_seconds(), Err("SEC range should be 1..=300".to_string()));
    app.update(Message::FpsChanged("0".to_string()), 0);
    assert_eq!(app.parse_fps(), Err("FPS range should be 1..=60".to_string()));
}

#[test]
fn late_frame_after_stop_is_kept() {
    let mut app = recording_app();
    app.update(Message::Tick, 1);
    app.update(Message::StopRecording, 2);
    app.update(Message::FrameCaptured(Ok(frame(1, 1, 0))), 3);
    assert_eq!(app.frames().len(), 1);
    assert!(!app.is_recording());
}

#[test]
fn frames_grow_in_order_while_recording() {
    let mut app = recording_app();
    for k in 0..3u8 {
        app.update(Message::Tick, k as u64);
        app.update(Message::ClearFrames, k as u64);
        app.update(Message::WindowMoved { x: k as i32, y: 0 }, k as u64);
        app.update(Message::FrameCaptured(Ok(frame(1, 1, k))), k as u64);
    }
    let fills: Vec<u8> = app.frames().iter().map(|f| f.rgba[0]).collect();
    assert_eq!(fills, vec![0, 1, 2]);
}
