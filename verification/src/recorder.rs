use vstd::prelude::*;

use crate::encoder::{EncodeFailure, EncodeSuccess};
use crate::text::{decimal, decimal_string, parse_trimmed_u32, parse_u32_spec, trim};
use crate::types::{CaptureRegion, CapturedFrame};

verus! {

/// Offset of the captured content area from the window's left edge. The
/// window uses a full-size content view, so the content is the window.
pub const CONTENT_OFFSET_X: i32 = 0;

/// Offset of the captured content area from the window's top edge.
pub const CONTENT_OFFSET_Y: i32 = 0;

/// Difference between the content width and the window width.
pub const CONTENT_WIDTH_DELTA: i32 = 0;

/// Difference between the content height and the window height.
pub const CONTENT_HEIGHT_DELTA: i32 = 0;

/// Nanoseconds in one second of the caller's monotonic clock.
pub const NANOS_PER_SEC: u64 = 1_000_000_000;

/// The recorder: the settings as typed, the recording in progress, the
/// frames recorded so far, and the line of status shown to the user.
///
/// Times are readings of a monotonic clock in nanoseconds, supplied by the
/// caller with each message.
pub struct RecordToGifApp {
    region_x: String,
    region_y: String,
    region_width: String,
    region_height: String,
    fps: String,
    max_seconds: String,
    is_recording: bool,
    capture_in_flight: bool,
    skipped_ticks: u64,
    is_exporting: bool,
    frames: Vec<CapturedFrame>,
    status: String,
    started_at: Option<u64>,
    window_x: i32,
    window_y: i32,
    window_width: u32,
    window_height: u32,
}

/// The recorder's state as a mathematical value.
pub struct AppView {
    pub region_x: Seq<char>,
    pub region_y: Seq<char>,
    pub region_width: Seq<char>,
    pub region_height: Seq<char>,
    pub fps: Seq<char>,
    pub max_seconds: Seq<char>,
    pub is_recording: bool,
    pub capture_in_flight: bool,
    pub skipped_ticks: u64,
    pub is_exporting: bool,
    pub frames: Seq<CapturedFrame>,
    pub status: Seq<char>,
    pub started_at: Option<u64>,
    pub window_x: i32,
    pub window_y: i32,
    pub window_width: u32,
    pub window_height: u32,
}

impl View for RecordToGifApp {
    type V = AppView;

    closed spec fn view(&self) -> AppView {
        AppView {
            region_x: self.region_x@,
            region_y: self.region_y@,
            region_width: self.region_width@,
            region_height: self.region_height@,
            fps: self.fps@,
            max_seconds: self.max_seconds@,
            is_recording: self.is_recording,
            capture_in_flight: self.capture_in_flight,
            skipped_ticks: self.skipped_ticks,
            is_exporting: self.is_exporting,
            frames: self.frames@,
            status: self.status@,
            started_at: self.started_at,
            window_x: self.window_x,
            window_y: self.window_y,
            window_width: self.window_width,
            window_height: self.window_height,
        }
    }
}

/// What the user or the system tells the recorder.
#[derive(Debug)]
pub enum Message {
    RegionXChanged(String),
    RegionYChanged(String),
    RegionWidthChanged(String),
    RegionHeightChanged(String),
    FpsChanged(String),
    MaxSecondsChanged(String),
    StartRecording,
    StopRecording,
    ClearFrames,
    WindowOpened { x: i32, y: i32, width: u32, height: u32 },
    WindowMoved { x: i32, y: i32 },
    WindowResized { width: u32, height: u32 },
    Tick,
    FrameCaptured(Result<CapturedFrame, String>),
    ExportGif,
    /// The save dialog that `Action::ChooseOutputPath` asked for was closed;
    /// `path` is `None` when it was cancelled.
    OutputPathChosen { path: Option<String> },
    ExportFinished(Result<EncodeSuccess, EncodeFailure>),
}

impl Clone for Message {
    fn clone(&self) -> Self {
        match self {
            Message::RegionXChanged(v) => Message::RegionXChanged(v.clone()),
            Message::RegionYChanged(v) => Message::RegionYChanged(v.clone()),
            Message::RegionWidthChanged(v) => Message::RegionWidthChanged(v.clone()),
            Message::RegionHeightChanged(v) => Message::RegionHeightChanged(v.clone()),
            Message::FpsChanged(v) => Message::FpsChanged(v.clone()),
            Message::MaxSecondsChanged(v) => Message::MaxSecondsChanged(v.clone()),
            Message::StartRecording => Message::StartRecording,
            Message::StopRecording => Message::StopRecording,
            Message::ClearFrames => Message::ClearFrames,
            Message::WindowOpened { x, y, width, height } => Message::WindowOpened {
                x: *x,
                y: *y,
                width: *width,
                height: *height,
            },
            Message::WindowMoved { x, y } => Message::WindowMoved { x: *x, y: *y },
            Message::WindowResized { width, height } => Message::WindowResized {
                width: *width,
                height: *height,
            },
            Message::Tick => Message::Tick,
            Message::FrameCaptured(r) => Message::FrameCaptured(
                match r {
                    Ok(f) => Ok(f.clone()),
                    Err(e) => Err(e.clone()),
                },
            ),
            Message::ExportGif => Message::ExportGif,
            Message::OutputPathChosen { path } => Message::OutputPathChosen {
                path: match path {
                    Some(p) => Some(p.clone()),
                    None => None,
                },
            },
            Message::ExportFinished(r) => Message::ExportFinished(
                match r {
                    Ok(s) => Ok(s.clone()),
                    Err(f) => Err(f.clone()),
                },
            ),
        }
    }
}

/// What the recorder asks its caller to do after a message.
#[derive(Debug)]
pub enum Action {
    /// Nothing to do.
    Nothing,
    /// Take one screenshot of the region and answer with `FrameCaptured`.
    CaptureFrame(CaptureRegion),
    /// Ask the user where to save the GIF and answer with `OutputPathChosen`.
    ChooseOutputPath,
    /// Encode the frames to a GIF at the path and answer with `ExportFinished`.
    EncodeGif { output_path: String, frames: Vec<CapturedFrame>, fps: u32 },
}

/// An action as a mathematical value.
pub enum ActionView {
    Nothing,
    CaptureFrame(CaptureRegion),
    ChooseOutputPath,
    EncodeGif { output_path: Seq<char>, frames: Seq<CapturedFrame>, fps: u32 },
}

impl View for Action {
    type V = ActionView;

    open spec fn view(&self) -> ActionView {
        match self {
            Action::Nothing => ActionView::Nothing,
            Action::CaptureFrame(r) => ActionView::CaptureFrame(*r),
            Action::ChooseOutputPath => ActionView::ChooseOutputPath,
            Action::EncodeGif { output_path, frames, fps } => ActionView::EncodeGif {
                output_path: output_path@,
                frames: frames@,
                fps: *fps,
            },
        }
    }
}

// ---------------------------------------------------------------------------
// The model
// ---------------------------------------------------------------------------

/// The content area of a window at `(x, y)` of size `width` by `height`:
/// negative coordinates are clamped to 0, and each side to at least 1
/// (a side above `i32::MAX` counts as negative, hence as 1).
pub open spec fn content_region(x: i32, y: i32, width: u32, height: u32) -> CaptureRegion {
    let cx = x + CONTENT_OFFSET_X;
    let cy = y + CONTENT_OFFSET_Y;
    let w = width as int + CONTENT_WIDTH_DELTA;
    let h = height as int + CONTENT_HEIGHT_DELTA;
    CaptureRegion {
        x: if cx < 0 { 0 } else { cx as u32 },
        y: if cy < 0 { 0 } else { cy as u32 },
        width: if w < 1 || w > i32::MAX { 1 } else { w as u32 },
        height: if h < 1 || h > i32::MAX { 1 } else { h as u32 },
    }
}

/// The message for a setting that is not a non-negative integer.
pub open spec fn not_an_integer(name: Seq<char>) -> Seq<char> {
    name + " must be a non-negative integer"@
}

/// A setting read as `u32`, or the message naming it.
pub open spec fn parse_field(name: Seq<char>, text: Seq<char>) -> Result<u32, Seq<char>> {
    match parse_u32_spec(trim(text)) {
        Some(v) => Ok(v),
        None => Err(not_an_integer(name)),
    }
}

/// The region the four region settings describe, or the first complaint.
pub open spec fn parse_region_spec(s: AppView) -> Result<CaptureRegion, Seq<char>> {
    match parse_field("x"@, s.region_x) {
        Err(e) => Err(e),
        Ok(x) => match parse_field("y"@, s.region_y) {
            Err(e) => Err(e),
            Ok(y) => match parse_field("width"@, s.region_width) {
                Err(e) => Err(e),
                Ok(w) => match parse_field("height"@, s.region_height) {
                    Err(e) => Err(e),
                    Ok(h) => if w == 0 || h == 0 {
                        Err(crate::types::empty_side_message())
                    } else {
                        Ok(CaptureRegion { x, y, width: w, height: h })
                    },
                },
            },
        },
    }
}

/// The frame rate setting: an integer from 1 to 60.
pub open spec fn parse_fps_spec(text: Seq<char>) -> Result<u32, Seq<char>> {
    match parse_u32_spec(trim(text)) {
        None => Err("FPS must be a positive integer"@),
        Some(v) => if v == 0 || v > 60 {
            Err("FPS range should be 1..=60"@)
        } else {
            Ok(v)
        },
    }
}

/// The recording length setting: an integer number of seconds from 1 to 300.
pub open spec fn parse_max_seconds_spec(text: Seq<char>) -> Result<u32, Seq<char>> {
    match parse_u32_spec(trim(text)) {
        None => Err("SEC must be a positive integer"@),
        Some(v) => if v == 0 || v > 300 {
            Err("SEC range should be 1..=300"@)
        } else {
            Ok(v)
        },
    }
}

/// Milliseconds between ticks for the frame rate setting `fps`.
pub open spec fn tick_interval_spec(fps: Seq<char>) -> u64 {
    match parse_fps_spec(fps) {
        Ok(f) => if f > 0 {
            let q = 1000u32 / (if f > 1 { f } else { 1u32 });
            if q > 1 { q as u64 } else { 1 }
        } else {
            125
        },
        Err(_) => 125,
    }
}

/// Whole seconds from `started` to `now`; 0 when the clock reads earlier.
pub open spec fn elapsed_secs(started: u64, now: u64) -> nat {
    if now >= started {
        ((now - started) as nat / NANOS_PER_SEC as nat) as nat
    } else {
        0
    }
}

/// The region settings rewritten to the content area of the window.
pub open spec fn synced(s: AppView) -> AppView {
    let r = content_region(s.window_x, s.window_y, s.window_width, s.window_height);
    AppView {
        region_x: decimal(r.x as nat),
        region_y: decimal(r.y as nat),
        region_width: decimal(r.width as nat),
        region_height: decimal(r.height as nat),
        ..s
    }
}

pub open spec fn stopped_status(frames: nat, skipped: u64) -> Seq<char> {
    "Recording stopped, total "@ + decimal(frames) + " frames (skipped "@ + decimal(
        skipped as nat,
    ) + " ticks)"@
}

pub open spec fn auto_stopped_status(seconds: u32, frames: nat) -> Seq<char> {
    "Auto-stopped at "@ + decimal(seconds as nat) + "s, total "@ + decimal(frames) + " frames"@
}

pub open spec fn recording_status(frames: nat, skipped: u64) -> Seq<char> {
    "Recording... "@ + decimal(frames) + " frames (skipped "@ + decimal(skipped as nat)
        + " ticks)"@
}

pub open spec fn exporting_status(frames: nat) -> Seq<char> {
    "Exporting GIF... "@ + decimal(frames) + " frames"@
}

/// Whether an export may go ahead, and at which frame rate: there must be
/// frames, no recording, and a valid frame rate setting.
pub open spec fn export_request_spec(s: AppView) -> Result<u32, Seq<char>> {
    if s.frames.len() == 0 {
        Err("No frames to export. Record first."@)
    } else if s.is_recording {
        Err("Stop recording before export"@)
    } else {
        parse_fps_spec(s.fps)
    }
}

/// The recorder's answer to a tick.
pub open spec fn tick_step(s: AppView, now: u64) -> (AppView, ActionView) {
    if !s.is_recording {
        (s, ActionView::Nothing)
    } else if s.capture_in_flight {
        (AppView { skipped_ticks: s.skipped_ticks.saturating_add(1), ..s }, ActionView::Nothing)
    } else if s.started_at is Some && parse_max_seconds_spec(s.max_seconds) is Ok
        && elapsed_secs(s.started_at->0, now) >= parse_max_seconds_spec(s.max_seconds)->Ok_0 {
        (
            AppView {
                is_recording: false,
                started_at: None,
                status: auto_stopped_status(
                    parse_max_seconds_spec(s.max_seconds)->Ok_0,
                    s.frames.len(),
                ),
                ..s
            },
            ActionView::Nothing,
        )
    } else {
        match parse_region_spec(s) {
            Ok(r) => (AppView { capture_in_flight: true, ..s }, ActionView::CaptureFrame(r)),
            Err(e) => (AppView { is_recording: false, status: e, ..s }, ActionView::Nothing),
        }
    }
}

/// The recorder's answer to each message, received at clock reading `now`.
pub open spec fn step(s: AppView, m: Message, now: u64) -> (AppView, ActionView) {
    match m {
        Message::RegionXChanged(v) => (AppView { region_x: v@, ..s }, ActionView::Nothing),
        Message::RegionYChanged(v) => (AppView { region_y: v@, ..s }, ActionView::Nothing),
        Message::RegionWidthChanged(v) => (AppView { region_width: v@, ..s }, ActionView::Nothing),
        Message::RegionHeightChanged(v) => (
            AppView { region_height: v@, ..s },
            ActionView::Nothing,
        ),
        Message::FpsChanged(v) => (AppView { fps: v@, ..s }, ActionView::Nothing),
        Message::MaxSecondsChanged(v) => (AppView { max_seconds: v@, ..s }, ActionView::Nothing),
        Message::WindowOpened { x, y, width, height } => (
            synced(
                AppView {
                    window_x: x,
                    window_y: y,
                    window_width: width,
                    window_height: height,
                    ..s
                },
            ),
            ActionView::Nothing,
        ),
        Message::WindowMoved { x, y } => (
            synced(AppView { window_x: x, window_y: y, ..s }),
            ActionView::Nothing,
        ),
        Message::WindowResized { width, height } => (
            synced(AppView { window_width: width, window_height: height, ..s }),
            ActionView::Nothing,
        ),
        Message::StartRecording => match (parse_region_spec(s), parse_max_seconds_spec(s.max_seconds)) {
            (Ok(_), Ok(_)) => (
                AppView {
                    frames: Seq::empty(),
                    is_recording: true,
                    capture_in_flight: false,
                    skipped_ticks: 0,
                    started_at: Some(now),
                    status: "Recording..."@,
                    ..s
                },
                ActionView::Nothing,
            ),
            (Err(e), _) => (AppView { status: e, ..s }, ActionView::Nothing),
            (_, Err(e)) => (AppView { status: e, ..s }, ActionView::Nothing),
        },
        Message::StopRecording => (
            AppView {
                is_recording: false,
                capture_in_flight: false,
                started_at: None,
                status: stopped_status(s.frames.len(), s.skipped_ticks),
                ..s
            },
            ActionView::Nothing,
        ),
        Message::ClearFrames => if s.is_recording || s.is_exporting {
            (AppView { status: "Cannot clear while recording/exporting"@, ..s }, ActionView::Nothing)
        } else {
            (
                AppView { frames: Seq::empty(), status: "Frame buffer cleared"@, ..s },
                ActionView::Nothing,
            )
        },
        Message::Tick => tick_step(s, now),
        Message::FrameCaptured(result) => match result {
            Ok(frame) => (
                AppView {
                    capture_in_flight: false,
                    frames: s.frames.push(frame),
                    status: recording_status(s.frames.len() + 1, s.skipped_ticks),
                    ..s
                },
                ActionView::Nothing,
            ),
            Err(err) => (
                AppView {
                    is_recording: false,
                    capture_in_flight: false,
                    started_at: None,
                    status: "Capture failed, stopped: "@ + err@,
                    ..s
                },
                ActionView::Nothing,
            ),
        },
        Message::ExportGif => match export_request_spec(s) {
            Err(e) => (AppView { status: e, ..s }, ActionView::Nothing),
            Ok(_) => (s, ActionView::ChooseOutputPath),
        },
        Message::OutputPathChosen { path } => match export_request_spec(s) {
            Err(e) => (AppView { status: e, ..s }, ActionView::Nothing),
            Ok(fps) => match path {
                None => (AppView { status: "Export cancelled"@, ..s }, ActionView::Nothing),
                Some(p) => (
                    AppView {
                        is_exporting: true,
                        frames: Seq::empty(),
                        status: exporting_status(s.frames.len()),
                        ..s
                    },
                    ActionView::EncodeGif { output_path: p@, frames: s.frames, fps },
                ),
            },
        },
        Message::ExportFinished(result) => match result {
            Ok(success) => (
                AppView {
                    is_exporting: false,
                    frames: success.frames@,
                    status: "Exported: "@ + success.output_path@,
                    ..s
                },
                ActionView::Nothing,
            ),
            Err(failure) => (
                AppView {
                    is_exporting: false,
                    frames: failure.frames@,
                    status: "Export failed: "@ + failure.message@,
                    ..s
                },
                ActionView::Nothing,
            ),
        },
    }
}

// ---------------------------------------------------------------------------
// The recorder
// ---------------------------------------------------------------------------

fn text(s: &str) -> (r: String)
    ensures
        r@ == s@,
{
    String::from_str(s)
}

fn count_text(n: usize) -> (r: String)
    ensures
        r@ == decimal(n as nat),
{
    decimal_string(n as u64)
}

impl RecordToGifApp {
    /// The recorder as it starts: a 800 by 500 region at (100, 100),
    /// 8 frames a second, at most 10 seconds, nothing recorded.
    pub fn new() -> (app: Self)
        ensures
            app@.region_x == "100"@,
            app@.region_y == "100"@,
            app@.region_width == "800"@,
            app@.region_height == "500"@,
            app@.fps == "8"@,
            app@.max_seconds == "10"@,
            !app@.is_recording,
            !app@.capture_in_flight,
            app@.skipped_ticks == 0,
            !app@.is_exporting,
            app@.frames.len() == 0,
            app@.status == "Ready: drag/resize window to update capture region"@,
            app@.started_at is None,
            app@.window_x == 100,
            app@.window_y == 100,
            app@.window_width == 800,
            app@.window_height == 500,
    {
        RecordToGifApp {
            region_x: text("100"),
            region_y: text("100"),
            region_width: text("800"),
            region_height: text("500"),
            fps: text("8"),
            max_seconds: text("10"),
            is_recording: false,
            capture_in_flight: false,
            skipped_ticks: 0,
            is_exporting: false,
            frames: Vec::new(),
            status: text("Ready: drag/resize window to update capture region"),
            started_at: None,
            window_x: 100,
            window_y: 100,
            window_width: 800,
            window_height: 500,
        }
    }

    /// The content area of a window, as `content_region` describes it.
    pub fn content_region_from_window(
        window_x: i32,
        window_y: i32,
        window_width: u32,
        window_height: u32,
    ) -> (r: CaptureRegion)
        ensures
            r == content_region(window_x, window_y, window_width, window_height),
    {
        let cx: i64 = window_x as i64 + CONTENT_OFFSET_X as i64;
        let cy: i64 = window_y as i64 + CONTENT_OFFSET_Y as i64;
        let w: i64 = window_width as i64 + CONTENT_WIDTH_DELTA as i64;
        let h: i64 = window_height as i64 + CONTENT_HEIGHT_DELTA as i64;
        CaptureRegion {
            x: if cx < 0 { 0 } else { cx as u32 },
            y: if cy < 0 { 0 } else { cy as u32 },
            width: if w < 1 || w > 0x7fff_ffff { 1 } else { w as u32 },
            height: if h < 1 || h > 0x7fff_ffff { 1 } else { h as u32 },
        }
    }

    /// Rewrites the region settings to the content area of the window.
    pub fn sync_region_from_window_geometry(&mut self)
        ensures
            final(self)@ == synced(old(self)@),
    {
        let region = Self::content_region_from_window(
            self.window_x,
            self.window_y,
            self.window_width,
            self.window_height,
        );
        self.region_x = decimal_string(region.x as u64);
        self.region_y = decimal_string(region.y as u64);
        self.region_width = decimal_string(region.width as u64);
        self.region_height = decimal_string(region.height as u64);
    }

    /// Reads the setting `value`, named `name`, as a non-negative integer.
    pub fn parse_u32(name: &str, value: &str) -> (r: Result<u32, String>)
        ensures
            r matches Ok(v) ==> parse_field(name@, value@) == Ok::<u32, Seq<char>>(v),
            r matches Err(e) ==> parse_field(name@, value@) == Err::<u32, Seq<char>>(e@),
    {
        match parse_trimmed_u32(value) {
            Some(v) => Ok(v),
            None => {
                let mut e = String::from_str(name);
                e.append(" must be a non-negative integer");
                Err(e)
            },
        }
    }

    /// The region the settings describe.
    pub fn parse_region(&self) -> (r: Result<CaptureRegion, String>)
        ensures
            r matches Ok(v) ==> parse_region_spec(self@) == Ok::<CaptureRegion, Seq<char>>(v),
            r matches Err(e) ==> parse_region_spec(self@) == Err::<CaptureRegion, Seq<char>>(
                e@,
            ),
    {
        let x = Self::parse_u32("x", self.region_x.as_str())?;
        let y = Self::parse_u32("y", self.region_y.as_str())?;
        let width = Self::parse_u32("width", self.region_width.as_str())?;
        let height = Self::parse_u32("height", self.region_height.as_str())?;
        CaptureRegion::new(x, y, width, height)
    }

    /// The frame rate setting.
    pub fn parse_fps(&self) -> (r: Result<u32, String>)
        ensures
            r matches Ok(v) ==> parse_fps_spec(self@.fps) == Ok::<u32, Seq<char>>(v),
            r matches Err(e) ==> parse_fps_spec(self@.fps) == Err::<u32, Seq<char>>(e@),
    {
        let fps = match parse_trimmed_u32(self.fps.as_str()) {
            Some(v) => v,
            None => return Err(text("FPS must be a positive integer")),
        };
        if fps == 0 || fps > 60 {
            return Err(text("FPS range should be 1..=60"));
        }
        Ok(fps)
    }

    /// The recording length setting, in seconds.
    pub fn parse_max_seconds(&self) -> (r: Result<u32, String>)
        ensures
            r matches Ok(v) ==> parse_max_seconds_spec(self@.max_seconds) == Ok::<u32, Seq<char>>(
                v,
            ),
            r matches Err(e) ==> parse_max_seconds_spec(self@.max_seconds) == Err::<
                u32,
                Seq<char>,
            >(e@),
    {
        let seconds = match parse_trimmed_u32(self.max_seconds.as_str()) {
            Some(v) => v,
            None => return Err(text("SEC must be a positive integer")),
        };
        if seconds == 0 || seconds > 300 {
            return Err(text("SEC range should be 1..=300"));
        }
        Ok(seconds)
    }

    /// Milliseconds between ticks while recording: one frame period at the
    /// frame rate setting, or 125 when that setting is not valid.
    pub fn tick_interval_ms(&self) -> (ms: u64)
        ensures
            ms == tick_interval_spec(self@.fps),
    {
        match self.parse_fps() {
            Ok(fps) => {
                if fps > 0 {
                    let f = if fps > 1 {
                        fps
                    } else {
                        1
                    };
                    let q = 1000 / f;
                    (if q > 1 {
                        q
                    } else {
                        1
                    }) as u64
                } else {
                    125
                }
            },
            Err(_) => 125,
        }
    }

    /// Whether ticks are wanted: only while recording.
    pub fn wants_ticks(&self) -> (b: bool)
        ensures
            b == self@.is_recording,
    {
        self.is_recording
    }

    /// Whether a recording may be started from the controls.
    pub fn can_start(&self) -> (b: bool)
        ensures
            b == (!self@.is_recording && !self@.is_exporting),
    {
        !self.is_recording && !self.is_exporting
    }

    /// Whether the recording may be stopped from the controls.
    pub fn can_stop(&self) -> (b: bool)
        ensures
            b == (self@.is_recording && !self@.is_exporting),
    {
        self.is_recording && !self.is_exporting
    }

    /// Whether an export may be asked for from the controls.
    pub fn can_export(&self) -> (b: bool)
        ensures
            b == (!self@.is_recording && !self@.is_exporting),
    {
        !self.is_recording && !self.is_exporting
    }

    /// Whether the frames may be cleared from the controls.
    pub fn can_clear(&self) -> (b: bool)
        ensures
            b == (!self@.is_recording && !self@.is_exporting),
    {
        !self.is_recording && !self.is_exporting
    }

    pub fn region_x(&self) -> (s: &String)
        ensures
            s@ == self@.region_x,
    {
        &self.region_x
    }

    pub fn region_y(&self) -> (s: &String)
        ensures
            s@ == self@.region_y,
    {
        &self.region_y
    }

    pub fn region_width(&self) -> (s: &String)
        ensures
            s@ == self@.region_width,
    {
        &self.region_width
    }

    pub fn region_height(&self) -> (s: &String)
        ensures
            s@ == self@.region_height,
    {
        &self.region_height
    }

    pub fn fps(&self) -> (s: &String)
        ensures
            s@ == self@.fps,
    {
        &self.fps
    }

    pub fn max_seconds(&self) -> (s: &String)
        ensures
            s@ == self@.max_seconds,
    {
        &self.max_seconds
    }

    pub fn status(&self) -> (s: &String)
        ensures
            s@ == self@.status,
    {
        &self.status
    }

    pub fn frames(&self) -> (f: &Vec<CapturedFrame>)
        ensures
            f@ == self@.frames,
    {
        &self.frames
    }

    pub fn is_recording(&self) -> (b: bool)
        ensures
            b == self@.is_recording,
    {
        self.is_recording
    }

    pub fn is_exporting(&self) -> (b: bool)
        ensures
            b == self@.is_exporting,
    {
        self.is_exporting
    }

    pub fn capture_in_flight(&self) -> (b: bool)
        ensures
            b == self@.capture_in_flight,
    {
        self.capture_in_flight
    }

    pub fn skipped_ticks(&self) -> (n: u64)
        ensures
            n == self@.skipped_ticks,
    {
        self.skipped_ticks
    }

    fn export_request(&self) -> (r: Result<u32, String>)
        ensures
            r matches Ok(v) ==> export_request_spec(self@) == Ok::<u32, Seq<char>>(v),
            r matches Err(e) ==> export_request_spec(self@) == Err::<u32, Seq<char>>(e@),
    {
        if self.frames.len() == 0 {
            return Err(text("No frames to export. Record first."));
        }
        if self.is_recording {
            return Err(text("Stop recording before export"));
        }
        self.parse_fps()
    }

    fn on_tick(&mut self, now: u64) -> (action: Action)
        ensures
            (final(self)@, action@) == tick_step(old(self)@, now),
    {
        if !self.is_recording {
            return Action::Nothing;
        }
        if self.capture_in_flight {
            self.skipped_ticks = self.skipped_ticks.saturating_add(1);
            return Action::Nothing;
        }
        if let Some(started) = self.started_at {
            if let Ok(max_seconds) = self.parse_max_seconds() {
                let elapsed = if now >= started {
                    (now - started) / NANOS_PER_SEC
                } else {
                    0
                };
                if elapsed >= max_seconds as u64 {
                    self.is_recording = false;
                    self.started_at = None;
                    let mut status = text("Auto-stopped at ");
                    status.append(decimal_string(max_seconds as u64).as_str());
                    status.append("s, total ");
                    status.append(count_text(self.frames.len()).as_str());
                    status.append(" frames");
                    self.status = status;
                    return Action::Nothing;
                }
            }
        }
        match self.parse_region() {
            Ok(region) => {
                self.capture_in_flight = true;
                Action::CaptureFrame(region)
            },
            Err(err) => {
                self.is_recording = false;
                self.status = err;
                Action::Nothing
            },
        }
    }

    /// Handles one message received at monotonic clock reading `now`
    /// (nanoseconds), and says what the caller must do next.
    pub fn update(&mut self, message: Message, now: u64) -> (action: Action)
        ensures
            (final(self)@, action@) == step(old(self)@, message, now),
    {
        match message {
            Message::RegionXChanged(value) => self.region_x = value,
            Message::RegionYChanged(value) => self.region_y = value,
            Message::RegionWidthChanged(value) => self.region_width = value,
            Message::RegionHeightChanged(value) => self.region_height = value,
            Message::FpsChanged(value) => self.fps = value,
            Message::MaxSecondsChanged(value) => self.max_seconds = value,
            Message::WindowOpened { x, y, width, height } => {
                self.window_x = x;
                self.window_y = y;
                self.window_width = width;
                self.window_height = height;
                self.sync_region_from_window_geometry();
            },
            Message::WindowMoved { x, y } => {
                self.window_x = x;
                self.window_y = y;
                self.sync_region_from_window_geometry();
            },
            Message::WindowResized { width, height } => {
                self.window_width = width;
                self.window_height = height;
                self.sync_region_from_window_geometry();
            },
            Message::StartRecording => match (self.parse_region(), self.parse_max_seconds()) {
                (Ok(_), Ok(_)) => {
                    self.frames = Vec::new();
                    self.is_recording = true;
                    self.capture_in_flight = false;
                    self.skipped_ticks = 0;
                    self.started_at = Some(now);
                    self.status = text("Recording...");
                },
                (Err(err), _) => self.status = err,
                (_, Err(err)) => self.status = err,
            },
            Message::StopRecording => {
                self.is_recording = false;
                self.capture_in_flight = false;
                self.started_at = None;
                let mut status = text("Recording stopped, total ");
                status.append(count_text(self.frames.len()).as_str());
                status.append(" frames (skipped ");
                status.append(decimal_string(self.skipped_ticks).as_str());
                status.append(" ticks)");
                self.status = status;
            },
            Message::ClearFrames => {
                if self.is_recording || self.is_exporting {
                    self.status = text("Cannot clear while recording/exporting");
                } else {
                    self.frames = Vec::new();
                    self.status = text("Frame buffer cleared");
                }
            },
            Message::Tick => {
                return self.on_tick(now);
            },
            Message::FrameCaptured(result) => match result {
                Ok(frame) => {
                    self.capture_in_flight = false;
                    self.frames.push(frame);
                    let mut status = text("Recording... ");
                    status.append(count_text(self.frames.len()).as_str());
                    status.append(" frames (skipped ");
                    status.append(decimal_string(self.skipped_ticks).as_str());
                    status.append(" ticks)");
                    self.status = status;
                },
                Err(err) => {
                    self.is_recording = false;
                    self.capture_in_flight = false;
                    self.started_at = None;
                    let mut status = text("Capture failed, stopped: ");
                    status.append(err.as_str());
                    self.status = status;
                },
            },
            Message::ExportGif => {
                return match self.export_request() {
                    Ok(_) => Action::ChooseOutputPath,
                    Err(err) => {
                        self.status = err;
                        Action::Nothing
                    },
                };
            },
            Message::OutputPathChosen { path } => {
                let fps = match self.export_request() {
                    Ok(fps) => fps,
                    Err(err) => {
                        self.status = err;
                        return Action::Nothing;
                    },
                };
                match path {
                None => self.status = text("Export cancelled"),
                Some(output_path) => {
                    self.is_exporting = true;
                    let frame_count = self.frames.len();
                    let mut frames: Vec<CapturedFrame> = Vec::new();
                    std::mem::swap(&mut frames, &mut self.frames);
                    let mut status = text("Exporting GIF... ");
                    status.append(count_text(frame_count).as_str());
                    status.append(" frames");
                    self.status = status;
                    return Action::EncodeGif { output_path, frames, fps };
                },
                }
            },
            Message::ExportFinished(result) => {
                self.is_exporting = false;
                match result {
                    Ok(success) => {
                        self.frames = success.frames;
                        let mut status = text("Exported: ");
                        status.append(success.output_path.as_str());
                        self.status = status;
                    },
                    Err(failure) => {
                        self.frames = failure.frames;
                        let mut status = text("Export failed: ");
                        status.append(failure.message.as_str());
                        self.status = status;
                    },
                }
            },
        }
        Action::Nothing
    }
}

} // verus!
