use vstd::prelude::*;

use crate::recorder::{
    content_region, elapsed_secs, export_request_spec, parse_field, parse_fps_spec, parse_max_seconds_spec,
    parse_region_spec, step, tick_interval_spec, ActionView, AppView, Message,
};
use crate::encoder::{encodable, EncodeFailure, EncodeSuccess};
use crate::text::{all_white_space, decimal, lemma_parse_decimal, lemma_parse_padded_decimal};
use crate::types::CapturedFrame;
use crate::types::CaptureRegion;

verus! {

proof fn lemma_parse_field_decimal(name: Seq<char>, v: u32)
    ensures
        parse_field(name, decimal(v as nat)) == Ok::<u32, Seq<char>>(v),
{
    lemma_parse_decimal(v);
}

/// Moving, resizing or opening the window makes the region settings read
/// back as the window's content area.
pub proof fn lemma_window_sets_region(s: AppView, m: Message, now: u64)
    requires
        (m is WindowOpened) || (m is WindowMoved) || (m is WindowResized),
    ensures
        ({
            let t = step(s, m, now).0;
            parse_region_spec(t) == Ok::<CaptureRegion, Seq<char>>(
                content_region(t.window_x, t.window_y, t.window_width, t.window_height),
            )
        }),
{
    let t = step(s, m, now).0;
    let r = content_region(t.window_x, t.window_y, t.window_width, t.window_height);
    lemma_parse_field_decimal("x"@, r.x);
    lemma_parse_field_decimal("y"@, r.y);
    lemma_parse_field_decimal("width"@, r.width);
    lemma_parse_field_decimal("height"@, r.height);
}

/// A capture is only ever in flight during a recording: every message
/// keeps that so.
pub proof fn lemma_in_flight_only_while_recording(s: AppView, m: Message, now: u64)
    requires
        s.capture_in_flight ==> s.is_recording,
    ensures
        step(s, m, now).0.capture_in_flight ==> step(s, m, now).0.is_recording,
{
}

/// At most one capture is asked for at a time: a capture is asked for only
/// by a tick during a recording with no capture in flight, and it leaves
/// one in flight.
pub proof fn lemma_one_capture_at_a_time(s: AppView, m: Message, now: u64)
    ensures
        (step(s, m, now).1 is CaptureFrame) ==> {
            &&& m is Tick
            &&& s.is_recording
            &&& !s.capture_in_flight
            &&& step(s, m, now).0.capture_in_flight
        },
{
}

/// A tick that comes while a capture is in flight only counts as skipped.
pub proof fn lemma_busy_tick_is_skipped(s: AppView, now: u64)
    requires
        s.is_recording,
        s.capture_in_flight,
    ensures
        (step(s, Message::Tick, now).1 is Nothing),
        step(s, Message::Tick, now).0 == (AppView {
            skipped_ticks: s.skipped_ticks.saturating_add(1),
            ..s
        }),
{
}

/// A recording stops by itself at the first tick once the set number of
/// seconds has passed, and keeps its frames.
pub proof fn lemma_recording_stops_at_limit(s: AppView, started: u64, seconds: u32, now: u64)
    requires
        s.is_recording,
        !s.capture_in_flight,
        s.started_at == Some(started),
        parse_max_seconds_spec(s.max_seconds) == Ok::<u32, Seq<char>>(seconds),
        elapsed_secs(started, now) >= seconds,
    ensures
        !step(s, Message::Tick, now).0.is_recording,
        step(s, Message::Tick, now).0.frames == s.frames,
        (step(s, Message::Tick, now).1 is Nothing),
{
}

/// Before the limit, each tick of an idle recording asks for one capture
/// of the region the settings describe.
pub proof fn lemma_tick_captures_before_limit(
    s: AppView,
    started: u64,
    seconds: u32,
    region: CaptureRegion,
    now: u64,
)
    requires
        s.is_recording,
        !s.capture_in_flight,
        s.started_at == Some(started),
        parse_max_seconds_spec(s.max_seconds) == Ok::<u32, Seq<char>>(seconds),
        elapsed_secs(started, now) < seconds,
        parse_region_spec(s) == Ok::<CaptureRegion, Seq<char>>(region),
    ensures
        step(s, Message::Tick, now).1 == ActionView::CaptureFrame(region),
        step(s, Message::Tick, now).0.is_recording,
        step(s, Message::Tick, now).0.frames == s.frames,
{
}

/// The frames handed to an export come back to the recorder when the
/// export finishes, whether it succeeded or failed.
pub proof fn lemma_export_returns_frames(
    s: AppView,
    path: String,
    fps: u32,
    result: Result<EncodeSuccess, EncodeFailure>,
    now: u64,
    later: u64,
)
    requires
        export_request_spec(s) == Ok::<u32, Seq<char>>(fps),
        match result {
            Ok(ok) => ok.frames@ == s.frames,
            Err(fail) => fail.frames@ == s.frames,
        },
    ensures
        ({
            let (mid, action) = step(
                s,
                Message::OutputPathChosen { path: Some(path) },
                now,
            );
            &&& action == ActionView::EncodeGif { output_path: path@, frames: s.frames, fps }
            &&& mid.is_exporting
            &&& mid.frames.len() == 0
            &&& step(mid, Message::ExportFinished(result), later).0.frames == s.frames
            &&& !step(mid, Message::ExportFinished(result), later).0.is_exporting
        }),
{
}

/// A save path is asked for, and an encoding started, only with frames,
/// outside a recording, and with a valid frame rate, which the encoding
/// uses; a path that arrives otherwise starts nothing.
pub proof fn lemma_export_needs_frames(s: AppView, path: Option<String>, now: u64)
    ensures
        (step(s, Message::ExportGif, now).1 is ChooseOutputPath) <==> (s.frames.len() > 0
            && !s.is_recording && (parse_fps_spec(s.fps) is Ok)),
        (step(s, Message::OutputPathChosen { path }, now).1 is EncodeGif) <==> (s.frames.len()
            > 0 && !s.is_recording && (parse_fps_spec(s.fps) is Ok) && (path is Some)),
        step(s, Message::OutputPathChosen { path }, now).1 matches ActionView::EncodeGif {
            fps,
            ..
        } ==> parse_fps_spec(s.fps) == Ok::<u32, Seq<char>>(fps),
{
}

/// Frames are never cleared during a recording or an export.
pub proof fn lemma_clear_waits(s: AppView, now: u64)
    ensures
        s.is_recording || s.is_exporting ==> step(s, Message::ClearFrames, now).0.frames
            == s.frames,
        !s.is_recording && !s.is_exporting ==> step(s, Message::ClearFrames, now).0.frames.len()
            == 0,
{
}

/// A recording starts exactly when the region and length settings are
/// valid, and then starts with no frames.
pub proof fn lemma_start_needs_valid_settings(s: AppView, now: u64)
    ensures
        step(s, Message::StartRecording, now).0.is_recording <==> (s.is_recording || (
        (parse_region_spec(s) is Ok) && (parse_max_seconds_spec(s.max_seconds) is Ok))),
        (parse_region_spec(s) is Ok) && (parse_max_seconds_spec(s.max_seconds) is Ok) ==> {
            &&& step(s, Message::StartRecording, now).0.frames.len() == 0
            &&& step(s, Message::StartRecording, now).0.started_at == Some(now)
        },
{
}

/// The frame rate setting accepts exactly the integers from 1 to 60, and
/// ticks then come every `1000 / fps` milliseconds.
pub proof fn lemma_fps_range(text: Seq<char>, v: u32)
    ensures
        parse_fps_spec(text) matches Ok(f) ==> 1 <= f <= 60,
        1 <= v <= 60 ==> parse_fps_spec(decimal(v as nat)) == Ok::<u32, Seq<char>>(v),
        1 <= v <= 60 ==> tick_interval_spec(decimal(v as nat)) == (1000u32 / v) as u64,
        !(1 <= v <= 60) ==> (parse_fps_spec(decimal(v as nat)) is Err),
{
    lemma_parse_decimal(v);
    if 1 <= v <= 60 {
        assert(1000u32 / v >= 16) by (nonlinear_arith)
            requires
                1 <= v <= 60,
        ;
    }
}

/// The recording length setting accepts exactly the integers from 1 to 300.
pub proof fn lemma_max_seconds_range(text: Seq<char>, v: u32)
    ensures
        parse_max_seconds_spec(text) matches Ok(n) ==> 1 <= n <= 300,
        1 <= v <= 300 ==> parse_max_seconds_spec(decimal(v as nat)) == Ok::<u32, Seq<char>>(v),
        !(1 <= v <= 300) ==> (parse_max_seconds_spec(decimal(v as nat)) is Err),
{
    lemma_parse_decimal(v);
}

/// During a recording the frames only grow, one captured frame at a time
/// and in order; only a restart or an export takes them away.
pub proof fn lemma_recording_keeps_frames(s: AppView, m: Message, now: u64)
    requires
        s.is_recording,
        !(m is StartRecording),
        !(m is OutputPathChosen),
        !(m is ExportFinished),
    ensures
        match m {
            Message::FrameCaptured(Ok(f)) => step(s, m, now).0.frames == s.frames.push(f),
            _ => step(s, m, now).0.frames == s.frames,
        },
{
}

/// A setting that holds a number as `to_string` writes it, with any white
/// space around it, reads back as that number.
pub proof fn lemma_setting_reads_back(name: Seq<char>, n: u32, before: Seq<char>, after: Seq<char>)
    requires
        all_white_space(before),
        all_white_space(after),
    ensures
        parse_field(name, before + decimal(n as nat) + after) == Ok::<u32, Seq<char>>(n),
{
    lemma_parse_padded_decimal(n, before, after);
}

/// Every frame has four bytes per pixel.
pub open spec fn all_well_formed(frames: Seq<CapturedFrame>) -> bool {
    forall|i: int| 0 <= i < frames.len() ==> (#[trigger] frames[i]).well_formed()
}

/// A message brings only frames with four bytes per pixel.
pub open spec fn brings_whole_frames(m: Message) -> bool {
    match m {
        Message::FrameCaptured(Ok(f)) => f.well_formed(),
        Message::ExportFinished(Ok(ok)) => all_well_formed(ok.frames@),
        Message::ExportFinished(Err(fail)) => all_well_formed(fail.frames@),
        _ => true,
    }
}

/// When captured frames have four bytes per pixel (as `decode_captured_frame`
/// ensures), the recorder keeps only such frames, and an encoding it asks
/// for gets frames the encoder accepts.
pub proof fn lemma_frames_stay_encodable(s: AppView, m: Message, now: u64)
    requires
        all_well_formed(s.frames),
        brings_whole_frames(m),
    ensures
        all_well_formed(step(s, m, now).0.frames),
        step(s, m, now).1 matches ActionView::EncodeGif { frames, .. } ==> encodable(frames),
{
    let t = step(s, m, now).0;
    match m {
        Message::FrameCaptured(Ok(f)) => {
            assert forall|i: int| 0 <= i < t.frames.len() implies (#[trigger] t.frames[i]).well_formed() by {
                if i < s.frames.len() {
                    assert(t.frames[i] == s.frames[i]);
                }
            }
        },
        _ => {},
    }
}

/// The window geometry the recorder holds is the one the last window
/// message reported: opening sets all of it, moving sets the position,
/// resizing sets the size, and every other message leaves it alone.
pub proof fn lemma_window_geometry_follows_messages(s: AppView, m: Message, now: u64)
    ensures
        ({
            let t = step(s, m, now).0;
            match m {
                Message::WindowOpened { x, y, width, height } => t.window_x == x && t.window_y == y
                    && t.window_width == width && t.window_height == height,
                Message::WindowMoved { x, y } => t.window_x == x && t.window_y == y
                    && t.window_width == s.window_width && t.window_height == s.window_height,
                Message::WindowResized { width, height } => t.window_x == s.window_x
                    && t.window_y == s.window_y && t.window_width == width && t.window_height
                    == height,
                _ => t.window_x == s.window_x && t.window_y == s.window_y && t.window_width
                    == s.window_width && t.window_height == s.window_height,
            }
        }),
{
}

/// One side of the captured region for a window side: the side itself
/// when it is from 1 to `i32::MAX`, else 1.
pub open spec fn side_for(v: u32) -> int {
    if 1 <= v <= 0x7fff_ffff {
        v as int
    } else {
        1
    }
}

/// After a window message the region settings read back as the window's
/// position (negative coordinates as 0) and size (an empty or oversized
/// side as 1), taken from the message and, for what it does not report,
/// from the window as it was.
pub proof fn lemma_window_message_sets_region(s: AppView, m: Message, now: u64)
    requires
        (m is WindowOpened) || (m is WindowMoved) || (m is WindowResized),
    ensures
        ({
            let (x, y, w, h) = match m {
                Message::WindowOpened { x, y, width, height } => (x, y, width, height),
                Message::WindowMoved { x, y } => (x, y, s.window_width, s.window_height),
                Message::WindowResized { width, height } => (
                    s.window_x,
                    s.window_y,
                    width,
                    height,
                ),
                _ => (0i32, 0i32, 0u32, 0u32),
            };
            parse_region_spec(step(s, m, now).0) matches Ok(r) && r.x as int == (if x < 0 {
                0
            } else {
                x as int
            }) && r.y as int == (if y < 0 {
                0
            } else {
                y as int
            }) && r.width as int == side_for(w) && r.height as int == side_for(h)
        }),
{
    lemma_window_sets_region(s, m, now);
    lemma_window_geometry_follows_messages(s, m, now);
}

/// `elapsed_secs` counts the whole seconds in the nanoseconds from
/// `started` to `now`, and is 0 when the clock reads earlier.
pub proof fn lemma_elapsed_whole_seconds(started: u64, now: u64)
    ensures
        now >= started ==> elapsed_secs(started, now) * 1_000_000_000 <= now - started < (
        elapsed_secs(started, now) + 1) * 1_000_000_000,
        now < started ==> elapsed_secs(started, now) == 0,
{
}

/// A tick during an idle recording stops it exactly when at least the set
/// number of seconds, in nanoseconds of the clock, has passed since the
/// start; otherwise it asks for a capture of the region.
pub proof fn lemma_tick_limit_in_nanoseconds(
    s: AppView,
    started: u64,
    seconds: u32,
    region: CaptureRegion,
    now: u64,
)
    requires
        s.is_recording,
        !s.capture_in_flight,
        s.started_at == Some(started),
        parse_max_seconds_spec(s.max_seconds) == Ok::<u32, Seq<char>>(seconds),
        now >= started,
    ensures
        now - started >= seconds as int * 1_000_000_000 ==> {
            &&& !step(s, Message::Tick, now).0.is_recording
            &&& step(s, Message::Tick, now).0.started_at is None
            &&& step(s, Message::Tick, now).0.frames == s.frames
            &&& step(s, Message::Tick, now).0.status == "Auto-stopped at "@ + decimal(
                seconds as nat,
            ) + "s, total "@ + decimal(s.frames.len()) + " frames"@
            &&& (step(s, Message::Tick, now).1 is Nothing)
        },
        now - started < seconds as int * 1_000_000_000 && parse_region_spec(s) == Ok::<
            CaptureRegion,
            Seq<char>,
        >(region) ==> {
            &&& step(s, Message::Tick, now).0.is_recording
            &&& step(s, Message::Tick, now).0.capture_in_flight
            &&& step(s, Message::Tick, now).1 == ActionView::CaptureFrame(region)
        },
{
    lemma_elapsed_whole_seconds(started, now);
}

/// Asking to export changes nothing but the status line; when it goes on
/// to ask for a save path it changes nothing at all.
pub proof fn lemma_export_request_changes_only_status(s: AppView, now: u64)
    ensures
        step(s, Message::ExportGif, now).0 == (AppView {
            status: step(s, Message::ExportGif, now).0.status,
            ..s
        }),
        (step(s, Message::ExportGif, now).1 is ChooseOutputPath) ==> step(
            s,
            Message::ExportGif,
            now,
        ).0 == s,
{
}

/// A cancelled save dialog changes nothing but the status line and starts
/// nothing.
pub proof fn lemma_cancelled_path_changes_only_status(s: AppView, now: u64)
    ensures
        step(s, Message::OutputPathChosen { path: None }, now).0 == (AppView {
            status: step(s, Message::OutputPathChosen { path: None }, now).0.status,
            ..s
        }),
        (step(s, Message::OutputPathChosen { path: None }, now).1 is Nothing),
{
}

/// An export is under way exactly from the message that hands the frames
/// to the encoder until the message that reports the result: no other
/// message starts one, and only the result ends one.
pub proof fn lemma_exporting_follows_encoding(s: AppView, m: Message, now: u64)
    ensures
        !s.is_exporting && step(s, m, now).0.is_exporting ==> (step(s, m, now).1 is EncodeGif),
        (step(s, m, now).1 is EncodeGif) ==> step(s, m, now).0.is_exporting,
        s.is_exporting && !step(s, m, now).0.is_exporting ==> (m is ExportFinished),
        (m is ExportFinished) ==> !step(s, m, now).0.is_exporting,
{
}

/// A recording starts only on the start message.
pub proof fn lemma_recording_starts_only_on_start(s: AppView, m: Message, now: u64)
    ensures
        !s.is_recording && step(s, m, now).0.is_recording ==> (m is StartRecording),
{
}

/// Stopping ends the recording and any capture in flight, forgets the
/// start time, keeps the frames and starts nothing.
pub proof fn lemma_stop_ends_recording(s: AppView, now: u64)
    ensures
        !step(s, Message::StopRecording, now).0.is_recording,
        !step(s, Message::StopRecording, now).0.capture_in_flight,
        step(s, Message::StopRecording, now).0.started_at is None,
        step(s, Message::StopRecording, now).0.frames == s.frames,
        (step(s, Message::StopRecording, now).1 is Nothing),
{
}

} // verus!
