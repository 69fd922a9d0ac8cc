use vstd::prelude::*;

use crate::types::CapturedFrame;

verus! {

// ---------------------------------------------------------------------------
// The outside GIF encoder
// ---------------------------------------------------------------------------

/// A `gif::Encoder` writing into a growing in-memory buffer; `gif_written`
/// names the bytes in that buffer.
#[verifier::external_body]
pub struct GifStream {
    encoder: gif::Encoder<Vec<u8>>,
}

#[verifier::external_type_specification]
#[verifier::external_body]
pub struct ExGifEncodingError(gif::EncodingError);

#[verifier::external_type_specification]
#[verifier::external_body]
pub struct ExIoError(std::io::Error);

/// The bytes a GIF encoder writing into memory has written so far.
pub uninterp spec fn gif_written(stream: GifStream) -> Seq<u8>;

/// The bytes `Encoder::write_frame` writes for the frame that
/// `Frame::from_rgba_speed(width, height, rgba, speed)` builds from RGBA
/// pixels, once its delay is set to `delay` hundredths of a second: the
/// graphic control extension, image descriptor, local palette and
/// LZW-compressed pixel indices.
pub uninterp spec fn rgba_frame_block(
    width: u16,
    height: u16,
    rgba: Seq<u8>,
    speed: i32,
    delay: u16,
) -> Seq<u8>;

/// A 16-bit value, least significant byte first.
pub open spec fn le16(v: u16) -> Seq<u8> {
    seq![(v % 256) as u8, (v / 256) as u8]
}

/// The GIF signature and logical screen descriptor for a `width` by
/// `height` canvas without a global palette: the palette flag is set with
/// an empty two-entry table, as the `gif` crate writes it.
pub open spec fn gif_screen_header(width: u16, height: u16) -> Seq<u8> {
    seq![0x47u8, 0x49, 0x46, 0x38, 0x39, 0x61] + le16(width) + le16(height) + seq![
        0x80u8,
        0,
        0,
        0,
        0,
        0,
        0,
        0,
        0,
    ]
}

/// The NETSCAPE2.0 application extension that makes a GIF loop forever.
pub open spec fn gif_loop_forever_block() -> Seq<u8> {
    seq![
        0x21u8,
        0xff,
        0x0b,
        0x4e,
        0x45,
        0x54,
        0x53,
        0x43,
        0x41,
        0x50,
        0x45,
        0x32,
        0x2e,
        0x30,
        0x03,
        0x01,
        0x00,
        0x00,
        0x00,
    ]
}

/// The GIF trailer byte.
pub open spec fn gif_trailer() -> Seq<u8> {
    seq![0x3bu8]
}

/// `gif::Encoder::new(Vec::new(), width, height, &[])`: a GIF encoder
/// writing into memory, with no global palette. With an empty palette and
/// a `Vec` to write into it does not fail; it writes the signature and the
/// screen descriptor.
#[verifier::external_body]
fn gif_encoder_new(width: u16, height: u16) -> (r: Result<GifStream, gif::EncodingError>)
    ensures
        r is Ok,
        r matches Ok(e) ==> gif_written(e) == gif_screen_header(width, height),
{
    match gif::Encoder::new(Vec::new(), width, height, &[]) {
        Ok(encoder) => Ok(GifStream { encoder }),
        Err(e) => Err(e),
    }
}

/// `Encoder::set_repeat(Repeat::Infinite)`: writing into memory it does
/// not fail, and appends the looping extension.
#[verifier::external_body]
fn gif_loop_forever(stream: &mut GifStream) -> (r: Result<(), gif::EncodingError>)
    ensures
        r is Ok,
        gif_written(*final(stream)) == gif_written(*old(stream)) + gif_loop_forever_block(),
{
    stream.encoder.set_repeat(gif::Repeat::Infinite)
}

/// `Frame::from_rgba_speed(width, height, pixels, speed)` on a copy of
/// `rgba`, its delay set to `delay`, then `Encoder::write_frame` of that
/// frame. `from_rgba_speed` panics unless there are four bytes per pixel
/// and `speed` is in 1..=30; the frame it builds always has a palette of at
/// most 256 colours and one index per pixel, so writing it into memory does
/// not fail (short of the buffer's allocation failing), and appends its
/// block.
#[verifier::external_body]
fn gif_write_rgba_frame(
    stream: &mut GifStream,
    width: u16,
    height: u16,
    rgba: &[u8],
    speed: i32,
    delay: u16,
) -> (r: Result<(), gif::EncodingError>)
    requires
        rgba@.len() == width as int * height as int * 4,
        1 <= speed <= 30,
    ensures
        r is Ok,
        gif_written(*final(stream)) == gif_written(*old(stream)) + rgba_frame_block(
            width,
            height,
            rgba@,
            speed,
            delay,
        ),
{
    let mut pixels = rgba.to_vec();
    let mut frame = gif::Frame::from_rgba_speed(width, height, &mut pixels, speed);
    frame.delay = delay;
    stream.encoder.write_frame(&frame)
}

/// `Encoder::into_inner()`: writing into memory it does not fail; it writes
/// the trailer and hands back the bytes.
#[verifier::external_body]
fn gif_finish(stream: GifStream) -> (r: Result<Vec<u8>, std::io::Error>)
    ensures
        r is Ok,
        r matches Ok(bytes) ==> bytes@ == gif_written(stream) + gif_trailer(),
{
    stream.encoder.into_inner()
}

/// The `Display` text of a GIF encoding error. Nothing is claimed of it.
#[verifier::external_body]
fn gif_error_text(e: &gif::EncodingError) -> String {
    format!("{e}")
}

/// The `Display` text of an I/O error. Nothing is claimed of it.
#[verifier::external_body]
fn io_error_text(e: &std::io::Error) -> String {
    format!("{e}")
}

// ---------------------------------------------------------------------------
// Export results
// ---------------------------------------------------------------------------

/// A finished export: where the GIF went, and the frames it was made of.
#[derive(Debug, Clone)]
pub struct EncodeSuccess {
    pub output_path: String,
    pub frames: Vec<CapturedFrame>,
}

/// A failed export: why it failed, and the frames it was given back.
#[derive(Debug, Clone)]
pub struct EncodeFailure {
    pub message: String,
    pub frames: Vec<CapturedFrame>,
}

/// Why an export failed.
#[derive(Debug, Clone)]
pub enum EncodeError {
    NoFrames,
    ZeroFps,
    /// The output file could not be created; the text of the I/O error.
    CreateFile(String),
    /// The encoder could not start; the text of its error.
    InitEncoder(String),
    /// The looping extension could not be written; the text of the error.
    SetRepeat(String),
    /// A frame differs in size from the first one.
    InconsistentFrameSizes,
    /// A frame or the finished GIF could not be written; the text of the error.
    WriteFrame(String),
}

/// The message shown for an export error.
pub open spec fn encode_error_message(e: EncodeError) -> Seq<char> {
    match e {
        EncodeError::NoFrames => "No frames to export"@,
        EncodeError::ZeroFps => "FPS must be greater than 0"@,
        EncodeError::CreateFile(t) => "Create output file failed: "@ + t@,
        EncodeError::InitEncoder(t) => "Init GIF encoder failed: "@ + t@,
        EncodeError::SetRepeat(t) => "Set repeat mode failed: "@ + t@,
        EncodeError::InconsistentFrameSizes => "Frame sizes are inconsistent"@,
        EncodeError::WriteFrame(t) => "Write GIF frame failed: "@ + t@,
    }
}

fn text_of(s: &str) -> (r: String)
    ensures
        r@ == s@,
{
    String::from_str(s)
}

fn prefixed(prefix: &str, detail: &String) -> (r: String)
    ensures
        r@ == prefix@ + detail@,
{
    let mut r = String::from_str(prefix);
    r.append(detail.as_str());
    r
}

impl EncodeError {
    /// The message shown for this error.
    pub fn message(&self) -> (m: String)
        ensures
            m@ == encode_error_message(*self),
    {
        match self {
            EncodeError::NoFrames => text_of("No frames to export"),
            EncodeError::ZeroFps => text_of("FPS must be greater than 0"),
            EncodeError::CreateFile(t) => prefixed("Create output file failed: ", t),
            EncodeError::InitEncoder(t) => prefixed("Init GIF encoder failed: ", t),
            EncodeError::SetRepeat(t) => prefixed("Set repeat mode failed: ", t),
            EncodeError::InconsistentFrameSizes => text_of("Frame sizes are inconsistent"),
            EncodeError::WriteFrame(t) => prefixed("Write GIF frame failed: ", t),
        }
    }
}

/// What an export hands back: the frames it was given, with the path on
/// success or the error's message on failure.
pub fn export_result(
    output_path: String,
    frames: Vec<CapturedFrame>,
    outcome: Result<(), EncodeError>,
) -> (r: Result<EncodeSuccess, EncodeFailure>)
    ensures
        outcome is Ok ==> r == Ok::<EncodeSuccess, EncodeFailure>(
            EncodeSuccess { output_path, frames },
        ),
        outcome matches Err(e) ==> (r matches Err(f) && f.frames == frames && f.message@
            == encode_error_message(e)),
{
    match outcome {
        Ok(()) => Ok(EncodeSuccess { output_path, frames }),
        Err(e) => Err(EncodeFailure { message: e.message(), frames }),
    }
}

// ---------------------------------------------------------------------------
// Encoding a recording
// ---------------------------------------------------------------------------

/// The quantization speed handed to the `gif` crate (1 is slowest, 30 fastest).
pub const QUANTIZE_SPEED: i32 = 10;

/// Hundredths of a second per frame at `fps` frames a second: `100 / fps`
/// rounded to the nearest integer (halves up), and at least 1.
pub open spec fn frame_delay_spec(fps: u32) -> u16 {
    let d = (200 + fps as int) / (2 * fps as int);
    if d < 1 {
        1
    } else {
        d as u16
    }
}

/// The delay of each frame, in hundredths of a second, at `fps` frames a second.
pub fn frame_delay(fps: u32) -> (d: u16)
    requires
        fps > 0,
    ensures
        d == frame_delay_spec(fps),
        1 <= d <= 100,
{
    let f = fps as u64;
    let q = (200 + f) / (2 * f);
    assert(q <= 100) by (nonlinear_arith)
        requires
            f >= 1,
            q == (200 + f) / (2 * f),
    ;
    if q < 1 {
        1
    } else {
        q as u16
    }
}

/// Two frames have the same size.
pub open spec fn same_size(a: CapturedFrame, b: CapturedFrame) -> bool {
    a.width == b.width && a.height == b.height
}

/// Frames `0..=i` all have the size of frame 0.
pub open spec fn sizes_agree_through(frames: Seq<CapturedFrame>, i: int) -> bool {
    forall|j: int| 0 <= j <= i ==> same_size(#[trigger] frames[j], frames[0])
}

/// Every frame that the encoder reaches (one with only frames of the
/// first frame's size before it) has four bytes per pixel.
pub open spec fn encodable(frames: Seq<CapturedFrame>) -> bool {
    forall|i: int|
        0 <= i < frames.len() && #[trigger] sizes_agree_through(frames, i)
            ==> frames[i].well_formed()
}

/// The frame blocks for `frames`, each at `width` by `height` with `delay`.
pub open spec fn frame_blocks(frames: Seq<CapturedFrame>, width: u16, height: u16, delay: u16) -> Seq<
    u8,
>
    decreases frames.len(),
{
    if frames.len() == 0 {
        Seq::empty()
    } else {
        frame_blocks(frames.drop_last(), width, height, delay) + rgba_frame_block(
            width,
            height,
            frames.last().rgba@,
            QUANTIZE_SPEED,
            delay,
        )
    }
}

/// The GIF bytes for the first `k` frames of a recording, each at the size
/// of the first frame: header, loop extension, frame blocks, trailer.
pub open spec fn gif_prefix(frames: Seq<CapturedFrame>, k: int, fps: u32) -> Seq<u8> {
    let w = frames[0].width;
    let h = frames[0].height;
    gif_screen_header(w, h) + gif_loop_forever_block() + frame_blocks(
        frames.take(k),
        w,
        h,
        frame_delay_spec(fps),
    ) + gif_trailer()
}

/// The GIF file for a whole recording.
pub open spec fn gif_file(frames: Seq<CapturedFrame>, fps: u32) -> Seq<u8> {
    gif_prefix(frames, frames.len() as int, fps)
}

/// All frames have the size of the first one.
pub open spec fn all_same_size(frames: Seq<CapturedFrame>) -> bool {
    forall|i: int| 0 <= i < frames.len() ==> same_size(#[trigger] frames[i], frames[0])
}

/// Refuses an export with no frames or a frame rate of 0.
pub fn check_export(frames: &Vec<CapturedFrame>, fps: u32) -> (r: Result<(), EncodeError>)
    ensures
        frames@.len() == 0 ==> r == Err::<(), EncodeError>(EncodeError::NoFrames),
        frames@.len() > 0 && fps == 0 ==> r == Err::<(), EncodeError>(EncodeError::ZeroFps),
        frames@.len() > 0 && fps > 0 ==> r is Ok,
{
    if frames.len() == 0 {
        return Err(EncodeError::NoFrames);
    }
    if fps == 0 {
        return Err(EncodeError::ZeroFps);
    }
    Ok(())
}

/// Encodes a recording as a looping GIF in memory, every frame shown for
/// `frame_delay_spec(fps)` hundredths of a second, and says how it went.
///
/// An export with no frames or at 0 frames a second is refused with no
/// bytes. Otherwise the frames are written in order until one differs in
/// size from the first: the bytes are then the GIF of the frames before it
/// (closed with a trailer, as the encoder closes itself when dropped) and
/// the outcome is `InconsistentFrameSizes`. When all frames agree, the
/// bytes are the whole GIF and the outcome is `Ok`.
pub fn encode_gif_bytes(frames: &Vec<CapturedFrame>, fps: u32) -> (r: (
    Vec<u8>,
    Result<(), EncodeError>,
))
    requires
        encodable(frames@),
    ensures
        frames@.len() == 0 ==> r.1 == Err::<(), EncodeError>(EncodeError::NoFrames) && r.0@.len()
            == 0,
        frames@.len() > 0 && fps == 0 ==> r.1 == Err::<(), EncodeError>(EncodeError::ZeroFps)
            && r.0@.len() == 0,
        frames@.len() > 0 && fps > 0 && all_same_size(frames@) ==> r.1 is Ok && r.0@ == gif_file(
            frames@,
            fps,
        ),
        forall|j: int|
            #![trigger frames@[j]]
            0 < j < frames@.len() && fps > 0 && sizes_agree_through(frames@, j - 1) && !same_size(
                frames@[j],
                frames@[0],
            ) ==> r.1 == Err::<(), EncodeError>(EncodeError::InconsistentFrameSizes) && r.0@
                == gif_prefix(frames@, j, fps),
{
    match check_export(frames, fps) {
        Ok(()) => {},
        Err(e) => return (Vec::new(), Err(e)),
    }
    let width = frames[0].width;
    let height = frames[0].height;
    let mut stream = match gif_encoder_new(width, height) {
        Ok(s) => s,
        Err(e) => return (Vec::new(), Err(EncodeError::InitEncoder(gif_error_text(&e)))),
    };
    match gif_loop_forever(&mut stream) {
        Ok(()) => {},
        Err(e) => return (Vec::new(), Err(EncodeError::SetRepeat(gif_error_text(&e)))),
    }
    let delay = frame_delay(fps);
    let ghost start = gif_written(stream);
    let n = frames.len();
    let mut i: usize = 0;
    let mut outcome: Result<(), EncodeError> = Ok(());
    while i < n
        invariant_except_break
            outcome is Ok,
        invariant
            n == frames@.len(),
            n > 0,
            fps > 0,
            i <= n,
            width == frames@[0].width,
            height == frames@[0].height,
            delay == frame_delay_spec(fps),
            encodable(frames@),
            start == gif_screen_header(width, height) + gif_loop_forever_block(),
            gif_written(stream) == start + frame_blocks(frames@.take(i as int), width, height, delay),
            sizes_agree_through(frames@, i - 1),
        ensures
            outcome is Ok ==> i == n,
            outcome is Err ==> i < n && outcome == Err::<(), EncodeError>(
                EncodeError::InconsistentFrameSizes,
            ) && !same_size(frames@[i as int], frames@[0]),
        decreases n - i,
    {
        let frame = &frames[i];
        if frame.width != width || frame.height != height {
            outcome = Err(EncodeError::InconsistentFrameSizes);
            break;
        }
        assert(sizes_agree_through(frames@, i as int));
        match gif_write_rgba_frame(
            &mut stream,
            width,
            height,
            frame.rgba.as_slice(),
            QUANTIZE_SPEED,
            delay,
        ) {
            Ok(()) => {},
            Err(e) => {
                outcome = Err(EncodeError::WriteFrame(gif_error_text(&e)));
                break;
            },
        }
        assert(frames@.take(i + 1).drop_last() == frames@.take(i as int));
        i += 1;
    }
    let ghost k = i as int;
    proof {
        if outcome is Ok {
            assert(k == n);
            assert(frames@.take(n as int) == frames@);
            assert forall|j: int| 0 <= j < frames@.len() implies same_size(
                #[trigger] frames@[j],
                frames@[0],
            ) by {
                assert(sizes_agree_through(frames@, n - 1));
            }
        } else {
            assert(!same_size(frames@[k], frames@[0]));
            assert forall|j: int|
                #![trigger frames@[j]]
                0 < j < frames@.len() && sizes_agree_through(frames@, j - 1) && !same_size(
                    frames@[j],
                    frames@[0],
                ) implies j == k by {
                if j < k {
                    assert(sizes_agree_through(frames@, k - 1));
                    assert(same_size(frames@[j], frames@[0]));
                } else if j > k {
                    assert(same_size(frames@[k], frames@[0]));
                }
            }
        }
    }
    match gif_finish(stream) {
        Ok(bytes) => (bytes, outcome),
        Err(e) => (Vec::new(), Err(EncodeError::WriteFrame(io_error_text(&e)))),
    }
}

/// Each frame of a recording gets a block of its own, in order: the blocks
/// for the first `k + 1` frames are those for the first `k` followed by the
/// block built from frame `k`'s pixels, whatever the frames before it hold.
pub proof fn lemma_one_block_per_frame(
    frames: Seq<CapturedFrame>,
    width: u16,
    height: u16,
    delay: u16,
    k: int,
)
    requires
        0 <= k < frames.len(),
    ensures
        frame_blocks(frames.take(0), width, height, delay) == Seq::<u8>::empty(),
        frame_blocks(frames.take(k + 1), width, height, delay) == frame_blocks(
            frames.take(k),
            width,
            height,
            delay,
        ) + rgba_frame_block(width, height, frames[k].rgba@, QUANTIZE_SPEED, delay),
{
    assert(frames.take(k + 1).drop_last() == frames.take(k));
    assert(frames.take(k + 1).last() == frames[k]);
    assert(frames.take(0).len() == 0);
}

/// The frame delay is `100 / fps` hundredths of a second rounded to the
/// nearest whole number, halves up, and never below 1.
pub proof fn lemma_frame_delay_rounds(fps: u32)
    requires
        fps > 0,
    ensures
        frame_delay_spec(fps) >= 1,
        fps <= 200 ==> fps as int * (2 * frame_delay_spec(fps) as int - 1) <= 200 < fps as int * (
        2 * frame_delay_spec(fps) as int + 1),
        fps > 200 ==> frame_delay_spec(fps) == 1,
{
    let f = fps as int;
    let d = (200 + f) / (2 * f);
    assert(d <= 100) by (nonlinear_arith)
        requires
            f >= 1,
            d == (200 + f) / (2 * f),
    ;
    assert(2 * f * d <= 200 + f < 2 * f * d + 2 * f) by (nonlinear_arith)
        requires
            f >= 1,
            d == (200 + f) / (2 * f),
    ;
    if f <= 200 {
        assert(d >= 1) by (nonlinear_arith)
            requires
                1 <= f <= 200,
                d == (200 + f) / (2 * f),
        ;
        assert(frame_delay_spec(fps) as int == d);
        assert(f * (2 * d - 1) == 2 * f * d - f) by (nonlinear_arith);
        assert(f * (2 * d + 1) == 2 * f * d + f) by (nonlinear_arith);
    } else {
        assert(d == 0) by (nonlinear_arith)
            requires
                f > 200,
                d == (200 + f) / (2 * f),
        ;
    }
}

} // verus!
