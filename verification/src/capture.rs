use vstd::prelude::*;

use crate::text::{contains_text, decimal, decimal_string, text_contains};
use crate::types::{CaptureRegion, CapturedFrame};

verus! {

// ---------------------------------------------------------------------------
// The outside image decoder
// ---------------------------------------------------------------------------

#[verifier::external_type_specification]
#[verifier::external_body]
pub struct ExImageError(image::ImageError);

/// What `image::load_from_memory(bytes)` decodes, converted with
/// `DynamicImage::to_rgba8`: width, height and pixel bytes row by row;
/// `None` when decoding fails.
pub uninterp spec fn decoded_rgba8(bytes: Seq<u8>) -> Option<(u32, u32, Seq<u8>)>;

/// `image::load_from_memory(bytes)` (the format guessed from the bytes),
/// then `to_rgba8()` of the image, taken apart into width, height and
/// pixel bytes. It fails exactly when `decoded_rgba8` is `None`. The RGBA
/// buffer `to_rgba8` gives holds four bytes for each pixel: it is either
/// allocated at that size by `ImageBuffer::new` in the conversion, or the
/// decoder's own buffer, which is allocated at the decoder's exact total
/// size.
#[verifier::external_body]
fn decode_rgba8(bytes: &[u8]) -> (r: Result<(u32, u32, Vec<u8>), image::ImageError>)
    ensures
        r is Ok <==> decoded_rgba8(bytes@) is Some,
        r matches Ok(d) ==> (d.0, d.1, d.2@) == decoded_rgba8(bytes@)->0,
        r matches Ok(d) ==> d.2@.len() == d.0 as int * d.1 as int * 4,
{
    match image::load_from_memory(bytes) {
        Ok(img) => {
            let rgba = img.to_rgba8();
            Ok((rgba.width(), rgba.height(), rgba.into_raw()))
        },
        Err(e) => Err(e),
    }
}

/// The `Display` text of an image error. Nothing is claimed of it.
#[verifier::external_body]
fn image_error_text(e: &image::ImageError) -> String {
    format!("{e}")
}

// ---------------------------------------------------------------------------
// From decoded pixels to a frame
// ---------------------------------------------------------------------------

/// A GIF side is at most 65535 pixels.
pub open spec fn frame_from_rgba8_spec(width: u32, height: u32, rgba: Seq<u8>) -> Result<
    (u16, u16, Seq<u8>),
    Seq<char>,
> {
    if width > u16::MAX {
        Err("Image width exceeds GIF limit"@)
    } else if height > u16::MAX {
        Err("Image height exceeds GIF limit"@)
    } else {
        Ok((width as u16, height as u16, rgba))
    }
}

fn text_of(s: &str) -> (r: String)
    ensures
        r@ == s@,
{
    String::from_str(s)
}

/// A captured frame from decoded RGBA pixels, refused when a side does
/// not fit a GIF.
pub fn frame_from_rgba8(width: u32, height: u32, rgba: Vec<u8>) -> (r: Result<
    CapturedFrame,
    String,
>)
    ensures
        r matches Ok(f) ==> (f.well_formed() <==> rgba@.len() == width as int * height as int
            * 4),
        r matches Ok(f) ==> frame_from_rgba8_spec(width, height, rgba@) == Ok::<
            (u16, u16, Seq<u8>),
            Seq<char>,
        >((f.width, f.height, f.rgba@)),
        r matches Err(e) ==> frame_from_rgba8_spec(width, height, rgba@) == Err::<
            (u16, u16, Seq<u8>),
            Seq<char>,
        >(e@),
{
    if width > 0xffff {
        return Err(text_of("Image width exceeds GIF limit"));
    }
    if height > 0xffff {
        return Err(text_of("Image height exceeds GIF limit"));
    }
    Ok(CapturedFrame { width: width as u16, height: height as u16, rgba })
}

/// Decodes a screenshot file's bytes into a captured frame.
pub fn decode_captured_frame(bytes: &[u8]) -> (r: Result<CapturedFrame, String>)
    ensures
        r matches Ok(f) ==> f.well_formed(),
        decoded_rgba8(bytes@) is None ==> (r matches Err(e) && e@.len() >= 21 && e@.subrange(0, 21)
            == "Decode image failed: "@),
        decoded_rgba8(bytes@) matches Some(d) ==> (r matches Ok(f) ==> frame_from_rgba8_spec(
            d.0,
            d.1,
            d.2,
        ) == Ok::<(u16, u16, Seq<u8>), Seq<char>>((f.width, f.height, f.rgba@))),
        decoded_rgba8(bytes@) matches Some(d) ==> (r matches Err(e) ==> frame_from_rgba8_spec(
            d.0,
            d.1,
            d.2,
        ) == Err::<(u16, u16, Seq<u8>), Seq<char>>(e@)),
{
    let (width, height, rgba) = match decode_rgba8(bytes) {
        Ok(d) => d,
        Err(e) => {
            let mut msg = text_of("Decode image failed: ");
            proof {
                reveal_strlit("Decode image failed: ");
            }
            let detail = image_error_text(&e);
            msg.append(detail.as_str());
            assert(msg@.subrange(0, 21) == "Decode image failed: "@);
            return Err(msg);
        },
    };
    frame_from_rgba8(width, height, rgba)
}

// ---------------------------------------------------------------------------
// The screenshot tool's arguments and failures
// ---------------------------------------------------------------------------

/// The `-R` argument of `screencapture` for a region: `x,y,width,height`.
pub open spec fn rect_arg_spec(r: CaptureRegion) -> Seq<char> {
    decimal(r.x as nat) + ","@ + decimal(r.y as nat) + ","@ + decimal(r.width as nat) + ","@
        + decimal(r.height as nat)
}

/// The `-R` argument of `screencapture` for a region.
pub fn rect_arg(region: CaptureRegion) -> (s: String)
    ensures
        s@ == rect_arg_spec(region),
{
    let mut s = decimal_string(region.x as u64);
    s.append(",");
    s.append(decimal_string(region.y as u64).as_str());
    s.append(",");
    s.append(decimal_string(region.width as u64).as_str());
    s.append(",");
    s.append(decimal_string(region.height as u64).as_str());
    s
}

/// The message for a failed screenshot, from what the tool wrote to its
/// error output: a missing screen-recording permission gets advice.
pub open spec fn capture_failure_spec(stderr: Seq<char>) -> Seq<char> {
    if contains_text(stderr, "not authorized"@) || contains_text(stderr, "User canceled"@) {
        "No screen recording permission. Go to System Settings -> Privacy & Security -> Screen Recording and allow this app."@
    } else {
        "screencapture error: "@ + stderr
    }
}

/// The message for a failed screenshot.
pub fn capture_failure_message(stderr: &str) -> (m: String)
    ensures
        m@ == capture_failure_spec(stderr@),
{
    if text_contains(stderr, "not authorized") || text_contains(stderr, "User canceled") {
        return text_of(
            "No screen recording permission. Go to System Settings -> Privacy & Security -> Screen Recording and allow this app.",
        );
    }
    let mut m = text_of("screencapture error: ");
    m.append(stderr);
    m
}

/// A decoded screenshot becomes a frame exactly when both sides are at most
/// 65535 pixels, and then keeps its size and pixels; a wider one is
/// refused for its width first, then a taller one for its height.
pub proof fn lemma_frame_size_limit(width: u32, height: u32, rgba: Seq<u8>)
    ensures
        (frame_from_rgba8_spec(width, height, rgba) is Ok) <==> (width <= 65535 && height
            <= 65535),
        frame_from_rgba8_spec(width, height, rgba) matches Ok(t) ==> t.0 as u32 == width && t.1 as u32
            == height && t.2 == rgba,
        width > 65535 ==> frame_from_rgba8_spec(width, height, rgba) == Err::<
            (u16, u16, Seq<u8>),
            Seq<char>,
        >("Image width exceeds GIF limit"@),
        width <= 65535 && height > 65535 ==> frame_from_rgba8_spec(width, height, rgba) == Err::<
            (u16, u16, Seq<u8>),
            Seq<char>,
        >("Image height exceeds GIF limit"@),
{
}

} // verus!
