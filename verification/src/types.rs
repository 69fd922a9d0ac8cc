use vstd::prelude::*;

verus! {

/// A rectangle of the screen, in screen points, to be captured.
#[derive(Debug, Clone, Copy)]
pub struct CaptureRegion {
    pub x: u32,
    pub y: u32,
    pub width: u32,
    pub height: u32,
}

/// The message given when a region has an empty side.
pub open spec fn empty_side_message() -> Seq<char> {
    "宽高必须大于 0"@
}

impl CaptureRegion {
    /// A region with the given corner and size; refused when either side is 0.
    pub fn new(x: u32, y: u32, width: u32, height: u32) -> (res: Result<Self, String>)
        ensures
            width > 0 && height > 0 ==> res == Ok::<Self, String>(
                CaptureRegion { x, y, width, height },
            ),
            width == 0 || height == 0 ==> (res matches Err(msg) && msg@ == empty_side_message()),
    {
        if width == 0 || height == 0 {
            return Err(String::from_str("宽高必须大于 0"));
        }
        Ok(CaptureRegion { x, y, width, height })
    }
}

/// One captured screenshot as 8-bit RGBA pixels, row by row.
#[derive(Debug, Clone)]
pub struct CapturedFrame {
    pub width: u16,
    pub height: u16,
    pub rgba: Vec<u8>,
}

impl CapturedFrame {
    /// The pixel buffer holds exactly four bytes for each pixel.
    pub open spec fn well_formed(&self) -> bool {
        self.rgba@.len() == self.width as int * self.height as int * 4
    }
}

} // verus!
