//! Verified core of a screen-region recorder that exports animated GIFs.
//!
//! The library holds the recorder's state machine, the parsing and
//! rendering of the numeric settings the user types, the decoding of a
//! captured screenshot into RGBA pixels and the GIF encoding of a
//! recording. Windowing, the system screenshot tool, file dialogs and
//! file writes stay with the caller.

pub mod recorder;
pub mod capture;
pub mod encoder;
pub mod recorder_laws;
pub mod text;
pub mod types;

pub use recorder::{Action, Message, RecordToGifApp};
pub use encoder::{EncodeFailure, EncodeSuccess};
pub use types::{CaptureRegion, CapturedFrame};
