# record_to_gif

A screen-region recorder that exports animated GIFs, with its core proved
in Verus.

- `src/` is the verified library:
  - `recorder.rs`: the recorder's state machine. `RecordToGifApp::update`
    takes a message and a monotonic clock reading and returns the action
    the caller must carry out (take a screenshot, ask for a save path,
    encode a GIF); its contract is the model `step`.
  - `recorder_laws.rs`: properties of `step` (at most one capture in
    flight, automatic stop, frames returned after an export, settings
    ranges, window geometry feeding the region settings).
  - `text.rs`: decimal rendering, white-space trimming and `u32` parsing
    with the behaviour of `to_string`, `str::trim` and `u32::from_str`.
  - `capture.rs`: screenshot bytes to RGBA frames through the `image`
    crate, and the screenshot tool's argument and failure messages.
  - `encoder.rs`: a recording to GIF bytes through the `gif` crate.
  - `types.rs`: capture regions and frames.
- `app/` is the iced desktop front end: windowing, timers, the save dialog,
  the `screencapture` tool, file writes and the colour styles.
- `tests/` exercises the library on concrete values.
