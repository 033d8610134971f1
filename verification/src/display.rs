//! Display vocabulary shared by the request path, the playback state machines
//! and the backends.
use vstd::prelude::*;
use crate::raster::RgbaImage;

verus! {

/// How a still image is laid out on the panel.
#[derive(Clone, Copy, Debug, PartialEq, Eq, Structural)]
pub enum DisplayMode {
    /// Scaled to the panel width, cropped or padded vertically.
    Static,
    /// Scaled to the panel height and scrolled one pixel at a time.
    ScrollHorizontal,
}

/// When the main image stops. Times are in milliseconds.
#[derive(Clone, Copy, Debug, PartialEq, Eq, Structural)]
pub enum DisplayLimit {
    /// Show for a fixed time after preparation.
    Duration { millis: u64 },
    /// Scroll until at least `cycles` full passes (positive) have been shown
    /// and at least `min_display_millis` have passed since the first frame.
    ScrollCycles { cycles: u32, min_display_millis: u64 },
}

impl DisplayLimit {
    /// A cycle limit asks for at least one cycle.
    pub open spec fn wf(self) -> bool {
        self matches DisplayLimit::ScrollCycles { cycles, .. } ==> cycles > 0
    }
}

/// What a finished main-image display reports.
#[derive(Clone, Copy, Debug, PartialEq, Eq, Structural)]
pub struct DisplayStats {
    pub completed_cycles: u64,
    pub prepared_width_px: u32,
    pub elapsed_millis: u64,
}

/// One decoded animation frame and how long it stays on the panel.
#[derive(Clone, Debug)]
pub struct AnimFrame {
    pub image: RgbaImage,
    pub delay_millis: u64,
}

/// The window of the emulator was closed; the server stops.
#[derive(Clone, Copy, Debug, PartialEq, Eq, Structural)]
pub struct WindowClosedError;

/// A backend failure.
#[derive(Clone, Debug)]
pub enum DisplayError {
    WindowClosed(WindowClosedError),
    Backend(String),
}

/// Backends render on the main thread and block for approximately one refresh.
pub trait LedDisplay {
    fn rows(&self) -> usize;

    fn cols(&self) -> usize;

    fn render_frame(&mut self, pixels: &[(u8, u8, u8)]) -> Result<(), DisplayError>;

    /// Pump events without opening a window while idle. A display without
    /// events of its own has nothing to pump and always succeeds.
    fn poll_events(&mut self) -> (r: Result<(), DisplayError>)
        default_ensures
            r == Ok::<(), DisplayError>(()),
    {
        Ok(())
    }

    fn clear(&mut self) -> Result<(), DisplayError>;
}

} // verus!
