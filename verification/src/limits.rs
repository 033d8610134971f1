use vstd::prelude::*;

verus! {

/// The backend that renders panel frames. The emulator keeps an on-screen
/// buffer of its own that counts against the render budget.
#[derive(Clone, Copy, Debug, PartialEq, Eq, Structural)]
pub enum Backend {
    Emulator,
    Rpi,
}

/// Each panel pixel becomes a 10x10 block of four-byte screen pixels in the
/// emulator window.
pub const EMULATOR_SCREEN_BYTES_PER_PIXEL: u64 = 400;

/// Why a size check refused its input.
#[derive(Clone, Copy, Debug, PartialEq, Eq, Structural)]
pub enum LimitError {
    /// A width or height of zero.
    NonPositiveDimensions,
    /// A width or height above `MAX_IMAGE_DIMENSION` (the limit is carried).
    DimensionsExceed(u32),
    /// The render byte count does not fit in 64 bits.
    RenderSizeOverflow,
    /// Render buffers above `MAX_RENDER_BYTES` (the limit is carried).
    RenderBytesExceed(u64),
}

/// The message reported for a refusal.
pub open spec fn limit_message(e: LimitError) -> &'static str {
    match e {
        LimitError::NonPositiveDimensions => "image dimensions must be positive",
        LimitError::DimensionsExceed(_) => "image dimensions exceed MAX_IMAGE_DIMENSION",
        LimitError::RenderSizeOverflow => "render size overflow",
        LimitError::RenderBytesExceed(_) => "render buffers exceed MAX_RENDER_BYTES",
    }
}

impl LimitError {
    /// The message reported for the refusal.
    pub fn message(self) -> (r: &'static str)
        ensures
            r == limit_message(self),
    {
        match self {
            LimitError::NonPositiveDimensions => "image dimensions must be positive",
            LimitError::DimensionsExceed(_) => "image dimensions exceed MAX_IMAGE_DIMENSION",
            LimitError::RenderSizeOverflow => "render size overflow",
            LimitError::RenderBytesExceed(_) => "render buffers exceed MAX_RENDER_BYTES",
        }
    }
}

/// Application-owned image buffers are bounded independently of decoder internals.
#[derive(Clone, Copy, Debug)]
pub struct ImageLimits {
    pub max_dimension: u32,
    pub max_frames: usize,
    pub max_decoded_bytes: u64,
    pub max_render_bytes: u64,
}

impl Default for ImageLimits {
    /// The defaults: 4096 pixels, 256 frames, 64 MiB decoded, 16 MiB rendered.
    fn default() -> (r: ImageLimits)
        ensures
            r.max_dimension == 4096,
            r.max_frames == 256,
            r.max_decoded_bytes == 64 * 1024 * 1024,
            r.max_render_bytes == 16 * 1024 * 1024,
            r.all_positive(),
    {
        ImageLimits {
            max_dimension: 4096,
            max_frames: 256,
            max_decoded_bytes: 64 * 1024 * 1024,
            max_render_bytes: 16 * 1024 * 1024,
        }
    }
}

/// The limits that the image decoder itself is given.
#[derive(Clone, Copy, Debug, PartialEq, Eq, Structural)]
pub struct DecoderLimits {
    pub max_image_width: Option<u32>,
    pub max_image_height: Option<u32>,
    pub max_alloc: Option<u64>,
}

/// Screen bytes that the backend keeps beside the application's RGB buffers.
pub open spec fn screen_bytes(backend: Backend, cols: u32, rows: u32) -> int {
    match backend {
        Backend::Emulator => cols * rows * EMULATOR_SCREEN_BYTES_PER_PIXEL,
        Backend::Rpi => 0,
    }
}

/// A product of two 32-bit values leaves room for a factor of a few thousand in 64 bits.
pub proof fn lemma_u32_product(a: u32, b: u32)
    ensures
        0 <= a * b <= 0xffff_fffe_0000_0001,
{
    assert(a * b <= 0xffff_ffffint * 0xffff_ffffint) by (nonlinear_arith)
        requires 0 <= a <= 0xffff_ffffint, 0 <= b <= 0xffff_ffffint;
    assert(0 <= a * b) by (nonlinear_arith)
        requires 0 <= a, 0 <= b;
}

impl ImageLimits {
    pub open spec fn dimensions_ok(self, width: u32, height: u32) -> bool {
        0 < width <= self.max_dimension && 0 < height <= self.max_dimension
    }

    /// What `check_dimensions` answers.
    pub open spec fn dimensions_result(self, width: u32, height: u32) -> Result<(), LimitError> {
        if width == 0 || height == 0 {
            Err(LimitError::NonPositiveDimensions)
        } else if width > self.max_dimension || height > self.max_dimension {
            Err(LimitError::DimensionsExceed(self.max_dimension))
        } else {
            Ok(())
        }
    }

    /// What `check_render_bytes` answers.
    pub open spec fn render_bytes_result(self, bytes: int) -> Result<(), LimitError> {
        if bytes <= self.max_render_bytes {
            Ok(())
        } else {
            Err(LimitError::RenderBytesExceed(self.max_render_bytes))
        }
    }

    /// What `check_render_buffers` answers: the application's RGB bytes plus
    /// the backend screen must fit the budget; a sum or product beyond 64 bits
    /// is refused as an overflow.
    pub open spec fn render_buffers_result(self, backend: Backend, cols: u32, rows: u32, rgb_bytes: u64) -> Result<(), LimitError> {
        let total = rgb_bytes + screen_bytes(backend, cols, rows);
        if total > u64::MAX {
            Err(LimitError::RenderSizeOverflow)
        } else {
            self.render_bytes_result(total)
        }
    }

    /// What `check_panel` answers: the panel must be a valid image size, and its
    /// six bytes of RGB per pixel plus the backend screen must fit the budget.
    pub open spec fn panel_result(self, backend: Backend, cols: u32, rows: u32) -> Result<(), LimitError> {
        match self.dimensions_result(cols, rows) {
            Err(e) => Err(e),
            Ok(()) => if cols * rows * 6 > u64::MAX {
                Err(LimitError::RenderSizeOverflow)
            } else {
                self.render_buffers_result(backend, cols, rows, (cols * rows * 6) as u64)
            },
        }
    }

    pub open spec fn all_positive(self) -> bool {
        self.max_dimension > 0 && self.max_frames > 0 && self.max_decoded_bytes > 0
            && self.max_render_bytes > 0
    }

    pub open spec fn decoder_limits_spec(self) -> DecoderLimits {
        DecoderLimits {
            max_image_width: Some(self.max_dimension),
            max_image_height: Some(self.max_dimension),
            max_alloc: Some(self.max_decoded_bytes),
        }
    }

    /// The limits handed to the decoder: both sides bounded by the maximum
    /// dimension, allocations by the decoded-byte budget.
    pub fn decoder_limits(&self) -> (r: DecoderLimits)
        ensures
            r == self.decoder_limits_spec(),
            r.max_image_width == Some(self.max_dimension),
            r.max_image_height == Some(self.max_dimension),
            r.max_alloc == Some(self.max_decoded_bytes),
    {
        DecoderLimits {
            max_image_width: Some(self.max_dimension),
            max_image_height: Some(self.max_dimension),
            max_alloc: Some(self.max_decoded_bytes),
        }
    }

    pub fn check_dimensions(&self, width: u32, height: u32) -> (r: Result<(), LimitError>)
        ensures
            r == self.dimensions_result(width, height),
            r is Ok <==> self.dimensions_ok(width, height),
    {
        if width == 0 || height == 0 {
            return Err(LimitError::NonPositiveDimensions);
        }
        if width > self.max_dimension || height > self.max_dimension {
            return Err(LimitError::DimensionsExceed(self.max_dimension));
        }
        Ok(())
    }

    pub fn check_panel(&self, cols: u32, rows: u32, backend: Backend) -> (r: Result<(), LimitError>)
        ensures
            r == self.panel_result(backend, cols, rows),
    {
        self.check_dimensions(cols, rows)?;
        proof {
            lemma_u32_product(cols, rows);
        }
        let pixels = (cols as u64) * (rows as u64);
        match pixels.checked_mul(6) {
            None => Err(LimitError::RenderSizeOverflow),
            Some(rgb) => self.check_render_buffers(cols, rows, rgb, backend),
        }
    }

    /// Include the backend screen buffer alongside application-owned RGB buffers.
    pub fn check_render_buffers(&self, cols: u32, rows: u32, rgb_bytes: u64, backend: Backend) -> (r: Result<(), LimitError>)
        ensures
            r == self.render_buffers_result(backend, cols, rows, rgb_bytes),
    {
        let screen: u64 = match backend {
            Backend::Emulator => {
                proof { lemma_u32_product(cols, rows); }
                let pixels = (cols as u64) * (rows as u64);
                match pixels.checked_mul(EMULATOR_SCREEN_BYTES_PER_PIXEL) {
                    None => return Err(LimitError::RenderSizeOverflow),
                    Some(b) => b,
                }
            },
            Backend::Rpi => 0,
        };
        match rgb_bytes.checked_add(screen) {
            None => Err(LimitError::RenderSizeOverflow),
            Some(total) => self.check_render_bytes(total),
        }
    }

    pub fn check_render_bytes(&self, bytes: u64) -> (r: Result<(), LimitError>)
        ensures
            r == self.render_bytes_result(bytes as int),
    {
        if bytes <= self.max_render_bytes {
            Ok(())
        } else {
            Err(LimitError::RenderBytesExceed(self.max_render_bytes))
        }
    }
}

} // verus!
