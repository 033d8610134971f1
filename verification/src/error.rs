//! The ways request work can fail.
use vstd::prelude::*;
use crate::display::DisplayError;
use crate::limits::{limit_message, LimitError};
use crate::work::{stopped_message, Stopped};

verus! {

#[verifier::external_type_specification]
#[verifier::external_body]
pub struct ExImageError(image::ImageError);

/// Why preparing or decoding an image failed.
#[derive(Debug)]
pub enum Failure {
    /// Shutdown or the request deadline interrupted the work.
    Stopped(Stopped),
    /// The display backend failed, or its window was closed.
    Display(DisplayError),
    /// A size limit refused the image, the panel or the render buffers.
    Limit(LimitError),
    /// A scrolling canvas would be wider than 32 bits can count.
    CanvasTooWide,
    /// The render byte count of an animation does not fit in 64 bits.
    AnimationSizeOverflow,
    /// The decoded image would exceed `MAX_DECODED_BYTES`.
    DecodedTooLarge,
    /// A GIF frame on its own exceeds the retained-frame budget.
    GifFrameTooLarge,
    /// The GIF has more frames than `MAX_ANIMATION_FRAMES` (the limit is carried).
    GifTooManyFrames(usize),
    /// The retained GIF frames together exceed the budget.
    GifFramesTooLarge,
    /// The retained byte count does not fit in 64 bits.
    GifSizeOverflow,
    /// The GIF has no frames.
    GifEmpty,
    /// A decoded pixel buffer does not have four bytes per pixel.
    BadPixelBuffer,
    /// The image decoder failed.
    Image(image::ImageError),
}

/// The fixed message of a failure; `None` where the message comes from the
/// backend or the decoder.
pub open spec fn failure_text(f: Failure) -> Option<&'static str> {
    match f {
        Failure::Stopped(s) => Some(stopped_message(s)),
        Failure::Display(DisplayError::WindowClosed(_)) => Some("window closed"),
        Failure::Display(DisplayError::Backend(_)) => None,
        Failure::Limit(e) => Some(limit_message(e)),
        Failure::CanvasTooWide => Some("scroll canvas width exceeds 32 bits"),
        Failure::AnimationSizeOverflow => Some("animation render size overflow"),
        Failure::DecodedTooLarge => Some("decoded image exceeds MAX_DECODED_BYTES"),
        Failure::GifFrameTooLarge => Some("GIF frame exceeds MAX_DECODED_BYTES"),
        Failure::GifTooManyFrames(_) => Some("GIF exceeds MAX_ANIMATION_FRAMES"),
        Failure::GifFramesTooLarge => Some("GIF frames exceed MAX_DECODED_BYTES"),
        Failure::GifSizeOverflow => Some("GIF decoded size overflow"),
        Failure::GifEmpty => Some("GIF has no frames"),
        Failure::BadPixelBuffer => Some("decoded pixel buffer has the wrong size"),
        Failure::Image(_) => None,
    }
}

impl Failure {
    /// The message reported for the failure.
    pub fn message(&self) -> (r: String)
        ensures
            failure_text(*self) matches Some(t) ==> r@ == t@,
            self matches Failure::Display(DisplayError::Backend(m)) ==> r@ == m@,
    {
        let text = match self {
            Failure::Stopped(s) => s.message(),
            Failure::Display(DisplayError::WindowClosed(_)) => "window closed",
            Failure::Display(DisplayError::Backend(m)) => return m.clone(),
            Failure::Limit(e) => e.message(),
            Failure::CanvasTooWide => "scroll canvas width exceeds 32 bits",
            Failure::AnimationSizeOverflow => "animation render size overflow",
            Failure::DecodedTooLarge => "decoded image exceeds MAX_DECODED_BYTES",
            Failure::GifFrameTooLarge => "GIF frame exceeds MAX_DECODED_BYTES",
            Failure::GifTooManyFrames(_) => "GIF exceeds MAX_ANIMATION_FRAMES",
            Failure::GifFramesTooLarge => "GIF frames exceed MAX_DECODED_BYTES",
            Failure::GifSizeOverflow => "GIF decoded size overflow",
            Failure::GifEmpty => "GIF has no frames",
            Failure::BadPixelBuffer => "decoded pixel buffer has the wrong size",
            Failure::Image(e) => return e.to_string(),
        };
        String::from_str(text)
    }
}

} // verus!
