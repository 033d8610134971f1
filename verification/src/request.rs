//! Admission of `SendImage` requests: which requests are refused, with which
//! status, and what a queued display request holds.
use vstd::prelude::*;
use vstd::string::StringSliceAdditionalSpecFns;
use crate::display::{DisplayLimit, DisplayMode};
use crate::mime::{
    is_gif, is_gif_spec, is_ppm_spec, proto_mode_of, resolve_display_mode, resolved_mode, ProtoDisplayMode,
};

verus! {

/// The bytes of a string, as UTF-8.
pub open spec fn string_bytes(s: String) -> Seq<u8> {
    vstd::utf8::encode_utf8(s@)
}

/// The image part of a request.
#[derive(Clone, Debug)]
pub struct ImageData {
    pub image_data: Vec<u8>,
    pub mime_type: String,
}

/// A `SendImage` request as it arrives.
#[derive(Clone, Debug)]
pub struct SendImageRequest {
    pub image: Option<ImageData>,
    pub duration_seconds: i32,
    pub display_mode: i32,
    pub scroll_cycles: u32,
    pub min_display_seconds: u32,
}

/// An admitted request, waiting in the display queue.
#[derive(Clone, Debug)]
pub struct DisplayRequest {
    pub image_data: Vec<u8>,
    pub mime_type: String,
    pub limit: DisplayLimit,
    pub display_mode: ProtoDisplayMode,
}

/// The gRPC status code of a refusal.
#[derive(Clone, Copy, Debug, PartialEq, Eq, Structural)]
pub enum StatusCode {
    InvalidArgument,
    Unavailable,
    ResourceExhausted,
}

/// Why a request was not queued.
#[derive(Clone, Copy, Debug, PartialEq, Eq, Structural)]
pub enum Rejection {
    ShuttingDown,
    MissingImage,
    EmptyImageData,
    NegativeDurationWithCycles,
    UnknownModeForCycles,
    CyclesWithGif,
    CyclesRequireScroll,
    MinDisplayWithoutCycles,
    NonPositiveDuration,
    QueueFull,
    WorkerStopped,
}

pub open spec fn rejection_code(r: Rejection) -> StatusCode {
    match r {
        Rejection::ShuttingDown => StatusCode::Unavailable,
        Rejection::WorkerStopped => StatusCode::Unavailable,
        Rejection::QueueFull => StatusCode::ResourceExhausted,
        _ => StatusCode::InvalidArgument,
    }
}

/// The status message of a refusal.
pub open spec fn rejection_message(r: Rejection) -> &'static str {
    match r {
        Rejection::ShuttingDown => "display service is shutting down",
        Rejection::MissingImage => "image is required",
        Rejection::EmptyImageData => "image_data is empty",
        Rejection::NegativeDurationWithCycles => "duration_seconds must be >= 0 when scroll_cycles is set",
        Rejection::UnknownModeForCycles => "unknown display_mode for cycle-based scrolling",
        Rejection::CyclesWithGif => "scroll_cycles cannot be used with GIF images",
        Rejection::CyclesRequireScroll => "scroll_cycles requires scroll display mode",
        Rejection::MinDisplayWithoutCycles => "min_display_seconds requires scroll_cycles",
        Rejection::NonPositiveDuration => "duration_seconds must be > 0",
        Rejection::QueueFull => "display queue is full",
        Rejection::WorkerStopped => "display worker has stopped",
    }
}

impl Rejection {
    pub fn code(self) -> (r: StatusCode)
        ensures
            r == rejection_code(self),
    {
        match self {
            Rejection::ShuttingDown => StatusCode::Unavailable,
            Rejection::WorkerStopped => StatusCode::Unavailable,
            Rejection::QueueFull => StatusCode::ResourceExhausted,
            _ => StatusCode::InvalidArgument,
        }
    }

    /// The status message sent back to the client.
    pub fn message(self) -> (r: &'static str)
        ensures
            r == rejection_message(self),
    {
        match self {
            Rejection::ShuttingDown => "display service is shutting down",
            Rejection::MissingImage => "image is required",
            Rejection::EmptyImageData => "image_data is empty",
            Rejection::NegativeDurationWithCycles => "duration_seconds must be >= 0 when scroll_cycles is set",
            Rejection::UnknownModeForCycles => "unknown display_mode for cycle-based scrolling",
            Rejection::CyclesWithGif => "scroll_cycles cannot be used with GIF images",
            Rejection::CyclesRequireScroll => "scroll_cycles requires scroll display mode",
            Rejection::MinDisplayWithoutCycles => "min_display_seconds requires scroll_cycles",
            Rejection::NonPositiveDuration => "duration_seconds must be > 0",
            Rejection::QueueFull => "display queue is full",
            Rejection::WorkerStopped => "display worker has stopped",
        }
    }
}

/// The display limit of a valid request, or the first rule it breaks; the
/// rules are checked in this order. A positive cycle count takes precedence
/// over the duration, which then only has to be non-negative.
pub open spec fn limit_for(
    duration_seconds: i32,
    display_mode: i32,
    scroll_cycles: u32,
    min_display_seconds: u32,
    mime: Seq<u8>,
) -> Result<DisplayLimit, Rejection> {
    if scroll_cycles != 0 {
        if duration_seconds < 0 {
            Err(Rejection::NegativeDurationWithCycles)
        } else if proto_mode_of(display_mode) is None {
            Err(Rejection::UnknownModeForCycles)
        } else if is_gif_spec(mime) {
            Err(Rejection::CyclesWithGif)
        } else if resolved_mode(proto_mode_of(display_mode)->0, mime) != DisplayMode::ScrollHorizontal {
            Err(Rejection::CyclesRequireScroll)
        } else {
            Ok(DisplayLimit::ScrollCycles {
                cycles: scroll_cycles,
                min_display_millis: (min_display_seconds * 1000) as u64,
            })
        }
    } else if min_display_seconds > 0 {
        Err(Rejection::MinDisplayWithoutCycles)
    } else if duration_seconds <= 0 {
        Err(Rejection::NonPositiveDuration)
    } else {
        Ok(DisplayLimit::Duration { millis: (duration_seconds * 1000) as u64 })
    }
}

/// The queued mode: the wire value, with unknown values read as unspecified
/// (for cycle requests unknown values never get this far).
pub open spec fn queued_mode(display_mode: i32) -> ProtoDisplayMode {
    match proto_mode_of(display_mode) {
        Some(m) => m,
        None => ProtoDisplayMode::Unspecified,
    }
}

/// What admission makes of a request: a refusal, or the display request to queue.
pub open spec fn admission(req: SendImageRequest, shutting_down: bool) -> Result<DisplayRequest, Rejection> {
    if shutting_down {
        Err(Rejection::ShuttingDown)
    } else if req.image is None {
        Err(Rejection::MissingImage)
    } else if req.image->0.image_data@.len() == 0 {
        Err(Rejection::EmptyImageData)
    } else {
        match limit_for(
            req.duration_seconds,
            req.display_mode,
            req.scroll_cycles,
            req.min_display_seconds,
            string_bytes(req.image->0.mime_type),
        ) {
            Err(e) => Err(e),
            Ok(limit) => Ok(DisplayRequest {
                image_data: req.image->0.image_data,
                mime_type: req.image->0.mime_type,
                limit,
                display_mode: queued_mode(req.display_mode),
            }),
        }
    }
}

fn display_limit(
    duration_seconds: i32,
    display_mode: i32,
    scroll_cycles: u32,
    min_display_seconds: u32,
    mime_type: &str,
) -> (r: Result<DisplayLimit, Rejection>)
    ensures
        r == limit_for(duration_seconds, display_mode, scroll_cycles, min_display_seconds, mime_type.spec_bytes()),
{
    if scroll_cycles != 0 {
        if duration_seconds < 0 {
            return Err(Rejection::NegativeDurationWithCycles);
        }
        let proto_mode = match ProtoDisplayMode::from_wire(display_mode) {
            Some(m) => m,
            None => return Err(Rejection::UnknownModeForCycles),
        };
        if is_gif(mime_type) {
            return Err(Rejection::CyclesWithGif);
        }
        if resolve_display_mode(proto_mode, mime_type) != DisplayMode::ScrollHorizontal {
            return Err(Rejection::CyclesRequireScroll);
        }
        Ok(DisplayLimit::ScrollCycles {
            cycles: scroll_cycles,
            min_display_millis: (min_display_seconds as u64) * 1000,
        })
    } else {
        if min_display_seconds > 0 {
            return Err(Rejection::MinDisplayWithoutCycles);
        }
        if duration_seconds <= 0 {
            return Err(Rejection::NonPositiveDuration);
        }
        Ok(DisplayLimit::Duration { millis: (duration_seconds as u64) * 1000 })
    }
}

/// Validate a request and build the display request to queue. Admission
/// acknowledges the queue, not the display: the image is not decoded here.
pub fn admit_request(req: SendImageRequest, shutting_down: bool) -> (r: Result<DisplayRequest, Rejection>)
    ensures
        r == admission(req, shutting_down),
        r matches Ok(d) ==> d.limit.wf(),
        r matches Ok(d) ==> (proto_mode_of(req.display_mode) matches Some(m) ==> d.display_mode == m),
        r matches Ok(d) ==> (proto_mode_of(req.display_mode) is None ==> d.display_mode
            == ProtoDisplayMode::Unspecified),
{
    if shutting_down {
        return Err(Rejection::ShuttingDown);
    }
    let image = match req.image {
        Some(image) => image,
        None => return Err(Rejection::MissingImage),
    };
    if image.image_data.len() == 0 {
        return Err(Rejection::EmptyImageData);
    }
    let limit = display_limit(
        req.duration_seconds,
        req.display_mode,
        req.scroll_cycles,
        req.min_display_seconds,
        image.mime_type.as_str(),
    )?;
    let display_mode = match ProtoDisplayMode::from_wire(req.display_mode) {
        Some(m) => m,
        None => ProtoDisplayMode::Unspecified,
    };
    Ok(DisplayRequest { image_data: image.image_data, mime_type: image.mime_type, limit, display_mode })
}

/// Validation answers every malformed request with `InvalidArgument`; a
/// server that is shutting down answers `Unavailable` before looking at it.
pub proof fn lemma_refusal_codes(req: SendImageRequest)
    ensures
        admission(req, false) matches Err(e) ==> rejection_code(e) == StatusCode::InvalidArgument,
        admission(req, true) == Err::<DisplayRequest, Rejection>(Rejection::ShuttingDown),
        rejection_code(Rejection::ShuttingDown) == StatusCode::Unavailable,
{
}

/// The queued request keeps the mode that the wire names: 0 unspecified,
/// 1 static, 2 scroll; an explicit mode is never replaced. An unknown value
/// (which only a duration request can carry this far) is queued as
/// unspecified. The image and its MIME type are queued as sent.
pub proof fn lemma_queued_mode(req: SendImageRequest, shutting_down: bool)
    ensures
        admission(req, shutting_down) matches Ok(d) ==> {
            &&& req.display_mode == 0 ==> d.display_mode == ProtoDisplayMode::Unspecified
            &&& req.display_mode == 1 ==> d.display_mode == ProtoDisplayMode::Static
            &&& req.display_mode == 2 ==> d.display_mode == ProtoDisplayMode::Scroll
            &&& (proto_mode_of(req.display_mode) matches Some(m) ==> d.display_mode == m)
            &&& (req.display_mode < 0 || req.display_mode > 2 ==> d.display_mode == ProtoDisplayMode::Unspecified)
            &&& d.image_data == req.image->0.image_data
            &&& d.mime_type == req.image->0.mime_type
        },
{
}

/// A request without cycles is shown for `duration_seconds`: it is accepted
/// exactly when that is positive and no minimum display time is asked for.
pub proof fn lemma_duration_requests(req: SendImageRequest)
    requires
        req.scroll_cycles == 0,
        req.image matches Some(img) && img.image_data@.len() > 0,
    ensures
        admission(req, false) is Ok <==> req.min_display_seconds == 0 && req.duration_seconds > 0,
        admission(req, false) matches Ok(d) ==> d.limit == (DisplayLimit::Duration {
            millis: (req.duration_seconds * 1000) as u64,
        }),
        req.min_display_seconds > 0 ==> admission(req, false) == Err::<DisplayRequest, Rejection>(
            Rejection::MinDisplayWithoutCycles,
        ),
{
}

/// The duration is not negative, the mode is known, the image is not a GIF
/// and the mode resolves to scrolling.
pub open spec fn cycles_acceptable(req: SendImageRequest) -> bool {
    let mime = string_bytes(req.image->0.mime_type);
    &&& req.duration_seconds >= 0
    &&& proto_mode_of(req.display_mode) matches Some(m)
    &&& !is_gif_spec(mime)
    &&& resolved_mode(m, mime) == DisplayMode::ScrollHorizontal
}

/// A request with cycles scrolls for at least that many cycles and its
/// minimum time: it is accepted exactly when the duration is not negative,
/// the mode is known, the image is not a GIF and the mode resolves to scrolling.
pub proof fn lemma_cycle_requests(req: SendImageRequest)
    requires
        req.scroll_cycles > 0,
        req.image matches Some(img) && img.image_data@.len() > 0,
    ensures
        admission(req, false) is Ok <==> cycles_acceptable(req),
        admission(req, false) matches Ok(d) ==> d.limit == (DisplayLimit::ScrollCycles {
            cycles: req.scroll_cycles,
            min_display_millis: (req.min_display_seconds * 1000) as u64,
        }),
{
}

/// With cycles, the duration is only a fallback for older servers: any two
/// non-negative durations are admitted alike.
pub proof fn lemma_cycles_ignore_duration(req: SendImageRequest, duration_seconds: i32, shutting_down: bool)
    requires
        req.scroll_cycles > 0,
        req.duration_seconds >= 0,
        duration_seconds >= 0,
    ensures
        admission(req, shutting_down) == admission(
            (SendImageRequest { duration_seconds, ..req }),
            shutting_down,
        ),
{
}

/// A GIF is never given a cycle limit, whatever mode the request names.
pub proof fn lemma_gif_never_cycles(req: SendImageRequest, shutting_down: bool)
    ensures
        admission(req, shutting_down) matches Ok(d) ==> d.limit is Duration || !is_gif_spec(
            string_bytes(d.mime_type),
        ),
{
}

/// An unspecified mode scrolls PPM images, so they may ask for cycles.
pub proof fn lemma_ppm_scrolls_by_default(mime: Seq<u8>)
    requires
        is_ppm_spec(mime),
    ensures
        resolved_mode(ProtoDisplayMode::Unspecified, mime) == DisplayMode::ScrollHorizontal,
{
}

/// The queued request carries the image and MIME type as received.
pub proof fn lemma_admitted_image_unchanged(req: SendImageRequest, shutting_down: bool)
    ensures
        admission(req, shutting_down) matches Ok(d) ==> {
            &&& d.image_data == req.image->0.image_data
            &&& d.mime_type == req.image->0.mime_type
            &&& d.limit.wf()
        },
{
}

/// How handing a request to the display queue went.
#[derive(Clone, Copy, Debug, PartialEq, Eq, Structural)]
pub enum QueueOutcome {
    Queued,
    Full,
    Disconnected,
}

/// The reply once the queue has answered: a full queue is `ResourceExhausted`,
/// a stopped worker `Unavailable`.
pub fn queue_reply(outcome: QueueOutcome) -> (r: Result<(), Rejection>)
    ensures
        outcome == QueueOutcome::Queued ==> r is Ok,
        outcome == QueueOutcome::Full ==> r == Err::<(), Rejection>(Rejection::QueueFull),
        outcome == QueueOutcome::Disconnected ==> r == Err::<(), Rejection>(Rejection::WorkerStopped),
{
    match outcome {
        QueueOutcome::Queued => Ok(()),
        QueueOutcome::Full => Err(Rejection::QueueFull),
        QueueOutcome::Disconnected => Err(Rejection::WorkerStopped),
    }
}

} // verus!
