use led_service2::display::DisplayLimit;
use led_service2::mime::ProtoDisplayMode;
use led_service2::request::{admit_request, queue_reply, ImageData, QueueOutcome, Rejection, SendImageRequest, StatusCode};

fn request() -> SendImageRequest {
    SendImageRequest {
        image: Some(ImageData { image_data: vec![1], mime_type: "image/png".to_string() }),
        duration_seconds: 1,
        display_mode: 0,
        scroll_cycles: 0,
        min_display_seconds: 0,
    }
}

fn reject(req: SendImageRequest) -> Rejection {
    let err = admit_request(req, false).unwrap_err();
    assert_eq!(err.code(), StatusCode::InvalidArgument);
    err
}

#[test]
fn distinguishes_full_disconnected_and_stopping() {
    assert!(admit_request(request(), false).is_ok());
    assert_eq!(queue_reply(QueueOutcome::Queued), Ok(()));
    assert_eq!(queue_reply(QueueOutcome::Full).unwrap_err().code(), StatusCode::ResourceExhausted);
    assert_eq!(queue_reply(QueueOutcome::Disconnected).unwrap_err().code(), StatusCode::Unavailable);
    assert_eq!(admit_request(request(), true).unwrap_err().code(), StatusCode::Unavailable);
}

#[test]
fn validates_cycle_request_contract() {
    let mut req = request();
    req.duration_seconds = 0;
    assert_eq!(reject(req.clone()), Rejection::NonPositiveDuration);

    req.scroll_cycles = 1;
    req.display_mode = 1;
    assert_eq!(reject(req.clone()), Rejection::CyclesRequireScroll);

    req.display_mode = 99;
    assert_eq!(reject(req.clone()), Rejection::UnknownModeForCycles);

    req.display_mode = 2;
    req.duration_seconds = -1;
    assert_eq!(reject(req.clone()), Rejection::NegativeDurationWithCycles);

    req.duration_seconds = 0;
    req.image.as_mut().unwrap().mime_type = "image/gif".to_string();
    assert_eq!(reject(req), Rejection::CyclesWithGif);

    let mut req = request();
    req.min_display_seconds = 1;
    assert_eq!(reject(req), Rejection::MinDisplayWithoutCycles);
}

#[test]
fn accepts_cycles_with_zero_duration_and_ppm_inference() {
    let mut req = request();
    req.duration_seconds = 0;
    req.scroll_cycles = 2;
    req.min_display_seconds = 5;
    req.image.as_mut().unwrap().mime_type = "image/x-portable-pixmap".to_string();
    let queued = admit_request(req, false).ok().unwrap();
    assert_eq!(queued.limit, DisplayLimit::ScrollCycles { cycles: 2, min_display_millis: 5000 });
    assert_eq!(queued.display_mode, ProtoDisplayMode::Unspecified);
    assert_eq!(queued.mime_type, "image/x-portable-pixmap");
}

#[test]
fn duration_requests_keep_their_seconds() {
    let mut req = request();
    req.duration_seconds = 7;
    req.display_mode = 42;
    let queued = admit_request(req, false).ok().unwrap();
    assert_eq!(queued.limit, DisplayLimit::Duration { millis: 7000 });
    // Without cycles an unknown mode is queued as unspecified.
    assert_eq!(queued.display_mode, ProtoDisplayMode::Unspecified);
    assert_eq!(queued.image_data, vec![1]);
}

#[test]
fn cycles_take_precedence_over_a_positive_duration() {
    let mut req = request();
    req.duration_seconds = 10;
    req.scroll_cycles = 3;
    req.display_mode = 2;
    let queued = admit_request(req, false).ok().unwrap();
    assert_eq!(queued.limit, DisplayLimit::ScrollCycles { cycles: 3, min_display_millis: 0 });
    assert_eq!(queued.display_mode, ProtoDisplayMode::Scroll);
}

#[test]
fn gif_cannot_scroll_by_cycles_even_in_scroll_mode() {
    let mut req = request();
    req.scroll_cycles = 1;
    req.display_mode = 2;
    req.image.as_mut().unwrap().mime_type = "IMAGE/GIF".to_string();
    assert_eq!(reject(req), Rejection::CyclesWithGif);
}

#[test]
fn image_is_required_and_not_empty() {
    let mut req = request();
    req.image = None;
    assert_eq!(reject(req), Rejection::MissingImage);
    let mut req = request();
    req.image.as_mut().unwrap().image_data.clear();
    assert_eq!(reject(req), Rejection::EmptyImageData);
}

#[test]
fn largest_minimum_time_is_accepted_without_overflow() {
    let mut req = request();
    req.scroll_cycles = u32::MAX;
    req.min_display_seconds = u32::MAX;
    req.display_mode = 2;
    let queued = admit_request(req, false).ok().unwrap();
    assert_eq!(
        queued.limit,
        DisplayLimit::ScrollCycles { cycles: u32::MAX, min_display_millis: 4_294_967_295_000 }
    );
}

#[test]
fn refusal_messages_name_the_rule() {
    assert_eq!(Rejection::QueueFull.message(), "display queue is full");
    assert_eq!(Rejection::ShuttingDown.message(), "display service is shutting down");
    assert_eq!(Rejection::CyclesWithGif.message(), "scroll_cycles cannot be used with GIF images");
}

#[test]
fn duration_is_only_a_fallback_when_cycles_are_set() {
    let mut req = request();
    req.scroll_cycles = 2;
    req.display_mode = 2;
    req.duration_seconds = 0;
    let with_zero = admit_request(req.clone(), false).ok().unwrap();
    req.duration_seconds = 99;
    let with_ninety_nine = admit_request(req, false).ok().unwrap();
    assert_eq!(with_zero.limit, with_ninety_nine.limit);
    assert_eq!(with_zero.display_mode, with_ninety_nine.display_mode);
}
