use led_service2::config::Config;
use led_service2::display::{AnimFrame, DisplayError, DisplayLimit, DisplayMode, WindowClosedError};
use led_service2::error::Failure;
use led_service2::limits::{ImageLimits, LimitError};
use led_service2::mime::ProtoDisplayMode;
use led_service2::raster::RgbaImage;
use led_service2::request::DisplayRequest;
use led_service2::work::{check_work, Clock, Shutdown, Stopped, Work};
use led_service2::worker::{
    append_chunk, check_eyecatch_file, configured, EyecatchFileError, MAX_EYECATCH_FILE_BYTES, eyecatch_failure, failure_kind, idle_poll_stops, main_plan, request_deadline, request_outcome,
    EyecatchFailure, EyecatchState, FailureKind, MainPlan, Outcome, RequestProgress, RequestStage, RequestStep,
    StepEvent,
};

fn request(mime: &str, limit: DisplayLimit, display_mode: ProtoDisplayMode) -> DisplayRequest {
    DisplayRequest { image_data: vec![1], mime_type: mime.to_string(), limit, display_mode }
}

#[test]
fn request_deadline_counts_from_dequeue() {
    assert_eq!(request_deadline(1000, DisplayLimit::Duration { millis: 5000 }, 30_000), Some(6000));
    assert_eq!(request_deadline(1000, DisplayLimit::Duration { millis: 60_000 }, 30_000), Some(31_000));
    let cycles = DisplayLimit::ScrollCycles { cycles: 2, min_display_millis: 90_000 };
    assert_eq!(request_deadline(1000, cycles, 30_000), Some(31_000));
    assert_eq!(request_deadline(u64::MAX, DisplayLimit::Duration { millis: 1 }, 30_000), None);
}

#[test]
fn gifs_animate_and_other_images_resolve_their_mode() {
    let gif = request("image/GIF", DisplayLimit::Duration { millis: 7000 }, ProtoDisplayMode::Unspecified);
    assert_eq!(main_plan(&gif), MainPlan::Animation { display_millis: 7000 });
    let ppm = request("image/x-portable-pixmap", DisplayLimit::Duration { millis: 1 }, ProtoDisplayMode::Unspecified);
    assert_eq!(main_plan(&ppm), MainPlan::Still { mode: DisplayMode::ScrollHorizontal });
    let png = request("image/png", DisplayLimit::Duration { millis: 1 }, ProtoDisplayMode::Unspecified);
    assert_eq!(main_plan(&png), MainPlan::Still { mode: DisplayMode::Static });
}

#[test]
fn failures_are_told_apart() {
    let closed = Failure::Display(DisplayError::WindowClosed(WindowClosedError));
    let stopped = Failure::Stopped(Stopped::Deadline);
    let other = Failure::Limit(LimitError::NonPositiveDimensions);
    assert_eq!(failure_kind(&closed), FailureKind::WindowClosed);
    assert_eq!(failure_kind(&stopped), FailureKind::Stopped);
    assert_eq!(failure_kind(&other), FailureKind::Other);
    assert_eq!(failure_kind(&Failure::Display(DisplayError::Backend("x".to_string()))), FailureKind::Other);
    assert_eq!(eyecatch_failure(&closed), EyecatchFailure::Propagate);
    assert_eq!(eyecatch_failure(&stopped), EyecatchFailure::Ignore);
    assert_eq!(eyecatch_failure(&other), EyecatchFailure::Warn);
}

#[test]
fn outcomes_follow_the_worker_rules() {
    assert_eq!(request_outcome(None, false, 0, 10), Outcome::Displayed);
    assert_eq!(request_outcome(Some(FailureKind::WindowClosed), false, 0, 10), Outcome::StopWorker);
    assert_eq!(request_outcome(Some(FailureKind::Other), true, 0, 10), Outcome::StopWorker);
    assert_eq!(request_outcome(Some(FailureKind::Stopped), false, 0, 10), Outcome::DeadlineExceeded);
    assert_eq!(request_outcome(Some(FailureKind::Other), false, 10, 10), Outcome::DeadlineExceeded);
    assert_eq!(request_outcome(Some(FailureKind::Other), false, 9, 10), Outcome::Failed);
    assert!(idle_poll_stops(&DisplayError::WindowClosed(WindowClosedError)));
    assert!(!idle_poll_stops(&DisplayError::Backend("x".to_string())));
}

fn config(eyecatch_path: Option<&str>, jingle_path: Option<&str>, eyecatch_duration_millis: u64) -> Config {
    Config {
        worker_timeout_millis: 30_000,
        panel_rows: 2,
        panel_cols: 4,
        panel_brightness: 50,
        scroll_interval_millis: 30,
        jingle_path: jingle_path.map(str::to_string),
        panel_refresh_rate: 120,
        panel_slowdown: None,
        panel_pwm_bits: 11,
        panel_pwm_lsb_nanoseconds: 130,
        eyecatch_path: eyecatch_path.map(str::to_string),
        eyecatch_duration_millis,
        image_limits: ImageLimits::default(),
    }
}

fn eyecatch_frames() -> Vec<AnimFrame> {
    vec![AnimFrame { image: RgbaImage { width: 1, height: 1, data: vec![0; 4] }, delay_millis: 100 }]
}

fn png_request() -> DisplayRequest {
    request("image/png", DisplayLimit::Duration { millis: 1000 }, ProtoDisplayMode::Unspecified)
}

#[test]
fn eyecatch_is_loaded_once_when_configured() {
    let cfg = config(Some("eye.gif"), None, 3000);
    let req = png_request();
    let mut state = EyecatchState::new();
    let mut p = RequestProgress::new();
    assert!(matches!(p.next(&mut state, &cfg, &req, StepEvent::Proceed), RequestStep::CheckWork));
    assert!(matches!(p.next(&mut state, &cfg, &req, StepEvent::Checked(Ok(()))), RequestStep::LoadEyecatch));
    assert!(!state.loaded);
    let read = StepEvent::EyecatchRead(Some(eyecatch_frames()));
    assert!(matches!(p.next(&mut state, &cfg, &req, read), RequestStep::CheckWork));
    assert!(matches!(p.next(&mut state, &cfg, &req, StepEvent::Checked(Ok(()))), RequestStep::CheckWork));
    assert!(state.loaded);
    assert_eq!(state.frames.as_ref().map(|f| f.len()), Some(1));
    // A later request does not read the file again.
    let mut p = RequestProgress::new();
    assert!(matches!(p.next(&mut state, &cfg, &req, StepEvent::Proceed), RequestStep::CheckWork));
    assert!(matches!(p.next(&mut state, &cfg, &req, StepEvent::Checked(Ok(()))), RequestStep::CheckWork));
    assert_eq!(p.stage, RequestStage::JingleCheck);
    // An empty path counts as none: nothing is read, and the state is loaded.
    let cfg = config(Some(""), None, 3000);
    let mut state = EyecatchState::new();
    let mut p = RequestProgress::new();
    p.next(&mut state, &cfg, &req, StepEvent::Proceed);
    assert!(matches!(p.next(&mut state, &cfg, &req, StepEvent::Checked(Ok(()))), RequestStep::CheckWork));
    assert!(state.loaded);
    assert!(state.frames.is_none());
    assert!(configured(&Some("x".to_string())));
    assert!(!configured(&None));
}

#[test]
fn request_steps_run_in_order() {
    let cfg = config(None, Some("jingle.wav"), 3000);
    let req = png_request();
    let mut state = EyecatchState::new();
    state.loaded = true;
    state.frames = Some(eyecatch_frames());
    let mut p = RequestProgress::new();
    assert!(matches!(p.next(&mut state, &cfg, &req, StepEvent::Proceed), RequestStep::CheckWork));
    assert!(matches!(p.next(&mut state, &cfg, &req, StepEvent::Checked(Ok(()))), RequestStep::CheckWork));
    assert!(matches!(p.next(&mut state, &cfg, &req, StepEvent::Checked(Ok(()))), RequestStep::PlayJingle));
    assert!(matches!(
        p.next(&mut state, &cfg, &req, StepEvent::Proceed),
        RequestStep::ShowEyecatch { millis: 3000 }
    ));
    // A stop at the end of the eye-catch time does not end the request.
    let stopped = StepEvent::EyecatchShown(Err(Failure::Stopped(Stopped::Deadline)));
    assert!(matches!(p.next(&mut state, &cfg, &req, stopped), RequestStep::ClearDisplay));
    assert!(matches!(p.next(&mut state, &cfg, &req, StepEvent::Cleared(Ok(()))), RequestStep::CheckWork));
    assert!(matches!(
        p.next(&mut state, &cfg, &req, StepEvent::Checked(Ok(()))),
        RequestStep::ShowMain(MainPlan::Still { mode: DisplayMode::Static })
    ));
    assert!(matches!(p.next(&mut state, &cfg, &req, StepEvent::Proceed), RequestStep::Finished));
}

#[test]
fn eyecatch_is_skipped_without_frames_or_duration() {
    let req = png_request();
    for (frames, millis) in [(Some(eyecatch_frames()), 0), (None, 3000)] {
        let cfg = config(None, None, millis);
        let mut state = EyecatchState::new();
        state.loaded = true;
        state.frames = frames;
        let mut p = RequestProgress::new();
        p.next(&mut state, &cfg, &req, StepEvent::Proceed);
        p.next(&mut state, &cfg, &req, StepEvent::Checked(Ok(())));
        assert!(matches!(p.next(&mut state, &cfg, &req, StepEvent::Checked(Ok(()))), RequestStep::CheckWork));
        assert_eq!(p.stage, RequestStage::MainCheck);
    }
}

#[test]
fn request_failures_end_the_request() {
    let req = png_request();
    // A stop right after reading leaves the eye-catch for the next request.
    let cfg = config(Some("eye.gif"), None, 3000);
    let mut state = EyecatchState::new();
    let mut p = RequestProgress::new();
    p.next(&mut state, &cfg, &req, StepEvent::Proceed);
    p.next(&mut state, &cfg, &req, StepEvent::Checked(Ok(())));
    p.next(&mut state, &cfg, &req, StepEvent::EyecatchRead(Some(eyecatch_frames())));
    let step = p.next(&mut state, &cfg, &req, StepEvent::Checked(Err(Stopped::Shutdown)));
    assert!(matches!(step, RequestStep::Fail(Failure::Stopped(Stopped::Shutdown))));
    assert!(!state.loaded);
    assert!(state.frames.is_none());
    assert!(matches!(p.next(&mut state, &cfg, &req, StepEvent::Proceed), RequestStep::Finished));
    // A failed read only leaves the eye-catch out.
    let mut p = RequestProgress::new();
    p.next(&mut state, &cfg, &req, StepEvent::Proceed);
    p.next(&mut state, &cfg, &req, StepEvent::Checked(Ok(())));
    p.next(&mut state, &cfg, &req, StepEvent::EyecatchRead(None));
    assert!(matches!(p.next(&mut state, &cfg, &req, StepEvent::Checked(Ok(()))), RequestStep::CheckWork));
    assert!(state.loaded);
    assert!(state.frames.is_none());
    // A closed window during the eye-catch ends the request.
    let mut state = EyecatchState::new();
    state.loaded = true;
    state.frames = Some(eyecatch_frames());
    let mut p = RequestProgress::new();
    p.next(&mut state, &cfg, &req, StepEvent::Proceed);
    p.next(&mut state, &cfg, &req, StepEvent::Checked(Ok(())));
    p.next(&mut state, &cfg, &req, StepEvent::Checked(Ok(())));
    let closed = StepEvent::EyecatchShown(Err(Failure::Display(DisplayError::WindowClosed(WindowClosedError))));
    let step = p.next(&mut state, &cfg, &req, closed);
    assert!(matches!(step, RequestStep::Fail(Failure::Display(DisplayError::WindowClosed(_)))));
    // Another display error is only logged; a failed clear ends the request.
    let mut p = RequestProgress::new();
    p.next(&mut state, &cfg, &req, StepEvent::Proceed);
    p.next(&mut state, &cfg, &req, StepEvent::Checked(Ok(())));
    p.next(&mut state, &cfg, &req, StepEvent::Checked(Ok(())));
    let backend = StepEvent::EyecatchShown(Err(Failure::Display(DisplayError::Backend("x".to_string()))));
    assert!(matches!(p.next(&mut state, &cfg, &req, backend), RequestStep::ClearDisplay));
    let cleared = StepEvent::Cleared(Err(DisplayError::Backend("y".to_string())));
    assert!(matches!(p.next(&mut state, &cfg, &req, cleared), RequestStep::Fail(Failure::Display(DisplayError::Backend(_)))));
    // The check before the main image.
    let mut p = RequestProgress::new();
    p.next(&mut state, &cfg, &req, StepEvent::Proceed);
    p.next(&mut state, &cfg, &req, StepEvent::Checked(Ok(())));
    let step = p.next(&mut state, &cfg, &req, StepEvent::Checked(Err(Stopped::Deadline)));
    assert!(matches!(step, RequestStep::Fail(Failure::Stopped(Stopped::Deadline))));
}

#[test]
fn shutdown_takes_precedence_over_the_deadline() {
    assert_eq!(check_work(true, 0, 10), Err(Stopped::Shutdown));
    assert_eq!(check_work(true, 20, 10), Err(Stopped::Shutdown));
    assert_eq!(check_work(false, 10, 10), Err(Stopped::Deadline));
    assert_eq!(check_work(false, 9, 10), Ok(()));
}

#[test]
fn cancellation_is_seen_through_every_clone() {
    let shutdown = Shutdown::new();
    let other = shutdown.clone();
    assert!(!shutdown.is_cancelled());
    other.cancel();
    assert!(shutdown.is_cancelled());
    assert!(other.is_cancelled());
    let clock = Clock::start();
    let work = Work { shutdown: &shutdown, clock: &clock, deadline: u64::MAX };
    assert_eq!(work.check(), Err(Stopped::Shutdown));
}

#[test]
fn narrowed_work_never_outlives_its_parent() {
    let shutdown = Shutdown::new();
    let clock = Clock::start();
    let parent = Work { shutdown: &shutdown, clock: &clock, deadline: clock.now_millis() + 50 };
    assert!(parent.narrowed(10_000).deadline <= parent.deadline);
    let short = parent.narrowed(0);
    assert_eq!(short.check(), Err(Stopped::Deadline));
}

#[test]
fn eyecatch_file_is_read_within_its_limit() {
    assert_eq!(check_eyecatch_file(false, 10), Err(EyecatchFileError::NotAFile));
    assert_eq!(check_eyecatch_file(true, MAX_EYECATCH_FILE_BYTES), Ok(()));
    assert_eq!(check_eyecatch_file(true, MAX_EYECATCH_FILE_BYTES + 1), Err(EyecatchFileError::TooLarge));
    let mut data = vec![1u8, 2];
    assert_eq!(append_chunk(&mut data, &[3, 4]), Ok(()));
    assert_eq!(data, vec![1, 2, 3, 4]);
    let mut big = vec![0u8; MAX_EYECATCH_FILE_BYTES as usize - 1];
    assert_eq!(append_chunk(&mut big, &[1, 2]), Err(EyecatchFileError::TooLarge));
    assert_eq!(big.len(), MAX_EYECATCH_FILE_BYTES as usize - 1);
    assert_eq!(append_chunk(&mut big, &[1]), Ok(()));
}
