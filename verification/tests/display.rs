use std::cell::RefCell;
use std::rc::Rc;
use std::time::{Duration, Instant};

use led_service2::config::Config;
use led_service2::decode;
use led_service2::display::{AnimFrame, DisplayError, DisplayLimit, DisplayMode, DisplayStats, LedDisplay, WindowClosedError};
use led_service2::error::Failure;
use led_service2::limits::{Backend, ImageLimits, LimitError};
use led_service2::mime::ProtoDisplayMode;
use led_service2::playback::AnimStep;
use led_service2::present::{prepare_animation, prepare_still, FrameRequest};
use led_service2::raster::{fill_pixels, prepare, Canvas, RgbaImage, Scale};
use led_service2::request::DisplayRequest;
use led_service2::work::{Clock, Shutdown, Stopped, Work};
use led_service2::worker::{EyecatchState, MainPlan, RequestProgress, RequestStep, StepEvent};

#[derive(Default)]
struct State {
    renders: usize,
    clears: usize,
    polls: usize,
    poll_delay: Duration,
    close_on_poll: bool,
    close_on_render: bool,
    cancel_on_render: Option<Shutdown>,
    rendered_frames: Vec<Vec<(u8, u8, u8)>>,
}

/// Block for `span`, as a panel refresh does.
fn wait(span: Duration) {
    let start = Instant::now();
    while start.elapsed() < span {
        std::hint::spin_loop();
    }
}

/// A 4x2 panel that records what it is asked to do.
struct FakeDisplay(Rc<RefCell<State>>);

impl LedDisplay for FakeDisplay {
    fn rows(&self) -> usize {
        2
    }
    fn cols(&self) -> usize {
        4
    }
    fn render_frame(&mut self, pixels: &[(u8, u8, u8)]) -> Result<(), DisplayError> {
        let mut state = self.0.borrow_mut();
        state.renders += 1;
        state.rendered_frames.push(pixels.to_vec());
        if state.close_on_render {
            return Err(DisplayError::WindowClosed(WindowClosedError));
        }
        if let Some(shutdown) = &state.cancel_on_render {
            shutdown.cancel();
        }
        wait(Duration::from_millis(1));
        Ok(())
    }
    fn poll_events(&mut self) -> Result<(), DisplayError> {
        let mut state = self.0.borrow_mut();
        state.polls += 1;
        let delay = state.poll_delay;
        if state.close_on_poll {
            return Err(DisplayError::WindowClosed(WindowClosedError));
        }
        drop(state);
        wait(delay);
        Ok(())
    }
    fn clear(&mut self) -> Result<(), DisplayError> {
        self.0.borrow_mut().clears += 1;
        Ok(())
    }
}

fn fake() -> (FakeDisplay, Rc<RefCell<State>>) {
    let state = Rc::new(RefCell::new(State::default()));
    (FakeDisplay(state.clone()), state)
}

/// An opaque image whose pixel at (x, y) is `f(x, y)`.
fn rgb_image(width: u32, height: u32, f: impl Fn(u32, u32) -> [u8; 3]) -> RgbaImage {
    let mut data = Vec::new();
    for y in 0..height {
        for x in 0..width {
            let [r, g, b] = f(x, y);
            data.extend_from_slice(&[r, g, b, 255]);
        }
    }
    RgbaImage { width, height, data }
}

fn black(width: u32, height: u32) -> RgbaImage {
    rgb_image(width, height, |_, _| [0, 0, 0])
}

fn work<'a>(shutdown: &'a Shutdown, clock: &'a Clock, millis: u64) -> Work<'a> {
    Work { shutdown, clock, deadline: clock.now_millis() + millis }
}

fn prepare_on(display: &mut FakeDisplay, img: &RgbaImage, scale: Scale, limits: &ImageLimits, work: &Work) -> Result<Canvas, Failure> {
    let (cols, rows) = (display.cols() as u32, display.rows() as u32);
    prepare(display, cols, rows, img, scale, limits, Backend::Emulator, work)
}

/// Prepare and play a still or scrolling image until it is done.
fn show(
    display: &mut FakeDisplay,
    img: &RgbaImage,
    mode: DisplayMode,
    scroll_interval_millis: u64,
    limit: DisplayLimit,
    limits: &ImageLimits,
    work: &Work,
) -> Result<DisplayStats, Failure> {
    let mut presentation = prepare_still(display, img, mode, scroll_interval_millis, limit, limits, Backend::Emulator, work)?;
    loop {
        match presentation.begin_pass(work)? {
            FrameRequest::Done(stats) => return Ok(stats),
            FrameRequest::Render => {
                let rendered = display.render_frame(&presentation.pixels);
                if let Some(stats) = presentation.end_pass(rendered, work)? {
                    return Ok(stats);
                }
            }
        }
    }
}

/// Prepare and play an animation for `display_millis`.
fn show_animated(
    display: &mut FakeDisplay,
    frames: &Vec<AnimFrame>,
    display_millis: u64,
    limits: &ImageLimits,
    work: &Work,
) -> Result<(), Failure> {
    let Some(mut animation) = prepare_animation(display, frames, display_millis, limits, Backend::Emulator, work)? else {
        return Ok(());
    };
    loop {
        match animation.tick(work)? {
            AnimStep::Done => return Ok(()),
            AnimStep::Advanced => {}
            AnimStep::Render(i) => display.render_frame(&animation.frames[i]).map_err(Failure::Display)?,
        }
    }
}

fn config() -> Config {
    Config {
        worker_timeout_millis: 30_000,
        panel_rows: 2,
        panel_cols: 4,
        panel_brightness: 50,
        scroll_interval_millis: 30,
        jingle_path: None,
        panel_refresh_rate: 120,
        panel_slowdown: None,
        panel_pwm_bits: 11,
        panel_pwm_lsb_nanoseconds: 130,
        eyecatch_path: None,
        eyecatch_duration_millis: 3000,
        image_limits: ImageLimits::default(),
    }
}

/// Carry out the steps of one request as the worker does (no jingle, no
/// eye-catch file).
fn process(
    display: &mut FakeDisplay,
    req: &DisplayRequest,
    cfg: &Config,
    work: &Work,
    eyecatch: &mut EyecatchState,
) -> Result<Option<DisplayStats>, Failure> {
    let mut progress = RequestProgress::new();
    let mut event = StepEvent::Proceed;
    loop {
        event = match progress.next(eyecatch, cfg, req, event) {
            RequestStep::CheckWork => StepEvent::Checked(work.check()),
            RequestStep::LoadEyecatch => StepEvent::EyecatchRead(None),
            RequestStep::PlayJingle => StepEvent::Proceed,
            RequestStep::ShowEyecatch { millis } => {
                let frames = eyecatch.frames.clone().unwrap_or_default();
                StepEvent::EyecatchShown(show_animated(display, &frames, millis, &cfg.image_limits, &work.narrowed(millis)))
            }
            RequestStep::ClearDisplay => StepEvent::Cleared(display.clear()),
            RequestStep::ShowMain(MainPlan::Animation { display_millis }) => {
                let frames = decode::gif(&req.image_data, &cfg.image_limits, work)?;
                return show_animated(display, &frames, display_millis, &cfg.image_limits, work).map(|()| None);
            }
            RequestStep::ShowMain(MainPlan::Still { mode }) => {
                let image = decode::image(&req.image_data, &cfg.image_limits, work)?;
                return show(display, &image, mode, cfg.scroll_interval_millis, req.limit, &cfg.image_limits, work).map(Some);
            }
            RequestStep::Fail(f) => return Err(f),
            RequestStep::Finished => return Ok(None),
        };
    }
}

fn frames(count: usize, delay_millis: u64) -> Vec<AnimFrame> {
    (0..count).map(|_| AnimFrame { image: black(4, 2), delay_millis }).collect()
}

fn is_stopped(f: &Failure) -> bool {
    matches!(f, Failure::Stopped(_))
}

#[test]
fn static_crop_avoids_allocating_full_scaled_image() {
    let shutdown = Shutdown::new();
    let clock = Clock::start();
    let work = work(&shutdown, &clock, 1000);
    let (mut display, _) = fake();
    let img = black(1, 4096);
    let limits = ImageLimits { max_render_bytes: 4096, ..ImageLimits::default() };
    let panel = prepare_on(&mut display, &img, Scale::Width, &limits, &work).unwrap();
    assert_eq!((panel.width, panel.height), (4, 2));
}

#[test]
fn wide_scroll_is_rejected_before_allocating_buffer() {
    let shutdown = Shutdown::new();
    let clock = Clock::start();
    let work = work(&shutdown, &clock, 1000);
    let (mut display, _) = fake();
    let limits = ImageLimits { max_render_bytes: 4096, ..ImageLimits::default() };
    let err = match prepare_on(&mut display, &black(4096, 1), Scale::Scroll, &limits, &work) {
        Err(e) => e,
        Ok(_) => panic!("a wide scroll canvas must be refused"),
    };
    assert!(err.message().contains("MAX_RENDER_BYTES"));
    assert!(matches!(err, Failure::Limit(LimitError::RenderBytesExceed(4096))));
}

#[test]
fn display_duration_starts_after_preparation() {
    let shutdown = Shutdown::new();
    let clock = Clock::start();
    let work = work(&shutdown, &clock, 1000);
    let (mut display, state) = fake();
    state.borrow_mut().poll_delay = Duration::from_millis(40);
    let started = Instant::now();
    show(
        &mut display,
        &black(4, 2),
        DisplayMode::Static,
        1,
        DisplayLimit::Duration { millis: 40 },
        &ImageLimits::default(),
        &work,
    )
    .unwrap();
    assert!(started.elapsed() >= Duration::from_millis(75));
    assert!(state.borrow().renders > 0);
}

#[test]
fn cycle_limit_renders_exact_offsets_without_an_extra_frame() {
    let shutdown = Shutdown::new();
    let clock = Clock::start();
    let work = work(&shutdown, &clock, 1000);
    let (mut display, state) = fake();
    let image = rgb_image(3, 2, |x, _| [x as u8, 0, 0]);
    let stats = show(
        &mut display,
        &image,
        DisplayMode::ScrollHorizontal,
        0,
        DisplayLimit::ScrollCycles { cycles: 2, min_display_millis: 0 },
        &ImageLimits::default(),
        &work,
    )
    .unwrap();
    let offsets: Vec<u8> = state.borrow().rendered_frames.iter().map(|pixels| pixels[0].0).collect();
    assert_eq!(offsets, vec![0, 1, 2, 0, 1, 2]);
    assert_eq!(stats.completed_cycles, 2);
    assert_eq!(stats.prepared_width_px, 3);
}

#[test]
fn minimum_time_can_finish_during_an_additional_cycle() {
    let shutdown = Shutdown::new();
    let clock = Clock::start();
    let work = work(&shutdown, &clock, 1000);
    let (mut display, state) = fake();
    let stats = show(
        &mut display,
        &black(1, 2),
        DisplayMode::ScrollHorizontal,
        0,
        DisplayLimit::ScrollCycles { cycles: 1, min_display_millis: 5 },
        &ImageLimits::default(),
        &work,
    )
    .unwrap();
    assert!(stats.completed_cycles >= 1);
    assert!(stats.elapsed_millis >= 5);
    assert!(state.borrow().renders > 1);
}

#[test]
fn repeated_renders_do_not_complete_a_cycle_before_the_hold_period() {
    let shutdown = Shutdown::new();
    let clock = Clock::start();
    let work = work(&shutdown, &clock, 1000);
    let (mut display, state) = fake();
    let stats = show(
        &mut display,
        &black(1, 2),
        DisplayMode::ScrollHorizontal,
        5,
        DisplayLimit::ScrollCycles { cycles: 1, min_display_millis: 0 },
        &ImageLimits::default(),
        &work,
    )
    .unwrap();
    assert_eq!(stats.completed_cycles, 1);
    assert!(stats.elapsed_millis >= 5);
    assert!(state.borrow().renders > 1);
}

#[test]
fn scaling_centers_crop_and_black_padding() {
    let shutdown = Shutdown::new();
    let clock = Clock::start();
    let work = work(&shutdown, &clock, 1000);
    let (mut display, _) = fake();
    let img = rgb_image(4, 4, |_, y| [y as u8, 0, 0]);
    let panel = prepare_on(&mut display, &img, Scale::Width, &ImageLimits::default(), &work).unwrap();
    assert_eq!(panel.rows[0][0].0, 1);
    assert_eq!(panel.rows[1][0].0, 2);
    let img = rgb_image(1, 2, |_, _| [255, 0, 0]);
    let panel = prepare_on(&mut display, &img, Scale::Height, &ImageLimits::default(), &work).unwrap();
    assert_eq!(panel.rows[0][0].0, 0);
    assert_eq!(panel.rows[0][1].0, 255);
    assert_eq!(panel.rows[0][2].0, 0);
}

#[test]
fn animation_render_budget_counts_all_frames() {
    let shutdown = Shutdown::new();
    let clock = Clock::start();
    let work = work(&shutdown, &clock, 1000);
    let (mut display, state) = fake();
    let limits = ImageLimits { max_render_bytes: 4096, ..ImageLimits::default() };
    assert!(show_animated(&mut display, &frames(200, 10), 1000, &limits, &work).is_err());
    assert_eq!(state.borrow().renders, 0);
}

#[test]
fn animation_budget_includes_emulator_screen_at_boundary() {
    // 40 RGB frames plus one preparation canvas and the 10x emulator screen.
    let total: u64 = 4 * 2 * (3 * 41 + 400);
    for budget in [total - 1, total] {
        let shutdown = Shutdown::new();
        let clock = Clock::start();
        let work = work(&shutdown, &clock, 1000);
        let (mut display, state) = fake();
        state.borrow_mut().cancel_on_render = Some(shutdown.clone());
        let limits = ImageLimits { max_render_bytes: budget, ..ImageLimits::default() };
        let err = show_animated(&mut display, &frames(40, 10), 1000, &limits, &work).unwrap_err();
        if budget < total {
            assert!(err.message().contains("MAX_RENDER_BYTES"));
            assert_eq!(state.borrow().renders, 0);
        } else {
            assert!(is_stopped(&err));
            assert_eq!(state.borrow().renders, 1);
        }
    }
}

#[test]
fn animation_cancellation_stops_during_long_frame() {
    let shutdown = Shutdown::new();
    let clock = Clock::start();
    let work = work(&shutdown, &clock, 30_000);
    let (mut display, state) = fake();
    state.borrow_mut().cancel_on_render = Some(shutdown.clone());
    let err = show_animated(&mut display, &frames(1, 30_000), 30_000, &ImageLimits::default(), &work).unwrap_err();
    assert!(matches!(err, Failure::Stopped(Stopped::Shutdown)));
    assert_eq!(state.borrow().renders, 1);
}

#[test]
fn fill_pixels_wraps_the_canvas_horizontally() {
    let canvas = Canvas {
        width: 3,
        height: 2,
        rows: vec![
            vec![(0, 0, 0), (1, 0, 0), (2, 0, 0)],
            vec![(10, 0, 0), (11, 0, 0), (12, 0, 0)],
        ],
    };
    let mut buf = vec![(9, 9, 9)];
    fill_pixels(&mut buf, &canvas, 2, 2, 4);
    let reds: Vec<u8> = buf.iter().map(|p| p.0).collect();
    assert_eq!(reds, vec![2, 0, 1, 2, 12, 10, 11, 12]);
}

#[test]
fn premultiplied_alpha_darkens_transparent_pixels() {
    let shutdown = Shutdown::new();
    let clock = Clock::start();
    let work = work(&shutdown, &clock, 1000);
    let (mut display, _) = fake();
    let img = RgbaImage { width: 1, height: 1, data: vec![255, 100, 0, 51] };
    let panel = prepare_on(&mut display, &img, Scale::Height, &ImageLimits::default(), &work).unwrap();
    // The 1x1 image scales to 2x2, padded by one column on the left.
    assert_eq!(panel.rows[0][0], (0, 0, 0));
    assert_eq!(panel.rows[0][1], (51, 20, 0));
    assert_eq!(panel.rows[1][2], (51, 20, 0));
    assert_eq!(panel.rows[1][3], (0, 0, 0));
}

#[test]
fn preparation_stops_when_shutdown_was_requested() {
    let shutdown = Shutdown::new();
    shutdown.cancel();
    let clock = Clock::start();
    let work = work(&shutdown, &clock, 1000);
    let (mut display, state) = fake();
    let err = prepare_on(&mut display, &black(4, 2), Scale::Width, &ImageLimits::default(), &work).unwrap_err();
    assert!(matches!(err, Failure::Stopped(Stopped::Shutdown)));
    assert_eq!(state.borrow().polls, 0);
}

#[test]
fn expired_deadline_stops_before_the_first_render() {
    let shutdown = Shutdown::new();
    let clock = Clock::start();
    let work = Work { shutdown: &shutdown, clock: &clock, deadline: 0 };
    let (mut display, state) = fake();
    let err = show(
        &mut display,
        &black(4, 2),
        DisplayMode::Static,
        30,
        DisplayLimit::Duration { millis: 1000 },
        &ImageLimits::default(),
        &work,
    )
    .unwrap_err();
    assert!(matches!(err, Failure::Stopped(Stopped::Deadline)));
    assert_eq!(state.borrow().renders, 0);
}

#[test]
fn closed_window_ends_playback_with_a_display_failure() {
    let shutdown = Shutdown::new();
    let clock = Clock::start();
    let work = work(&shutdown, &clock, 1000);
    let (mut display, state) = fake();
    state.borrow_mut().close_on_render = true;
    let err = show(
        &mut display,
        &black(4, 2),
        DisplayMode::Static,
        30,
        DisplayLimit::Duration { millis: 1000 },
        &ImageLimits::default(),
        &work,
    )
    .unwrap_err();
    assert!(matches!(err, Failure::Display(DisplayError::WindowClosed(_))));
    assert_eq!(state.borrow().renders, 1);
}

#[test]
fn animation_plays_frames_in_order() {
    let shutdown = Shutdown::new();
    let clock = Clock::start();
    let work = work(&shutdown, &clock, 1000);
    let (mut display, state) = fake();
    let frames: Vec<AnimFrame> = (0..3u8)
        .map(|i| AnimFrame { image: rgb_image(4, 2, move |_, _| [i, 0, 0]), delay_millis: 1 })
        .collect();
    show_animated(&mut display, &frames, 60, &ImageLimits::default(), &work).unwrap();
    let shown: Vec<u8> = state.borrow().rendered_frames.iter().map(|p| p[0].0).collect();
    assert!(shown.len() >= 3);
    // Each change of frame moves to the next frame, cyclically.
    for pair in shown.windows(2) {
        assert!(pair[1] == pair[0] || pair[1] == (pair[0] + 1) % 3);
    }
    assert_eq!(shown[0], 0);
}

#[test]
fn empty_animation_shows_nothing() {
    let shutdown = Shutdown::new();
    let clock = Clock::start();
    let work = work(&shutdown, &clock, 1000);
    let (mut display, state) = fake();
    show_animated(&mut display, &Vec::new(), 1000, &ImageLimits::default(), &work).unwrap();
    assert_eq!(state.borrow().renders, 0);
}

#[test]
fn eyecatch_uses_request_deadline_and_skips_main_decode_when_expired() {
    let shutdown = Shutdown::new();
    let clock = Clock::start();
    let (mut display, state) = fake();
    let cfg = config();
    let work = work(&shutdown, &clock, 25);
    let mut eyecatch = EyecatchState::new();
    eyecatch.loaded = true;
    eyecatch.frames = Some(vec![AnimFrame { image: black(4, 2), delay_millis: 5000 }]);
    let req = DisplayRequest {
        image_data: b"invalid main image".to_vec(),
        mime_type: "image/png".to_string(),
        limit: DisplayLimit::Duration { millis: 30_000 },
        display_mode: ProtoDisplayMode::Static,
    };
    let start = Instant::now();
    let err = process(&mut display, &req, &cfg, &work, &mut eyecatch).unwrap_err();
    assert!(is_stopped(&err));
    assert!(start.elapsed() < Duration::from_secs(1));
    assert!(state.borrow().renders > 0);
}

#[test]
fn duration_display_reports_at_least_its_duration() {
    let shutdown = Shutdown::new();
    let clock = Clock::start();
    let work = work(&shutdown, &clock, 5000);
    let (mut display, _state) = fake();
    let stats = show(
        &mut display,
        &black(4, 2),
        DisplayMode::Static,
        1,
        DisplayLimit::Duration { millis: 30 },
        &ImageLimits::default(),
        &work,
    )
    .unwrap();
    assert!(stats.elapsed_millis >= 30);
    assert_eq!(stats.completed_cycles, 0);
    assert_eq!(stats.prepared_width_px, 4);
}

#[test]
fn frames_repeat_with_the_canvas_width() {
    let canvas = Canvas {
        width: 3,
        height: 2,
        rows: vec![vec![(1, 0, 0), (2, 0, 0), (3, 0, 0)], vec![(4, 0, 0), (5, 0, 0), (6, 0, 0)]],
    };
    let mut a = Vec::new();
    let mut b = Vec::new();
    fill_pixels(&mut a, &canvas, 1, 2, 4);
    fill_pixels(&mut b, &canvas, 4, 2, 4);
    assert_eq!(a, b);
    assert_eq!(a, vec![(2, 0, 0), (3, 0, 0), (1, 0, 0), (2, 0, 0), (5, 0, 0), (6, 0, 0), (4, 0, 0), (5, 0, 0)]);
}

#[test]
fn stopped_work_asks_for_no_frame() {
    let shutdown = Shutdown::new();
    let clock = Clock::start();
    let work = work(&shutdown, &clock, 5000);
    let (mut display, state) = fake();
    let limit = DisplayLimit::Duration { millis: 1000 };
    let presentation =
        prepare_still(&mut display, &black(4, 2), DisplayMode::Static, 1, limit, &ImageLimits::default(), Backend::Emulator, &work)
            .unwrap();
    assert!(matches!(presentation.begin_pass(&work), Ok(FrameRequest::Render)));
    shutdown.cancel();
    assert!(matches!(presentation.begin_pass(&work), Err(Failure::Stopped(Stopped::Shutdown))));
    let live = Shutdown::new();
    let expired = Work { shutdown: &live, clock: &clock, deadline: 0 };
    assert!(matches!(presentation.begin_pass(&expired), Err(Failure::Stopped(Stopped::Deadline))));
    assert_eq!(state.borrow().renders, 0);
}

#[test]
fn render_error_ends_the_pass_with_it() {
    let shutdown = Shutdown::new();
    let clock = Clock::start();
    let work = work(&shutdown, &clock, 5000);
    let (mut display, _state) = fake();
    let limit = DisplayLimit::Duration { millis: 1000 };
    let mut presentation =
        prepare_still(&mut display, &black(4, 2), DisplayMode::Static, 1, limit, &ImageLimits::default(), Backend::Emulator, &work)
            .unwrap();
    let offset = presentation.playback.offset;
    let closed = Err(DisplayError::WindowClosed(WindowClosedError));
    let r = presentation.end_pass(closed, &work);
    assert!(matches!(r, Err(Failure::Display(DisplayError::WindowClosed(_)))));
    assert_eq!(presentation.playback.offset, offset);
}
