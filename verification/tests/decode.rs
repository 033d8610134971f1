use led_service2::decode::{admit_gif_frame, check_header, frame_delay_millis, gif, image, rgba_image, ImageHeader};
use led_service2::error::Failure;
use led_service2::limits::{ImageLimits, LimitError};
use led_service2::work::{Clock, Shutdown, Work};

fn png(width: u32, height: u32) -> Vec<u8> {
    let mut bytes = std::io::Cursor::new(Vec::new());
    ::image::DynamicImage::new_rgb8(width, height)
        .write_to(&mut bytes, ::image::ImageFormat::Png)
        .unwrap();
    bytes.into_inner()
}

fn gif_bytes(width: u32, height: u32, count: usize) -> Vec<u8> {
    let mut bytes = Vec::new();
    {
        let mut encoder = ::image::codecs::gif::GifEncoder::new(&mut bytes);
        for _ in 0..count {
            encoder
                .encode_frame(::image::Frame::new(::image::RgbaImage::new(width, height)))
                .unwrap();
        }
    }
    bytes
}

fn work<'a>(shutdown: &'a Shutdown, clock: &'a Clock) -> Work<'a> {
    Work { shutdown, clock, deadline: clock.now_millis() + 1000 }
}

#[test]
fn rejects_oversized_dimensions_before_decoding_pixels() {
    let shutdown = Shutdown::new();
    let clock = Clock::start();
    let work = work(&shutdown, &clock);
    let limits = ImageLimits { max_dimension: 4, ..ImageLimits::default() };
    assert!(image(&png(5, 1), &limits, &work).is_err());
    assert!(gif(&gif_bytes(5, 1, 1), &limits, &work).is_err());
}

#[test]
fn animation_frame_limit_accepts_boundary_and_rejects_next_frame() {
    let shutdown = Shutdown::new();
    let clock = Clock::start();
    let work = work(&shutdown, &clock);
    let limits = ImageLimits { max_frames: 2, ..ImageLimits::default() };
    assert_eq!(gif(&gif_bytes(2, 2, 2), &limits, &work).ok().unwrap().len(), 2);
    let err = gif(&gif_bytes(2, 2, 3), &limits, &work).err().unwrap();
    assert!(err.message().contains("MAX_ANIMATION_FRAMES"));
    assert!(matches!(err, Failure::GifTooManyFrames(2)));
}

#[test]
fn animation_budget_counts_retained_frames() {
    let shutdown = Shutdown::new();
    let clock = Clock::start();
    let work = work(&shutdown, &clock);
    // 128 bytes for scratch, 128 for eight retained 2x2 RGBA frames.
    let limits = ImageLimits { max_decoded_bytes: 256, ..ImageLimits::default() };
    assert_eq!(gif(&gif_bytes(2, 2, 8), &limits, &work).ok().unwrap().len(), 8);
    assert!(gif(&gif_bytes(2, 2, 9), &limits, &work).is_err());
}

#[test]
fn static_output_budget_is_enforced() {
    let shutdown = Shutdown::new();
    let clock = Clock::start();
    let work = work(&shutdown, &clock);
    let limits = ImageLimits { max_decoded_bytes: 128, ..ImageLimits::default() };
    assert!(image(&png(16, 16), &limits, &work).is_err());
}

#[test]
fn decodes_a_png_into_rgba() {
    let shutdown = Shutdown::new();
    let clock = Clock::start();
    let work = work(&shutdown, &clock);
    let img = image(&png(3, 2), &ImageLimits::default(), &work).ok().unwrap();
    assert_eq!((img.width, img.height), (3, 2));
    assert_eq!(img.data.len(), 3 * 2 * 4);
    assert!(img.data.chunks(4).all(|p| p == [0, 0, 0, 255]));
}

#[test]
fn decodes_gif_frames_with_their_delays() {
    let shutdown = Shutdown::new();
    let clock = Clock::start();
    let work = work(&shutdown, &clock);
    let frames = gif(&gif_bytes(3, 2, 2), &ImageLimits::default(), &work).ok().unwrap();
    assert_eq!(frames.len(), 2);
    for frame in &frames {
        assert_eq!((frame.image.width, frame.image.height), (3, 2));
        assert_eq!(frame.image.data.len(), 24);
        // The encoder writes no delay, which plays as 100 ms.
        assert_eq!(frame.delay_millis, 100);
    }
}

#[test]
fn undecodable_bytes_are_refused() {
    let shutdown = Shutdown::new();
    let clock = Clock::start();
    let work = work(&shutdown, &clock);
    assert!(matches!(image(b"invalid main image", &ImageLimits::default(), &work), Err(Failure::Image(_))));
    assert!(matches!(gif(b"invalid main image", &ImageLimits::default(), &work), Err(Failure::Image(_))));
}

#[test]
fn cancelled_work_decodes_nothing() {
    let shutdown = Shutdown::new();
    shutdown.cancel();
    let clock = Clock::start();
    let work = work(&shutdown, &clock);
    assert!(matches!(image(&png(2, 2), &ImageLimits::default(), &work), Err(Failure::Stopped(_))));
    assert!(matches!(gif(&gif_bytes(2, 2, 1), &ImageLimits::default(), &work), Err(Failure::Stopped(_))));
}

#[test]
fn gif_frame_larger_than_the_retained_budget_is_refused() {
    let shutdown = Shutdown::new();
    let clock = Clock::start();
    let work = work(&shutdown, &clock);
    // 4x4 RGBA is 64 bytes; half of 100 bytes is kept for frames.
    let limits = ImageLimits { max_decoded_bytes: 100, ..ImageLimits::default() };
    assert!(matches!(gif(&gif_bytes(4, 4, 1), &limits, &work), Err(Failure::GifFrameTooLarge)));
}

#[test]
fn frame_delays_round_up_and_stay_within_bounds() {
    assert_eq!(frame_delay_millis(0, 1), 100);
    assert_eq!(frame_delay_millis(5, 0), 100);
    assert_eq!(frame_delay_millis(1, 1), 10);
    assert_eq!(frame_delay_millis(95, 2), 48);
    assert_eq!(frame_delay_millis(100, 1), 100);
    assert_eq!(frame_delay_millis(70_000, 1), 60_000);
    assert_eq!(frame_delay_millis(u32::MAX, u32::MAX), 10);
}

#[test]
fn gif_frames_are_admitted_within_count_and_bytes() {
    let limits = ImageLimits { max_frames: 2, max_decoded_bytes: 256, ..ImageLimits::default() };
    assert_eq!(admit_gif_frame(&limits, 0, 0, 64).ok(), Some(64));
    assert_eq!(admit_gif_frame(&limits, 1, 64, 64).ok(), Some(128));
    assert!(matches!(admit_gif_frame(&limits, 1, 100, 64), Err(Failure::GifFramesTooLarge)));
    assert!(matches!(admit_gif_frame(&limits, 2, 0, 1), Err(Failure::GifTooManyFrames(2))));
    assert!(matches!(admit_gif_frame(&limits, 1, u64::MAX, 1), Err(Failure::GifSizeOverflow)));
}

#[test]
fn header_checks_size_then_decoded_bytes() {
    let limits = ImageLimits { max_dimension: 8, max_decoded_bytes: 100, ..ImageLimits::default() };
    assert!(check_header(&limits, ImageHeader { width: 8, height: 8, total_bytes: 100 }).is_ok());
    assert!(matches!(
        check_header(&limits, ImageHeader { width: 0, height: 8, total_bytes: 0 }),
        Err(Failure::Limit(LimitError::NonPositiveDimensions))
    ));
    assert!(matches!(
        check_header(&limits, ImageHeader { width: 9, height: 1, total_bytes: 0 }),
        Err(Failure::Limit(LimitError::DimensionsExceed(8)))
    ));
    assert!(matches!(
        check_header(&limits, ImageHeader { width: 4, height: 4, total_bytes: 101 }),
        Err(Failure::DecodedTooLarge)
    ));
}

#[test]
fn pixel_buffers_must_hold_four_bytes_per_pixel() {
    assert!(rgba_image(2, 1, vec![0; 8]).is_ok());
    assert!(matches!(rgba_image(2, 1, vec![0; 7]), Err(Failure::BadPixelBuffer)));
}

#[test]
fn gif_frame_delays_come_from_the_source() {
    let mut bytes = Vec::new();
    {
        let mut encoder = ::image::codecs::gif::GifEncoder::new(&mut bytes);
        for delay in [70u32, 250] {
            let frame = ::image::Frame::from_parts(
                ::image::RgbaImage::new(2, 2),
                0,
                0,
                ::image::Delay::from_numer_denom_ms(delay, 1),
            );
            encoder.encode_frame(frame).unwrap();
        }
    }
    let shutdown = Shutdown::new();
    let clock = Clock::start();
    let work = work(&shutdown, &clock);
    let frames = gif(&bytes, &ImageLimits::default(), &work).ok().unwrap();
    let delays: Vec<u64> = frames.iter().map(|f| f.delay_millis).collect();
    assert_eq!(delays, vec![70, 250]);
}

#[test]
fn portable_pixmap_is_recognised_by_its_signature() {
    let mut data = b"P6\n2 1\n255\n".to_vec();
    data.extend_from_slice(&[255, 0, 0, 0, 0, 255]);
    let shutdown = Shutdown::new();
    let clock = Clock::start();
    let work = work(&shutdown, &clock);
    let img = image(&data, &ImageLimits::default(), &work).ok().unwrap();
    assert_eq!((img.width, img.height), (2, 1));
    assert_eq!(img.data, vec![255, 0, 0, 255, 0, 0, 255, 255]);
}
