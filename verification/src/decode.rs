//! Decoding of encoded images within the configured budgets. The image crate
//! parses the formats; the size and frame budgets are checked here.
use vstd::prelude::*;
use crate::display::AnimFrame;
use crate::error::Failure;
use crate::limits::{DecoderLimits, ImageLimits, LimitError};
use crate::raster::RgbaImage;
use crate::work::Work;

verus! {

#[verifier::external_type_specification]
#[verifier::external_body]
pub struct ExFrames<'a>(image::Frames<'a>);

#[verifier::external_type_specification]
#[verifier::external_body]
pub struct ExFrame(image::Frame);

/// What the decoder reports before it decodes pixels.
#[derive(Clone, Copy, Debug, PartialEq, Eq, Structural)]
pub struct ImageHeader {
    pub width: u32,
    pub height: u32,
    /// Bytes of the decoded image in its own colour format.
    pub total_bytes: u64,
}

/// The header that the image crate reads from `data`, with its format guessed
/// from the content, under `limits`; `None` where it fails.
pub uninterp spec fn image_header(data: Seq<u8>, limits: DecoderLimits) -> Option<ImageHeader>;

/// The image that the image crate decodes from `data` under `limits`, converted
/// to RGBA: width, height and bytes; `None` where it fails.
pub uninterp spec fn decoded_rgba(data: Seq<u8>, limits: DecoderLimits) -> Option<(u32, u32, Seq<u8>)>;

/// Reads the header of an encoded image: `guess_format` on the bytes (the
/// built-in signature table), `ImageReader::with_format`, `limits`,
/// `into_decoder`, then the decoder's `dimensions` and `total_bytes`. The
/// decoder's type depends on the format, so the header is read in one call.
/// Claimed: success and the header are a function of the bytes and the limits.
#[verifier::external_body]
fn read_image_header(data: &[u8], limits: DecoderLimits) -> (r: Result<ImageHeader, image::ImageError>)
    ensures
        r is Ok <==> image_header(data@, limits) is Some,
        r matches Ok(h) ==> image_header(data@, limits) == Some(h),
{
    let format = image::guess_format(data)?;
    let mut reader = image::ImageReader::with_format(std::io::Cursor::new(data), format);
    let mut l = image::Limits::default();
    (l.max_image_width, l.max_image_height, l.max_alloc) = (limits.max_image_width, limits.max_image_height, limits.max_alloc);
    reader.limits(l);
    let decoder = reader.into_decoder()?;
    let (width, height) = image::ImageDecoder::dimensions(&decoder);
    Ok(ImageHeader { width, height, total_bytes: image::ImageDecoder::total_bytes(&decoder) })
}

/// Decodes an encoded image: `guess_format` on the bytes,
/// `ImageReader::with_format`, `limits`, `into_decoder`,
/// `DynamicImage::from_decoder`, then `into_rgba8` and its size and raw bytes.
/// Claimed: success and the pixels are a function of the bytes and the limits.
#[verifier::external_body]
fn decode_rgba(data: &[u8], limits: DecoderLimits) -> (r: Result<(u32, u32, Vec<u8>), image::ImageError>)
    ensures
        r is Ok <==> decoded_rgba(data@, limits) is Some,
        r matches Ok(p) ==> decoded_rgba(data@, limits) == Some((p.0, p.1, p.2@)),
{
    let format = image::guess_format(data)?;
    let mut reader = image::ImageReader::with_format(std::io::Cursor::new(data), format);
    let mut l = image::Limits::default();
    (l.max_image_width, l.max_image_height, l.max_alloc) = (limits.max_image_width, limits.max_image_height, limits.max_alloc);
    reader.limits(l);
    let rgba = image::DynamicImage::from_decoder(reader.into_decoder()?)?.into_rgba8();
    Ok((rgba.width(), rgba.height(), rgba.into_raw()))
}

/// The logical screen size that a GIF declares; `None` where the image crate
/// cannot read it.
pub uninterp spec fn gif_screen(data: Seq<u8>) -> Option<(u32, u32)>;

/// `GifDecoder::new` on the bytes, then its `dimensions`. The source widens
/// the GIF's 16-bit screen size, so both sides are at most 65535. Claimed:
/// success and the size are a function of the bytes.
#[verifier::external_body]
fn read_gif_screen(data: &[u8]) -> (r: Result<(u32, u32), image::ImageError>)
    ensures
        r is Ok <==> gif_screen(data@) is Some,
        r matches Ok(size) ==> gif_screen(data@) == Some(size) && size.0 <= 65535 && size.1 <= 65535,
{
    let decoder = image::codecs::gif::GifDecoder::new(std::io::Cursor::new(data))?;
    Ok(image::ImageDecoder::dimensions(&decoder))
}

/// The sides of a screen are within the decoder's width and height limits.
pub open spec fn within_limits(limits: DecoderLimits, size: (u32, u32)) -> bool {
    &&& (limits.max_image_width matches Some(w) ==> size.0 <= w)
    &&& (limits.max_image_height matches Some(h) ==> size.1 <= h)
}

/// The frames that a GIF decoder over `data`, under `limits`, yields from the
/// first on: for each frame its delay as a fraction of milliseconds
/// (numerator, denominator), its width, height and RGBA bytes; `None` for an
/// error, which ends the sequence.
pub uninterp spec fn gif_frame_items(data: Seq<u8>, limits: DecoderLimits) -> Seq<Option<(u32, u32, u32, u32, Seq<u8>)>>;

/// What a frame iterator still yields, in the terms of `gif_frame_items`.
pub uninterp spec fn frames_ahead(frames: image::Frames) -> Seq<Option<(u32, u32, u32, u32, Seq<u8>)>>;

/// `GifDecoder::new` on the bytes, `set_limits` with these limits, then
/// `into_frames`. The decoder opens where `GifDecoder::new` does (as for
/// `gif_screen`) and `set_limits` accepts the screen: its `check_support`
/// accepts every limit and its `check_dimensions` compares the sides with the
/// width and height limits. The frames it yields are a function of the bytes
/// and the limits.
#[verifier::external_body]
fn open_gif_frames<'a>(data: &'a [u8], limits: DecoderLimits) -> (r: Result<image::Frames<'a>, image::ImageError>)
    ensures
        r is Ok <==> (gif_screen(data@) matches Some(size) && within_limits(limits, size)),
        r matches Ok(f) ==> frames_ahead(f) == gif_frame_items(data@, limits),
{
    let mut decoder = image::codecs::gif::GifDecoder::new(std::io::Cursor::new(data))?;
    let mut l = image::Limits::default();
    (l.max_image_width, l.max_image_height, l.max_alloc) = (limits.max_image_width, limits.max_image_height, limits.max_alloc);
    image::ImageDecoder::set_limits(&mut decoder, l)?;
    Ok(image::AnimationDecoder::into_frames(decoder))
}

/// `Iterator::next` on the frames, with the frame taken apart by
/// `Frame::delay`, `Delay::numer_denom_ms` and `Frame::into_buffer` (size and
/// raw RGBA bytes): the next item of `frames_ahead`, which it consumes. What
/// the iterator yields after an error is not stated.
#[verifier::external_body]
fn next_gif_frame(frames: &mut image::Frames) -> (r: Option<Result<(u32, u32, u32, u32, Vec<u8>), image::ImageError>>)
    ensures
        frames_ahead(*old(frames)).len() == 0 ==> r is None,
        frames_ahead(*old(frames)).len() > 0 && frames_ahead(*old(frames))[0] is None ==> r matches Some(Err(_)),
        frames_ahead(*old(frames)).len() > 0 && frames_ahead(*old(frames))[0] is Some ==> {
            &&& r matches Some(Ok(q)) && frames_ahead(*old(frames))[0]->0 == (q.0, q.1, q.2, q.3, q.4@)
            &&& frames_ahead(*final(frames)) == frames_ahead(*old(frames)).drop_first()
        },
{
    match frames.next()? {
        Err(e) => Some(Err(e)),
        Ok(frame) => {
            let (num, den) = frame.delay().numer_denom_ms();
            let buffer = frame.into_buffer();
            Some(Ok((num, den, buffer.width(), buffer.height(), buffer.into_raw())))
        },
    }
}

/// The header's size against the limits, then its decoded size against
/// `MAX_DECODED_BYTES`.
pub open spec fn header_result(limits: ImageLimits, header: ImageHeader) -> Result<(), Failure> {
    match limits.dimensions_result(header.width, header.height) {
        Err(e) => Err(Failure::Limit(e)),
        Ok(()) => if header.total_bytes <= limits.max_decoded_bytes {
            Ok(())
        } else {
            Err(Failure::DecodedTooLarge)
        },
    }
}

pub fn check_header(limits: &ImageLimits, header: ImageHeader) -> (r: Result<(), Failure>)
    ensures
        r == header_result(*limits, header),
{
    match limits.check_dimensions(header.width, header.height) {
        Err(e) => return Err(Failure::Limit(e)),
        Ok(()) => {},
    }
    if header.total_bytes <= limits.max_decoded_bytes {
        Ok(())
    } else {
        Err(Failure::DecodedTooLarge)
    }
}

/// An RGBA image from decoded parts, refused unless there are four bytes per pixel.
pub fn rgba_image(width: u32, height: u32, data: Vec<u8>) -> (r: Result<RgbaImage, Failure>)
    ensures
        r is Ok <==> data@.len() == width * height * 4,
        r matches Ok(img) ==> img.wf() && img.width == width && img.height == height && img.data@ == data@,
        r matches Err(e) ==> e is BadPixelBuffer,
{
    proof {
        crate::limits::lemma_u32_product(width, height);
    }
    let expected: u128 = (width as u128) * (height as u128) * 4;
    if (data.len() as u128) == expected {
        Ok(RgbaImage { width, height, data })
    } else {
        Err(Failure::BadPixelBuffer)
    }
}

/// Decoding succeeds unless the work is stopped: the header reads, fits the
/// limits, and the image decodes to four bytes per pixel.
pub open spec fn image_ok(data: Seq<u8>, limits: ImageLimits) -> bool {
    &&& image_header(data, limits.decoder_limits_spec()) matches Some(h)
    &&& header_result(limits, h) is Ok
    &&& decoded_rgba(data, limits.decoder_limits_spec()) matches Some(p)
    &&& p.2.len() == p.0 * p.1 * 4
}

/// The reasons other than a stop for which decoding fails with `e`: the
/// header does not read, it breaks the limits, the image does not decode, or
/// the decoded buffer does not hold four bytes per pixel.
pub open spec fn image_failure(data: Seq<u8>, limits: ImageLimits, e: Failure) -> bool {
    let dl = limits.decoder_limits_spec();
    ||| e is Image && image_header(data, dl) is None
    ||| (image_header(data, dl) matches Some(h) && header_result(limits, h) == Err::<(), Failure>(e))
    ||| e is Image && decoded_rgba(data, dl) is None
    ||| e is BadPixelBuffer && (decoded_rgba(data, dl) matches Some(p) && p.2.len() != p.0 * p.1 * 4)
}

/// Decode a still image. The size is checked before any pixel is decoded; the
/// work is checked before and after decoding, a failed decoding included.
pub fn image(data: &[u8], limits: &ImageLimits, work: &Work) -> (r: Result<RgbaImage, Failure>)
    ensures
        r matches Ok(img) ==> {
            &&& img.wf()
            &&& image_header(data@, limits.decoder_limits_spec()) matches Some(h)
            &&& header_result(*limits, h) is Ok
            &&& decoded_rgba(data@, limits.decoder_limits_spec()) == Some((img.width, img.height, img.data@))
        },
        (image_header(data@, limits.decoder_limits_spec()) matches Some(h) && header_result(*limits, h) is Err)
            ==> r is Err,
        image_header(data@, limits.decoder_limits_spec()) is None ==> r is Err,
        image_ok(data@, *limits) ==> r is Ok || r matches Err(Failure::Stopped(_)),
        r matches Err(e) ==> e is Stopped || image_failure(data@, *limits, e),
{
    match work.check() {
        Err(s) => return Err(Failure::Stopped(s)),
        Ok(()) => {},
    }
    let dl = limits.decoder_limits();
    let header = match read_image_header(data, dl) {
        Err(e) => return Err(Failure::Image(e)),
        Ok(h) => h,
    };
    check_header(limits, header)?;
    match work.check() {
        Err(s) => return Err(Failure::Stopped(s)),
        Ok(()) => {},
    }
    let (width, height, bytes) = match decode_rgba(data, dl) {
        Err(e) => {
            // Decoding that ran past the deadline, or into shutdown, stops.
            return match work.check() {
                Err(s) => Err(Failure::Stopped(s)),
                Ok(()) => Err(Failure::Image(e)),
            };
        },
        Ok(p) => p,
    };
    let img = rgba_image(width, height, bytes)?;
    match work.check() {
        Err(s) => return Err(Failure::Stopped(s)),
        Ok(()) => {},
    }
    Ok(img)
}

/// The display time of a GIF frame: its delay in milliseconds rounded up and
/// kept within 10 ms..60 s; 100 ms where the delay is unset.
pub open spec fn delay_millis_of(num: u32, den: u32) -> u64 {
    if num == 0 || den == 0 {
        100
    } else {
        let q = (num + den - 1) / (den as int);
        if q < 10 { 10 } else if q > 60_000 { 60_000 } else { q as u64 }
    }
}

pub fn frame_delay_millis(num: u32, den: u32) -> (r: u64)
    ensures
        r == delay_millis_of(num, den),
        10 <= r <= 60_000,
{
    if num == 0 || den == 0 {
        return 100;
    }
    let q = ((num as u64) + (den as u64) - 1) / (den as u64);
    if q < 10 {
        10
    } else if q > 60_000 {
        60_000
    } else {
        q
    }
}

/// The decoder gets half of `MAX_DECODED_BYTES` as scratch space; retained
/// frames get the rest.
pub open spec fn gif_scratch_bytes(limits: ImageLimits) -> u64 {
    limits.max_decoded_bytes / 2
}

pub open spec fn retained_budget(limits: ImageLimits) -> int {
    limits.max_decoded_bytes - gif_scratch_bytes(limits)
}

/// Admit one more frame of `frame_bytes` when `count` frames with `retained`
/// bytes are kept already: the new retained total, or why it is refused.
pub open spec fn frame_admission(limits: ImageLimits, count: int, retained: u64, frame_bytes: u64) -> Result<u64, Failure> {
    if count >= limits.max_frames {
        Err(Failure::GifTooManyFrames(limits.max_frames))
    } else if retained + frame_bytes > u64::MAX {
        Err(Failure::GifSizeOverflow)
    } else if retained + frame_bytes > retained_budget(limits) {
        Err(Failure::GifFramesTooLarge)
    } else {
        Ok((retained + frame_bytes) as u64)
    }
}

pub fn admit_gif_frame(limits: &ImageLimits, count: usize, retained: u64, frame_bytes: u64) -> (r: Result<u64, Failure>)
    ensures
        r == frame_admission(*limits, count as int, retained, frame_bytes),
{
    if count >= limits.max_frames {
        return Err(Failure::GifTooManyFrames(limits.max_frames));
    }
    let total = match retained.checked_add(frame_bytes) {
        None => return Err(Failure::GifSizeOverflow),
        Some(t) => t,
    };
    if total > limits.max_decoded_bytes - limits.max_decoded_bytes / 2 {
        return Err(Failure::GifFramesTooLarge);
    }
    Ok(total)
}

/// The GIF limits: the dimension limit on both sides and the scratch allocation.
pub open spec fn gif_decoder_limits(limits: ImageLimits) -> DecoderLimits {
    DecoderLimits {
        max_image_width: Some(limits.max_dimension),
        max_image_height: Some(limits.max_dimension),
        max_alloc: Some(gif_scratch_bytes(limits)),
    }
}

/// The frames the GIF decoder yields for `data` under the GIF limits.
pub open spec fn gif_items(data: Seq<u8>, limits: ImageLimits) -> Seq<Option<(u32, u32, u32, u32, Seq<u8>)>> {
    gif_frame_items(data, gif_decoder_limits(limits))
}

/// A kept frame is the decoded frame `item`: its pixels, and its delay
/// rounded and bounded as `delay_millis_of` says.
pub open spec fn frame_from(f: AnimFrame, item: Option<(u32, u32, u32, u32, Seq<u8>)>) -> bool {
    let p = item->0;
    &&& item is Some
    &&& f.image.width == p.2
    &&& f.image.height == p.3
    &&& f.image.data@ == p.4
    &&& f.delay_millis == delay_millis_of(p.0, p.1)
}

/// A frame without an error, with four bytes per pixel.
pub open spec fn whole_frame(item: Option<(u32, u32, u32, u32, Seq<u8>)>) -> bool {
    let p = item->0;
    item is Some && p.4.len() == p.2 * p.3 * 4
}

/// Decoding a GIF succeeds unless the work is stopped: the screen reads and
/// fits the limits, the decoder yields between one and `MAX_ANIMATION_FRAMES`
/// frames without an error, each with four bytes per pixel, and the frames
/// fit the retained budget.
pub open spec fn gif_ok(data: Seq<u8>, limits: ImageLimits) -> bool {
    let items = gif_items(data, limits);
    &&& gif_screen(data) matches Some(size)
    &&& limits.dimensions_ok(size.0, size.1)
    &&& size.0 * size.1 * 4 <= retained_budget(limits)
    &&& 1 <= items.len() <= limits.max_frames
    &&& items.len() * (size.0 * size.1 * 4) <= retained_budget(limits)
    &&& forall|i: int| 0 <= i < items.len() ==> whole_frame(#[trigger] items[i])
}

/// The reasons other than a stop or a decoder error for which a GIF with a
/// readable screen is refused with `e`: the screen breaks the size limits, one
/// frame alone exceeds the retained budget, more frames than allowed arrive,
/// the arriving frames together exceed the budget (or 64 bits), no frame
/// arrives, or a frame's buffer is malformed.
pub open spec fn gif_failure(data: Seq<u8>, limits: ImageLimits, e: Failure) -> bool {
    &&& gif_screen(data) matches Some(size)
    &&& {
        ||| (e matches Failure::Limit(le) && limits.dimensions_result(size.0, size.1) == Err::<(), LimitError>(le))
        ||| limits.dimensions_ok(size.0, size.1) && {
            let frame_bytes = size.0 * size.1 * 4;
            ||| e is GifFrameTooLarge && frame_bytes > retained_budget(limits)
            ||| frame_bytes <= retained_budget(limits) && {
                ||| e == Failure::GifTooManyFrames(limits.max_frames)
                ||| e is GifFramesTooLarge
                ||| e is GifSizeOverflow
                ||| e is GifEmpty
                ||| e is BadPixelBuffer
            }
        }
    }
}

/// Decode an animated GIF within the frame and byte budgets. The screen size
/// is checked before any frame is decoded; every frame is counted against
/// `MAX_ANIMATION_FRAMES` and against the retained-byte budget as it arrives.
pub fn gif(data: &[u8], limits: &ImageLimits, work: &Work) -> (r: Result<Vec<AnimFrame>, Failure>)
    ensures
        r matches Ok(frames) ==> {
            &&& gif_screen(data@) matches Some(size)
            &&& limits.dimensions_ok(size.0, size.1)
            &&& 1 <= frames@.len() <= limits.max_frames
            &&& frames@.len() * (size.0 * size.1 * 4) <= retained_budget(*limits)
            &&& forall|i: int| 0 <= i < frames@.len() ==> (#[trigger] frames@[i]).image.wf()
                && 10 <= frames@[i].delay_millis <= 60_000
        },
        gif_screen(data@) is None ==> r is Err,
        (gif_screen(data@) matches Some(size) && !limits.dimensions_ok(size.0, size.1)) ==> r is Err,
        (gif_screen(data@) matches Some(size) && size.0 * size.1 * 4 > retained_budget(*limits)) ==> r is Err,
        r matches Err(e) ==> e is Stopped || e is Image || gif_failure(data@, *limits, e),
        r matches Ok(frames) ==> frames@.len() == gif_items(data@, *limits).len() && forall|i: int|
            0 <= i < frames@.len() ==> frame_from(#[trigger] frames@[i], gif_items(data@, *limits)[i]),
        gif_ok(data@, *limits) ==> r is Ok || r matches Err(Failure::Stopped(_)),
{
    match work.check() {
        Err(s) => return Err(Failure::Stopped(s)),
        Ok(()) => {},
    }
    let (width, height) = match read_gif_screen(data) {
        Err(e) => return Err(Failure::Image(e)),
        Ok(size) => size,
    };
    match limits.check_dimensions(width, height) {
        Err(e) => return Err(Failure::Limit(e)),
        Ok(()) => {},
    }
    let scratch = limits.max_decoded_bytes / 2;
    let dl = DecoderLimits {
        max_image_width: Some(limits.max_dimension),
        max_image_height: Some(limits.max_dimension),
        max_alloc: Some(scratch),
    };
    assert((width as u64) * (height as u64) * 4 <= 0x4_0000_0000) by (nonlinear_arith)
        requires width <= 65535, height <= 65535;
    let frame_bytes = (width as u64) * (height as u64) * 4;
    if frame_bytes > limits.max_decoded_bytes - scratch {
        return Err(Failure::GifFrameTooLarge);
    }
    let mut source = match open_gif_frames(data, dl) {
        Err(e) => return Err(Failure::Image(e)),
        Ok(f) => f,
    };
    let ghost items = gif_items(data@, *limits);
    assert(dl == gif_decoder_limits(*limits));
    let mut frames: Vec<AnimFrame> = Vec::new();
    let mut retained: u64 = 0;
    loop
        invariant_except_break
            frames_ahead(source) == items.skip(frames@.len() as int),
        invariant
            frames@.len() <= limits.max_frames,
            items == gif_items(data@, *limits),
            frames@.len() <= items.len(),
            forall|i: int| 0 <= i < frames@.len() ==> frame_from(#[trigger] frames@[i], items[i]),
            gif_ok(data@, *limits) ==> items.len() <= limits.max_frames,
            gif_screen(data@) == Some((width, height)),
            limits.dimensions_ok(width, height),
            frame_bytes == width * height * 4,
            frame_bytes <= retained_budget(*limits),
            retained == frames@.len() * frame_bytes,
            retained <= retained_budget(*limits),
            forall|i: int| 0 <= i < frames@.len() ==> (#[trigger] frames@[i]).image.wf()
                && 10 <= frames@[i].delay_millis <= 60_000,
        ensures
            frames@.len() == items.len(),
        decreases limits.max_frames - frames@.len(),
    {
        match work.check() {
            Err(s) => return Err(Failure::Stopped(s)),
            Ok(()) => {},
        }
        let ghost ahead = frames_ahead(source);
        let (num, den, fw, fh, bytes) = match next_gif_frame(&mut source) {
            None => break,
            Some(Err(e)) => return Err(Failure::Image(e)),
            Some(Ok(frame)) => frame,
        };
        let ghost n = frames@.len();
        assert(ahead.len() > 0 && ahead[0] == items[n as int]);
        proof {
            assert(retained + frame_bytes == (n + 1) * frame_bytes) by (nonlinear_arith)
                requires retained == n * frame_bytes;
            assert(n < items.len());
            if gif_ok(data@, *limits) {
                assert(whole_frame(items[n as int]));
                assert(items.len() * frame_bytes <= retained_budget(*limits));
                assert((n + 1) * frame_bytes <= items.len() * frame_bytes) by (nonlinear_arith)
                    requires n + 1 <= items.len();
            }
        }
        match work.check() {
            Err(s) => return Err(Failure::Stopped(s)),
            Ok(()) => {},
        }
        retained = admit_gif_frame(limits, frames.len(), retained, frame_bytes)?;
        let delay_millis = frame_delay_millis(num, den);
        let image = rgba_image(fw, fh, bytes)?;
        frames.push(AnimFrame { image, delay_millis });
        assert((n + 1) * frame_bytes == n * frame_bytes + frame_bytes) by (nonlinear_arith);
        assert(items.skip((n + 1) as int) =~= ahead.drop_first());
    }
    if frames.len() == 0 {
        return Err(Failure::GifEmpty);
    }
    Ok(frames)
}

} // verus!
