//! Pixel buffers and the scaling that maps a decoded image onto the panel.
use vstd::prelude::*;
use crate::display::LedDisplay;
use crate::error::Failure;
use crate::limits::{Backend, ImageLimits, LimitError};
use crate::work::Work;

verus! {

/// A decoded image: `data` holds four bytes (red, green, blue, alpha) per
/// pixel, row by row.
#[derive(Clone, Debug)]
pub struct RgbaImage {
    pub width: u32,
    pub height: u32,
    pub data: Vec<u8>,
}

impl RgbaImage {
    pub open spec fn wf(self) -> bool {
        self.data@.len() == self.width * self.height * 4
    }
}

/// The four channels of the pixel at (`x`, `y`).
pub open spec fn rgba_at(img: RgbaImage, x: int, y: int) -> (u8, u8, u8, u8) {
    let i = (y * img.width + x) * 4;
    (img.data@[i], img.data@[i + 1], img.data@[i + 2], img.data@[i + 3])
}

/// A panel-sized RGB image, stored as rows.
#[derive(Clone, Debug)]
pub struct Canvas {
    pub width: u32,
    pub height: u32,
    pub rows: Vec<Vec<(u8, u8, u8)>>,
}

impl Canvas {
    pub open spec fn wf(self) -> bool {
        &&& self.rows@.len() == self.height
        &&& forall|y: int| 0 <= y < self.height ==> (#[trigger] self.rows@[y])@.len() == self.width
    }

    pub open spec fn at(self, x: int, y: int) -> (u8, u8, u8) {
        self.rows@[y]@[x]
    }
}

/// How an image is fitted to the panel.
#[derive(Clone, Copy, Debug, PartialEq, Eq, Structural)]
pub enum Scale {
    /// To the panel width; the canvas is as wide as the panel.
    Width,
    /// To the panel height; the canvas is as wide as the panel.
    Height,
    /// To the panel height; the canvas is as wide as the scaled image.
    Scroll,
}

/// Where the scaled image lies on the canvas: its scaled size, the canvas
/// size, and the centred crop (scaled image larger) or padding (smaller).
#[derive(Clone, Copy, Debug, PartialEq, Eq, Structural)]
pub struct Layout {
    pub scaled_w: u64,
    pub scaled_h: u64,
    pub width: u32,
    pub height: u32,
    pub crop_x: u64,
    pub crop_y: u64,
    pub pad_x: u64,
    pub pad_y: u64,
}

pub open spec fn at_least_one(v: int) -> int {
    if v >= 1 { v } else { 1 }
}

pub open spec fn half_excess(a: int, b: int) -> int {
    if a > b { (a - b) / 2 } else { 0 }
}

/// The scaled size keeps the aspect ratio (rounding down, at least one pixel).
pub open spec fn scaled_size(iw: int, ih: int, cols: int, rows: int, scale: Scale) -> (int, int) {
    match scale {
        Scale::Width => (cols, at_least_one(ih * cols / iw)),
        _ => (at_least_one(iw * rows / ih), rows),
    }
}

/// The layout of an `iw`×`ih` image on a `cols`×`rows` panel; `None` when a
/// scroll canvas would be wider than 32 bits can count.
pub open spec fn layout_for(iw: int, ih: int, cols: int, rows: int, scale: Scale) -> Option<Layout> {
    let (sw, sh) = scaled_size(iw, ih, cols, rows, scale);
    let width = if scale == Scale::Scroll { sw } else { cols };
    if width > u32::MAX {
        None
    } else {
        Some(Layout {
            scaled_w: sw as u64,
            scaled_h: sh as u64,
            width: width as u32,
            height: rows as u32,
            crop_x: half_excess(sw, width) as u64,
            crop_y: half_excess(sh, rows) as u64,
            pad_x: half_excess(width, sw) as u64,
            pad_y: half_excess(rows, sh) as u64,
        })
    }
}

/// Nearest-centre sampling: scaled coordinate `k` of `scaled` maps to source
/// coordinate `⌊(2k + 1)·len / (2·scaled)⌋`.
pub open spec fn sample(k: int, len: int, scaled: int) -> int {
    (2 * k + 1) * len / (2 * scaled)
}

/// A colour channel scaled by alpha, as black background shows through.
pub open spec fn premultiply(c: u8, a: u8) -> u8 {
    (c * a / 255) as u8
}

/// The canvas pixel at (`x`, `y`): black outside the scaled image, else the
/// sampled source pixel with its alpha applied.
pub open spec fn prepared_pixel(img: RgbaImage, lay: Layout, x: int, y: int) -> (u8, u8, u8) {
    if x < lay.pad_x || y < lay.pad_y {
        (0, 0, 0)
    } else if x - lay.pad_x >= lay.scaled_w || y - lay.pad_y >= lay.scaled_h {
        (0, 0, 0)
    } else {
        let p = rgba_at(
            img,
            sample(x - lay.pad_x + lay.crop_x, img.width as int, lay.scaled_w as int),
            sample(y - lay.pad_y + lay.crop_y, img.height as int, lay.scaled_h as int),
        );
        (premultiply(p.0, p.3), premultiply(p.1, p.3), premultiply(p.2, p.3))
    }
}

pub open spec fn prepared_row(img: RgbaImage, lay: Layout, y: int) -> Seq<(u8, u8, u8)> {
    Seq::new(lay.width as nat, |x: int| prepared_pixel(img, lay, x, y))
}

/// `(2k + 1)·len / (2·scaled)` lies below `len` when `k < scaled`.
proof fn lemma_sample_in_range(k: int, len: int, scaled: int)
    requires
        0 <= k < scaled,
        len > 0,
    ensures
        0 <= sample(k, len, scaled) < len,
{
    assert((2 * k + 1) * len < (2 * scaled) * len) by (nonlinear_arith)
        requires 0 <= k < scaled, len > 0;
    assert(0 <= (2 * k + 1) * len) by (nonlinear_arith)
        requires 0 <= k, len > 0;
    vstd::arithmetic::div_mod::lemma_div_by_multiple_is_strongly_ordered(
        (2 * k + 1) * len,
        (2 * scaled) * len,
        len,
        2 * scaled,
    );
    vstd::arithmetic::div_mod::lemma_div_multiples_vanish(len, 2 * scaled);
    assert((2 * scaled) * len == len * (2 * scaled)) by (nonlinear_arith);
    vstd::arithmetic::div_mod::lemma_div_pos_is_pos((2 * k + 1) * len, 2 * scaled);
}

/// The bytes of pixel (`x`, `y`) lie inside the image data.
proof fn lemma_pixel_index(x: int, y: int, w: int, h: int)
    requires
        0 <= x < w,
        0 <= y < h,
    ensures
        0 <= (y * w + x) * 4,
        (y * w + x) * 4 + 3 < w * h * 4,
        y * w + x < w * h,
{
    assert(y * w + x < w * h) by (nonlinear_arith)
        requires 0 <= x < w, 0 <= y < h;
    assert(0 <= y * w) by (nonlinear_arith)
        requires 0 <= y, 0 <= w;
}

pub fn layout(iw: u32, ih: u32, cols: u32, rows: u32, scale: Scale) -> (r: Option<Layout>)
    requires
        iw > 0,
        ih > 0,
    ensures
        r == layout_for(iw as int, ih as int, cols as int, rows as int, scale),
{
    proof {
        crate::limits::lemma_u32_product(ih, cols);
        crate::limits::lemma_u32_product(iw, rows);
    }
    let (sw, sh): (u64, u64) = match scale {
        Scale::Width => {
            let h = (ih as u64) * (cols as u64) / (iw as u64);
            (cols as u64, if h >= 1 { h } else { 1 })
        },
        _ => {
            let w = (iw as u64) * (rows as u64) / (ih as u64);
            (if w >= 1 { w } else { 1 }, rows as u64)
        },
    };
    let width64: u64 = if scale == Scale::Scroll { sw } else { cols as u64 };
    if width64 > 0xffff_ffff {
        return None;
    }
    let rows64 = rows as u64;
    Some(Layout {
        scaled_w: sw,
        scaled_h: sh,
        width: width64 as u32,
        height: rows,
        crop_x: if sw > width64 { (sw - width64) / 2 } else { 0 },
        crop_y: if sh > rows64 { (sh - rows64) / 2 } else { 0 },
        pad_x: if width64 > sw { (width64 - sw) / 2 } else { 0 },
        pad_y: if rows64 > sh { (rows64 - sh) / 2 } else { 0 },
    })
}

/// Inside the scaled image, the crop offset keeps sampling within it.
proof fn lemma_crop_in_range(pos: int, pad: int, crop: int, scaled: int, canvas: int)
    requires
        0 <= pos < canvas,
        scaled >= 1,
        canvas >= 1,
        pad == half_excess(canvas, scaled),
        crop == half_excess(scaled, canvas),
        pos >= pad,
        pos - pad < scaled,
    ensures
        0 <= pos - pad + crop < scaled,
{
}

/// The canvas pixel at (`x`, `y`) of the layout.
pub fn prepared_pixel_at(img: &RgbaImage, lay: &Layout, x: u32, y: u32) -> (r: (u8, u8, u8))
    requires
        img.wf(),
        img.width > 0,
        img.height > 0,
        lay.scaled_w >= 1,
        lay.scaled_h >= 1,
        lay.width >= 1,
        lay.height >= 1,
        lay.pad_x == half_excess(lay.width as int, lay.scaled_w as int),
        lay.crop_x == half_excess(lay.scaled_w as int, lay.width as int),
        lay.pad_y == half_excess(lay.height as int, lay.scaled_h as int),
        lay.crop_y == half_excess(lay.scaled_h as int, lay.height as int),
        x < lay.width,
        y < lay.height,
    ensures
        r == prepared_pixel(*img, *lay, x as int, y as int),
{
    let x64 = x as u64;
    let y64 = y as u64;
    if x64 < lay.pad_x || y64 < lay.pad_y {
        return (0, 0, 0);
    }
    let sx = x64 - lay.pad_x;
    let sy = y64 - lay.pad_y;
    if sx >= lay.scaled_w || sy >= lay.scaled_h {
        return (0, 0, 0);
    }
    proof {
        lemma_crop_in_range(x as int, lay.pad_x as int, lay.crop_x as int, lay.scaled_w as int, lay.width as int);
        lemma_crop_in_range(y as int, lay.pad_y as int, lay.crop_y as int, lay.scaled_h as int, lay.height as int);
    }
    let kx = (sx + lay.crop_x) as u128;
    let ky = (sy + lay.crop_y) as u128;
    let iw = img.width as u128;
    let ih = img.height as u128;
    assert((2 * kx + 1) * iw <= 0x3_ffff_ffff_ffff_ffff_ffff_ffff) by (nonlinear_arith)
        requires kx < 0x1_0000_0000_0000_0000, iw < 0x1_0000_0000;
    assert((2 * ky + 1) * ih <= 0x3_ffff_ffff_ffff_ffff_ffff_ffff) by (nonlinear_arith)
        requires ky < 0x1_0000_0000_0000_0000, ih < 0x1_0000_0000;
    let src_x128 = (2 * kx + 1) * iw / (2 * (lay.scaled_w as u128));
    let src_y128 = (2 * ky + 1) * ih / (2 * (lay.scaled_h as u128));
    proof {
        lemma_sample_in_range(kx as int, iw as int, lay.scaled_w as int);
        lemma_sample_in_range(ky as int, ih as int, lay.scaled_h as int);
    }
    // The sample always lies inside the image; the clamp keeps the index safe regardless.
    let src_x: u32 = if src_x128 < iw { src_x128 as u32 } else { img.width - 1 };
    let src_y: u32 = if src_y128 < ih { src_y128 as u32 } else { img.height - 1 };
    proof {
        lemma_pixel_index(src_x as int, src_y as int, img.width as int, img.height as int);
        crate::limits::lemma_u32_product(src_y, img.width);
    }
    let len = img.data.len();
    let base64 = ((src_y as u64) * (img.width as u64) + (src_x as u64)) * 4;
    assert(base64 + 3 < len);
    let base = base64 as usize;
    let r = img.data[base];
    let g = img.data[base + 1];
    let b = img.data[base + 2];
    let a = img.data[base + 3];
    assert((r as u16) * (a as u16) / 255 <= 255) by (nonlinear_arith)
        requires r <= 255, a <= 255;
    assert((g as u16) * (a as u16) / 255 <= 255) by (nonlinear_arith)
        requires g <= 255, a <= 255;
    assert((b as u16) * (a as u16) / 255 <= 255) by (nonlinear_arith)
        requires b <= 255, a <= 255;
    (
        ((r as u16) * (a as u16) / 255) as u8,
        ((g as u16) * (a as u16) / 255) as u8,
        ((b as u16) * (a as u16) / 255) as u8,
    )
}

/// The checks that come before pixels are sampled, in order: the panel, the
/// image size, the canvas width, and the image plus frame buffers against the
/// render budget.
pub open spec fn prepare_plan(
    limits: ImageLimits,
    backend: Backend,
    img: RgbaImage,
    cols: u32,
    rows: u32,
    scale: Scale,
) -> Result<Layout, Failure> {
    match limits.panel_result(backend, cols, rows) {
        Err(e) => Err(Failure::Limit(e)),
        Ok(()) => match limits.dimensions_result(img.width, img.height) {
            Err(e) => Err(Failure::Limit(e)),
            Ok(()) => match layout_for(img.width as int, img.height as int, cols as int, rows as int, scale) {
                None => Err(Failure::CanvasTooWide),
                Some(lay) => if (lay.width + cols) * rows * 3 > u64::MAX {
                    Err(Failure::Limit(LimitError::RenderSizeOverflow))
                } else {
                    match limits.render_buffers_result(
                        backend,
                        cols,
                        rows,
                        ((lay.width + cols) * rows * 3) as u64,
                    ) {
                        Err(e) => Err(Failure::Limit(e)),
                        Ok(()) => Ok(lay),
                    }
                },
            },
        },
    }
}

/// The canvas holds exactly the prepared pixels of the layout.
pub open spec fn canvas_of(c: Canvas, img: RgbaImage, lay: Layout) -> bool {
    &&& c.wf()
    &&& c.width == lay.width
    &&& c.height == lay.height
    &&& forall|y: int| 0 <= y < lay.height ==> (#[trigger] c.rows@[y])@ == prepared_row(img, lay, y)
}

/// How each scale fits an image: to the width, the scaled image and the
/// canvas are as wide as the panel (cropped or padded vertically); to the
/// height, the scaled image is as tall as the panel on a panel-wide canvas
/// (padded or cropped horizontally); to scroll, it is as tall as the panel
/// and the canvas is as wide as the scaled image. The canvas is as tall as
/// the panel in every case.
pub proof fn lemma_layout_fitting(iw: u32, ih: u32, cols: u32, rows: u32, scale: Scale)
    ensures
        layout_for(iw as int, ih as int, cols as int, rows as int, scale) matches Some(lay) ==> {
            &&& lay.height == rows
            &&& scale == Scale::Width ==> lay.scaled_w == cols && lay.width == cols
            &&& scale == Scale::Height ==> lay.scaled_h == rows && lay.width == cols
            &&& scale == Scale::Scroll ==> lay.scaled_h == rows && lay.width == lay.scaled_w
        },
{
}

proof fn lemma_layout_facts(iw: u32, ih: u32, cols: u32, rows: u32, scale: Scale)
    requires
        iw > 0,
        ih > 0,
        cols > 0,
        rows > 0,
        layout_for(iw as int, ih as int, cols as int, rows as int, scale) is Some,
    ensures
        ({
            let lay = layout_for(iw as int, ih as int, cols as int, rows as int, scale)->0;
            &&& lay.scaled_w >= 1
            &&& lay.scaled_h >= 1
            &&& lay.width >= 1
            &&& lay.height == rows
            &&& lay.pad_x == half_excess(lay.width as int, lay.scaled_w as int)
            &&& lay.crop_x == half_excess(lay.scaled_w as int, lay.width as int)
            &&& lay.pad_y == half_excess(lay.height as int, lay.scaled_h as int)
            &&& lay.crop_y == half_excess(lay.scaled_h as int, lay.height as int)
        }),
{
    crate::limits::lemma_u32_product(ih, cols);
    crate::limits::lemma_u32_product(iw, rows);
    vstd::arithmetic::div_mod::lemma_div_pos_is_pos(ih * cols, iw as int);
    vstd::arithmetic::div_mod::lemma_div_pos_is_pos(iw * rows, ih as int);
    vstd::arithmetic::div_mod::lemma_div_is_ordered(0, ih * cols, iw as int);
    assert(ih * cols <= 0xffff_fffe_0000_0001);
    vstd::arithmetic::div_mod::lemma_div_is_ordered(ih * cols, 0xffff_fffe_0000_0001, iw as int);
    vstd::arithmetic::div_mod::lemma_div_is_ordered_by_denominator(0xffff_fffe_0000_0001, 1, iw as int);
    vstd::arithmetic::div_mod::lemma_div_is_ordered(iw * rows, 0xffff_fffe_0000_0001, ih as int);
    vstd::arithmetic::div_mod::lemma_div_is_ordered_by_denominator(0xffff_fffe_0000_0001, 1, ih as int);
}

/// Sample the image directly into the visible canvas, checking for
/// cancellation on every row and pumping display events every 32 rows.
pub fn prepare<D: LedDisplay + ?Sized>(
    display: &mut D,
    cols: u32,
    rows: u32,
    img: &RgbaImage,
    scale: Scale,
    limits: &ImageLimits,
    backend: Backend,
    work: &Work,
) -> (r: Result<Canvas, Failure>)
    requires
        img.wf(),
    ensures
        r matches Ok(c) ==> prepare_plan(*limits, backend, *img, cols, rows, scale) matches Ok(lay)
            && canvas_of(c, *img, lay),
        r matches Err(e) ==> e is Stopped || e is Display || prepare_plan(
            *limits,
            backend,
            *img,
            cols,
            rows,
            scale,
        ) == Err::<Layout, Failure>(e),
        prepare_plan(*limits, backend, *img, cols, rows, scale) is Err ==> r is Err,
        prepare_plan(*limits, backend, *img, cols, rows, scale) matches Err(pe) ==> r == Err::<Canvas, Failure>(pe)
            || r matches Err(Failure::Stopped(_)),
{
    match work.check() {
        Err(s) => return Err(Failure::Stopped(s)),
        Ok(()) => {},
    }
    match limits.check_panel(cols, rows, backend) {
        Err(e) => return Err(Failure::Limit(e)),
        Ok(()) => {},
    }
    match limits.check_dimensions(img.width, img.height) {
        Err(e) => return Err(Failure::Limit(e)),
        Ok(()) => {},
    }
    let lay = match layout(img.width, img.height, cols, rows, scale) {
        None => return Err(Failure::CanvasTooWide),
        Some(lay) => lay,
    };
    proof {
        lemma_layout_facts(img.width, img.height, cols, rows, scale);
        crate::limits::lemma_u32_product(cols, rows);
    }
    let span = (lay.width as u64) + (cols as u64);
    let rgb_bytes = match span.checked_mul(rows as u64) {
        None => {
            assert(span * rows * 3 > u64::MAX) by (nonlinear_arith) requires span * rows > u64::MAX;
            return Err(Failure::Limit(LimitError::RenderSizeOverflow));
        },
        Some(a) => match a.checked_mul(3) {
            None => {
                assert(span * rows * 3 > u64::MAX) by (nonlinear_arith) requires a * 3 > u64::MAX, a == span * rows;
                return Err(Failure::Limit(LimitError::RenderSizeOverflow));
            },
            Some(b) => b,
        },
    };
    assert(rgb_bytes == (lay.width + cols) * rows * 3) by (nonlinear_arith)
        requires rgb_bytes == span * rows * 3, span == lay.width + cols;
    match limits.check_render_buffers(cols, rows, rgb_bytes, backend) {
        Err(e) => return Err(Failure::Limit(e)),
        Ok(()) => {},
    }
    let mut out: Vec<Vec<(u8, u8, u8)>> = Vec::new();
    let mut y: u32 = 0;
    assert(prepare_plan(*limits, backend, *img, cols, rows, scale) == Ok::<Layout, Failure>(lay));
    while y < rows
        invariant
            prepare_plan(*limits, backend, *img, cols, rows, scale) == Ok::<Layout, Failure>(lay),
            img.wf(),
            img.width > 0,
            img.height > 0,
            lay.scaled_w >= 1,
            lay.scaled_h >= 1,
            lay.width >= 1,
            lay.height == rows,
            lay.pad_x == half_excess(lay.width as int, lay.scaled_w as int),
            lay.crop_x == half_excess(lay.scaled_w as int, lay.width as int),
            lay.pad_y == half_excess(lay.height as int, lay.scaled_h as int),
            lay.crop_y == half_excess(lay.scaled_h as int, lay.height as int),
            y <= rows,
            out@.len() == y,
            forall|yy: int| 0 <= yy < y ==> (#[trigger] out@[yy])@ == prepared_row(*img, lay, yy),
        decreases rows - y,
    {
        match work.check() {
            Err(s) => return Err(Failure::Stopped(s)),
            Ok(()) => {},
        }
        if y % 32 == 0 {
            match display.poll_events() {
                Err(e) => return Err(Failure::Display(e)),
                Ok(()) => {},
            }
        }
        let mut row: Vec<(u8, u8, u8)> = Vec::new();
        let mut x: u32 = 0;
        while x < lay.width
            invariant
                img.wf(),
                img.width > 0,
                img.height > 0,
                lay.scaled_w >= 1,
                lay.scaled_h >= 1,
                lay.width >= 1,
                lay.height == rows,
                lay.pad_x == half_excess(lay.width as int, lay.scaled_w as int),
                lay.crop_x == half_excess(lay.scaled_w as int, lay.width as int),
                lay.pad_y == half_excess(lay.height as int, lay.scaled_h as int),
                lay.crop_y == half_excess(lay.scaled_h as int, lay.height as int),
                y < rows,
                x <= lay.width,
                row@ =~= Seq::new(x as nat, |i: int| prepared_pixel(*img, lay, i, y as int)),
            decreases lay.width - x,
        {
            let p = prepared_pixel_at(img, &lay, x, y);
            row.push(p);
            x += 1;
        }
        assert(row@ =~= prepared_row(*img, lay, y as int));
        out.push(row);
        y += 1;
    }
    match work.check() {
        Err(s) => return Err(Failure::Stopped(s)),
        Ok(()) => {},
    }
    Ok(Canvas { width: lay.width, height: rows, rows: out })
}

/// The pixels of panel row `y` when the canvas is shown from column `offset`,
/// repeating it horizontally as often as the panel needs.
pub open spec fn panel_row(c: Canvas, offset: int, y: int, cols: int) -> Seq<(u8, u8, u8)> {
    Seq::new(cols as nat, |x: int| c.at((offset + x) % (c.width as int), y))
}

/// A full frame: `rows` panel rows, top to bottom.
pub open spec fn frame_pixels(c: Canvas, offset: int, rows: nat, cols: int) -> Seq<(u8, u8, u8)>
    decreases rows,
{
    if rows == 0 {
        Seq::empty()
    } else {
        frame_pixels(c, offset, (rows - 1) as nat, cols) + panel_row(c, offset, rows - 1, cols)
    }
}

/// Refill `buf` with the frame that shows `panel` from column `offset`.
pub fn fill_pixels(buf: &mut Vec<(u8, u8, u8)>, panel: &Canvas, offset: usize, rows: usize, cols: usize)
    requires
        panel.wf(),
        panel.width > 0,
        rows <= panel.height,
        offset + cols <= u64::MAX,
    ensures
        final(buf)@ == frame_pixels(*panel, offset as int, rows as nat, cols as int),
{
    buf.clear();
    let w = panel.width as usize;
    let mut y: usize = 0;
    while y < rows
        invariant
            panel.wf(),
            panel.width > 0,
            w == panel.width,
            rows <= panel.height,
            offset + cols <= u64::MAX,
            y <= rows,
            buf@ == frame_pixels(*panel, offset as int, y as nat, cols as int),
        decreases rows - y,
    {
        let ghost before = buf@;
        let row = &panel.rows[y];
        let mut x: usize = 0;
        while x < cols
            invariant
                panel.wf(),
                panel.width > 0,
                w == panel.width,
                y < rows <= panel.height,
                offset + cols <= u64::MAX,
                x <= cols,
                *row == panel.rows@[y as int],
                row@.len() == panel.width,
                buf@ =~= before + Seq::new(x as nat, |i: int| panel.at((offset + i) % (panel.width as int), y as int)),
            decreases cols - x,
        {
            let idx = ((offset as u64) + (x as u64)) % (w as u64);
            let p = row[idx as usize];
            buf.push(p);
            x += 1;
        }
        assert(buf@ =~= frame_pixels(*panel, offset as int, (y + 1) as nat, cols as int));
        y += 1;
    }
}

/// Pixel `y·cols + x` of a frame is the canvas pixel at column
/// `(offset + x) mod width` of row `y`.
pub proof fn lemma_frame_pixel(c: Canvas, offset: int, rows: nat, cols: int, x: int, y: int)
    requires
        cols >= 0,
        0 <= x < cols,
        0 <= y < rows,
    ensures
        frame_pixels(c, offset, rows, cols).len() == rows * cols,
        frame_pixels(c, offset, rows, cols)[y * cols + x] == c.at((offset + x) % (c.width as int), y),
    decreases rows,
{
    lemma_frame_len(c, offset, rows, cols);
    if y < rows - 1 {
        lemma_frame_pixel(c, offset, (rows - 1) as nat, cols, x, y);
        lemma_frame_len(c, offset, (rows - 1) as nat, cols);
        assert(y * cols + x < (rows - 1) * cols) by (nonlinear_arith)
            requires 0 <= x < cols, 0 <= y < rows - 1;
    } else {
        lemma_frame_len(c, offset, (rows - 1) as nat, cols);
        assert(y * cols == (rows - 1) * cols);
    }
}

/// Frames repeat with the canvas width: shown from `offset + width`, the
/// canvas gives the same frame as from `offset`, so a scroll cycle of
/// `width` steps comes back to its first frame.
pub proof fn lemma_frame_period(c: Canvas, offset: int, rows: nat, cols: int)
    requires
        c.width > 0,
        cols >= 0,
    ensures
        frame_pixels(c, offset + c.width, rows, cols) == frame_pixels(c, offset, rows, cols),
    decreases rows,
{
    if rows > 0 {
        lemma_frame_period(c, offset, (rows - 1) as nat, cols);
        let w = c.width as int;
        assert forall|x: int| 0 <= x < cols implies #[trigger] panel_row(c, offset + w, rows - 1, cols)[x]
            == panel_row(c, offset, rows - 1, cols)[x] by {
            vstd::arithmetic::div_mod::lemma_mod_add_multiples_vanish(offset + x, w);
            assert(offset + w + x == w + (offset + x));
        }
        assert(panel_row(c, offset + w, rows - 1, cols) =~= panel_row(c, offset, rows - 1, cols));
    }
}

proof fn lemma_frame_len(c: Canvas, offset: int, rows: nat, cols: int)
    requires
        cols >= 0,
    ensures
        frame_pixels(c, offset, rows, cols).len() == rows * cols,
    decreases rows,
{
    if rows > 0 {
        lemma_frame_len(c, offset, (rows - 1) as nat, cols);
        assert(panel_row(c, offset, rows - 1, cols).len() == cols);
        assert(frame_pixels(c, offset, rows, cols) == frame_pixels(c, offset, (rows - 1) as nat, cols)
            + panel_row(c, offset, rows - 1, cols));
        assert(rows * cols == (rows - 1) * cols + cols) by (nonlinear_arith);
    } else {
        assert(rows * cols == 0) by (nonlinear_arith)
            requires rows == 0;
    }
}

} // verus!
