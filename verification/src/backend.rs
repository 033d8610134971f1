//! What the display backends compute before they hand a frame to hardware or
//! a window: the emulator's magnified screen, and the LED matrix settings
//! and pixel positions.
use vstd::prelude::*;
use crate::config::Config;

verus! {

/// Each panel pixel is drawn as a 10×10 block of screen pixels.
pub const EMULATOR_SCALE: usize = 10;

/// Whether screen pixel (`sx`, `sy`) of a 10×10 block lies on the LED dot:
/// within 4.5 pixels of the block centre (4.5, 4.5), counted in half pixels.
pub open spec fn on_dot(sx: int, sy: int) -> bool {
    (2 * sx - 9) * (2 * sx - 9) + (2 * sy - 9) * (2 * sy - 9) <= 81
}

/// A colour as the window takes it: `0x00RRGGBB`.
pub open spec fn rgb_word(p: (u8, u8, u8)) -> u32 {
    (p.0 * 65536 + p.1 * 256 + p.2) as u32
}

/// The word at (`x`, `y`) of the emulator window: the colour of the panel
/// pixel under it on the dot, black in the gaps between dots.
pub open spec fn screen_word(pixels: Seq<(u8, u8, u8)>, cols: int, x: int, y: int) -> u32 {
    if on_dot(x % 10, y % 10) {
        rgb_word(pixels[(y / 10) * cols + x / 10])
    } else {
        0
    }
}

/// The emulator window of a `rows`×`cols` panel, row by row.
pub open spec fn emulator_screen(pixels: Seq<(u8, u8, u8)>, rows: int, cols: int) -> Seq<u32> {
    Seq::new((rows * 10 * cols * 10) as nat, |i: int| screen_word(pixels, cols, i % (cols * 10), i / (cols * 10)))
}

fn dot(sx: usize, sy: usize) -> (r: bool)
    requires
        sx < 10,
        sy < 10,
    ensures
        r == on_dot(sx as int, sy as int),
{
    let dx: i64 = 2 * (sx as i64) - 9;
    let dy: i64 = 2 * (sy as i64) - 9;
    assert(dx * dx <= 81 && dy * dy <= 81) by (nonlinear_arith)
        requires -9 <= dx <= 9, -9 <= dy <= 9;
    assert(0 <= dx * dx && 0 <= dy * dy) by (nonlinear_arith);
    dx * dx + dy * dy <= 81
}

proof fn lemma_pixel_index(px: int, py: int, cols: int, rows: int)
    requires
        0 <= px < cols,
        0 <= py < rows,
    ensures
        0 <= py * cols + px < rows * cols,
{
    assert(py * cols + px < rows * cols) by (nonlinear_arith)
        requires 0 <= px < cols, 0 <= py < rows;
    assert(0 <= py * cols) by (nonlinear_arith)
        requires 0 <= py, 0 <= cols;
}

proof fn lemma_screen_coordinates(i: int, w: int, n: int, rows: int, cols: int)
    requires
        w == cols * 10,
        n == rows * 10 * w,
        0 <= i < n,
        cols > 0,
    ensures
        0 <= i % w < w,
        0 <= i / w < rows * 10,
        (i % w) / 10 < cols,
        (i / w) / 10 < rows,
{
    assert(0 <= i / w < rows * 10) by (nonlinear_arith)
        requires w > 0, 0 <= i < rows * 10 * w;
}

/// The window buffer for one frame of a `rows`×`cols` panel, whose pixels
/// come row by row.
pub fn emulator_frame(pixels: &[(u8, u8, u8)], rows: usize, cols: usize) -> (buf: Vec<u32>)
    requires
        pixels@.len() >= rows * cols,
        rows * 10 * cols * 10 <= usize::MAX,
    ensures
        buf@ == emulator_screen(pixels@, rows as int, cols as int),
{
    let ghost target = emulator_screen(pixels@, rows as int, cols as int);
    let mut buf: Vec<u32> = Vec::new();
    if rows == 0 || cols == 0 {
        assert(rows * 10 * cols * 10 == 0) by (nonlinear_arith)
            requires rows == 0 || cols == 0;
        assert(buf@ =~= target);
        return buf;
    }
    assert(cols * 10 <= rows * 10 * cols * 10) by (nonlinear_arith)
        requires rows >= 1, cols >= 1;
    let w: usize = cols * 10;
    assert(rows * 10 * cols * 10 == rows * 10 * w) by (nonlinear_arith)
        requires w == cols * 10;
    assert(rows * 10 <= rows * 10 * w && rows * cols <= rows * 10 * w) by (nonlinear_arith)
        requires w == cols * 10, rows >= 1, cols >= 1;
    let rows10: usize = rows * 10;
    let n: usize = rows10 * w;
    let mut i: usize = 0;
    while i < n
        invariant
            w == cols * 10,
            n == rows * 10 * w,
            cols > 0,
            n == target.len(),
            pixels@.len() >= rows * cols,
            rows * cols <= n,
            target == emulator_screen(pixels@, rows as int, cols as int),
            i <= n,
            buf@ == target.take(i as int),
        decreases n - i,
    {
        let x = i % w;
        let y = i / w;
        proof {
            lemma_screen_coordinates(i as int, w as int, n as int, rows as int, cols as int);
            lemma_pixel_index(x as int / 10, y as int / 10, cols as int, rows as int);
        }
        let word: u32 = if dot(x % 10, y % 10) {
            let p = pixels[(y / 10) * cols + x / 10];
            (p.0 as u32) * 65536 + (p.1 as u32) * 256 + (p.2 as u32)
        } else {
            0
        };
        let ghost before = buf@;
        buf.push(word);
        assert(buf@ =~= target.take(i + 1));
        i += 1;
    }
    assert(buf@ =~= target);
    buf
}

/// The LED matrix options that the configuration asks for.
#[derive(Clone, Copy, Debug, PartialEq, Eq, Structural)]
pub struct MatrixSettings {
    pub rows: u32,
    pub cols: u32,
    pub brightness: u8,
    /// The refresh-rate limit in Hz, set only when positive.
    pub limit_refresh: Option<u32>,
    pub pwm_bits: u8,
    pub pwm_lsb_nanoseconds: u32,
    /// The GPIO slowdown, set only when configured.
    pub gpio_slowdown: Option<u32>,
}

/// The matrix options: the panel size and brightness as configured, a
/// refresh limit only when positive, and the PWM and slowdown settings.
/// The refresh limit and PWM bits are narrowed to the matrix's types.
pub fn matrix_settings(cfg: &Config) -> (r: MatrixSettings)
    ensures
        r.rows == cfg.panel_rows,
        r.cols == cfg.panel_cols,
        r.brightness == cfg.panel_brightness,
        r.limit_refresh == (if cfg.panel_refresh_rate > 0 {
            Some(cfg.panel_refresh_rate as u32)
        } else {
            None::<u32>
        }),
        r.pwm_bits == cfg.panel_pwm_bits as u8,
        r.pwm_lsb_nanoseconds == cfg.panel_pwm_lsb_nanoseconds,
        r.gpio_slowdown == cfg.panel_slowdown,
{
    let limit_refresh = if cfg.panel_refresh_rate > 0 {
        Some(#[verifier::truncate] (cfg.panel_refresh_rate as u32))
    } else {
        None
    };
    MatrixSettings {
        rows: cfg.panel_rows,
        cols: cfg.panel_cols,
        brightness: cfg.panel_brightness,
        limit_refresh,
        pwm_bits: #[verifier::truncate] (cfg.panel_pwm_bits as u8),
        pwm_lsb_nanoseconds: cfg.panel_pwm_lsb_nanoseconds,
        gpio_slowdown: cfg.panel_slowdown,
    }
}

/// Where pixel `i` of a row-by-row frame goes on a panel `cols` wide.
pub fn panel_position(i: usize, cols: usize) -> (r: (i32, i32))
    requires
        cols > 0,
    ensures
        r == ((i % cols) as i32, (i / cols) as i32),
{
    (#[verifier::truncate] ((i % cols) as i32), #[verifier::truncate] ((i / cols) as i32))
}

} // verus!
