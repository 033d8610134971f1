//! Getting a decoded image or animation ready for playback on a display:
//! budgets, scaling, the first frame and the playback state.
use vstd::prelude::*;
use crate::display::{AnimFrame, DisplayError, DisplayLimit, DisplayMode, DisplayStats, LedDisplay};
use crate::error::Failure;
use crate::limits::{Backend, ImageLimits, LimitError};
use crate::playback::{
    after_frame, anim_step_result, before_render_result, bounded_deadline, display_deadline_for, AnimStep,
    AnimationPlayback, RenderStep, ScrollPlayback,
};
use crate::raster::{
    canvas_of, fill_pixels, frame_pixels, prepare, prepare_plan, Canvas, Layout, RgbaImage, Scale,
};
use crate::work::{check_work, work_check_result, Stopped, Work};

verus! {

/// Still images are fitted to the panel width; scrolling images to its height.
pub open spec fn scale_for(mode: DisplayMode) -> Scale {
    match mode {
        DisplayMode::Static => Scale::Width,
        DisplayMode::ScrollHorizontal => Scale::Scroll,
    }
}

/// A still image is fitted to the panel width and a scrolling one to the
/// panel height.
pub proof fn lemma_scale_for_modes()
    ensures
        scale_for(DisplayMode::Static) == Scale::Width,
        scale_for(DisplayMode::ScrollHorizontal) == Scale::Scroll,
{
}

/// A prepared main image: the canvas, the frame currently shown and the
/// playback state.
pub struct StillPresentation {
    pub canvas: Canvas,
    pub pixels: Vec<(u8, u8, u8)>,
    pub playback: ScrollPlayback,
    pub rows: usize,
    pub cols: usize,
}

impl StillPresentation {
    /// The frame shows the canvas from the playback offset.
    pub open spec fn wf(self) -> bool {
        &&& self.canvas.wf()
        &&& self.canvas.width > 0
        &&& self.rows <= self.canvas.height
        &&& self.cols <= u32::MAX
        &&& self.playback.wf()
        &&& self.playback.width == self.canvas.width
        &&& self.pixels@ == frame_pixels(self.canvas, self.playback.offset as int, self.rows as nat, self.cols as int)
    }

    /// Refill the frame at the current offset after the position moved.
    pub fn refill(&mut self)
        requires
            old(self).canvas.wf(),
            old(self).canvas.width > 0,
            old(self).rows <= old(self).canvas.height,
            old(self).cols <= u32::MAX,
            old(self).playback.wf(),
            old(self).playback.width == old(self).canvas.width,
        ensures
            final(self).wf(),
            final(self).canvas == old(self).canvas,
            final(self).playback == old(self).playback,
            final(self).rows == old(self).rows,
            final(self).cols == old(self).cols,
    {
        let offset = self.playback.offset as usize;
        fill_pixels(&mut self.pixels, &self.canvas, offset, self.rows, self.cols);
    }
    /// The start of a pass of the display loop, at one reading of the
    /// cancellation flag and the clock: stop on cancellation or at the work
    /// deadline, stop once playback is complete, else ask for `pixels` to be
    /// rendered; they show the canvas from the current offset.
    pub fn begin_pass(&self, work: &Work) -> (r: Result<FrameRequest, Failure>)
        requires
            self.wf(),
        ensures
            exists|cancelled: bool, now: u64| r == #[trigger] pass_start(self.playback, cancelled, now, work.deadline),
            r matches Ok(FrameRequest::Render) ==> self.pixels@ == frame_pixels(
                self.canvas,
                self.playback.offset as int,
                self.rows as nat,
                self.cols as int,
            ),
    {
        let cancelled = work.shutdown.is_cancelled();
        let now = work.clock.now_millis();
        let r = match check_work(cancelled, now, work.deadline) {
            Err(s) => Err(Failure::Stopped(s)),
            Ok(()) => match self.playback.before_render(now) {
                Some(stats) => Ok(FrameRequest::Done(stats)),
                None => Ok(FrameRequest::Render),
            },
        };
        assert(r == pass_start(self.playback, cancelled, now, work.deadline));
        r
    }

    /// The end of a pass, given what rendering `pixels` reported: a render
    /// error ends the display with that error; otherwise the work is checked
    /// and playback goes on as `after_frame` says, the work being checked
    /// again after a move. `Some` when the display is done.
    pub fn end_pass(&mut self, rendered: Result<(), DisplayError>, work: &Work) -> (r: Result<Option<DisplayStats>, Failure>)
        requires
            old(self).wf(),
        ensures
            final(self).canvas == old(self).canvas,
            final(self).rows == old(self).rows,
            final(self).cols == old(self).cols,
            final(self).playback.wf(),
            rendered matches Err(e) ==> {
                &&& r == Err::<Option<DisplayStats>, Failure>(Failure::Display(e))
                &&& final(self).playback == old(self).playback
                &&& final(self).pixels@ == old(self).pixels@
            },
            rendered is Ok ==> (r matches Err(f) ==> f is Stopped),
            r matches Err(Failure::Stopped(st)) ==> exists|cancelled: bool, now: u64|
                #[trigger] work_check_result(cancelled, now, work.deadline) == Err::<(), Stopped>(st),
            rendered is Ok && r is Ok ==> exists|t2: u64|
                #[trigger] after_frame(old(self).playback, t2) == (final(self).playback, r->Ok_0),
            r matches Ok(None) ==> final(self).wf(),
    {
        match rendered {
            Err(e) => return Err(Failure::Display(e)),
            Ok(()) => {},
        }
        match work.check() {
            Err(s) => return Err(Failure::Stopped(s)),
            Ok(()) => {},
        }
        let t2 = work.clock.now_millis();
        let ghost before = self.playback;
        let step = self.playback.after_render(t2);
        match step {
            RenderStep::Finished(stats) => {
                assert(after_frame(before, t2) == (self.playback, Some(stats)));
                Ok(Some(stats))
            },
            RenderStep::Hold => {
                assert(after_frame(before, t2) == (self.playback, None::<DisplayStats>));
                Ok(None)
            },
            RenderStep::Moved => {
                match work.check() {
                    Err(s) => return Err(Failure::Stopped(s)),
                    Ok(()) => {},
                }
                let out = self.playback.after_move();
                assert(after_frame(before, t2) == (self.playback, out));
                if out.is_none() {
                    self.refill();
                }
                Ok(out)
            },
        }
    }
}

/// What a pass of the display loop asks of its caller.
#[derive(Clone, Copy, Debug, PartialEq, Eq, Structural)]
pub enum FrameRequest {
    /// Render the current frame, then end the pass.
    Render,
    /// Playback is complete.
    Done(DisplayStats),
}

/// The start of a pass, with the cancellation flag and the clock as read:
/// the work check first, then the stop test before a render.
pub open spec fn pass_start(s: ScrollPlayback, cancelled: bool, now: u64, deadline: u64) -> Result<FrameRequest, Failure> {
    match work_check_result(cancelled, now, deadline) {
        Err(st) => Err(Failure::Stopped(st)),
        Ok(()) => match before_render_result(s, now) {
            Some(stats) => Ok(FrameRequest::Done(stats)),
            None => Ok(FrameRequest::Render),
        },
    }
}

/// A frame is asked for only while the work goes on: without shutdown, before
/// the work deadline, and before playback is complete.
pub proof fn lemma_render_only_while_working(s: ScrollPlayback, cancelled: bool, now: u64, deadline: u64)
    ensures
        pass_start(s, cancelled, now, deadline) == Ok::<FrameRequest, Failure>(FrameRequest::Render) ==> {
            &&& !cancelled
            &&& now < deadline
            &&& before_render_result(s, now) is None
        },
        cancelled ==> pass_start(s, cancelled, now, deadline) == Err::<FrameRequest, Failure>(
            Failure::Stopped(Stopped::Shutdown),
        ),
        !cancelled && now >= deadline ==> pass_start(s, cancelled, now, deadline) == Err::<FrameRequest, Failure>(
            Failure::Stopped(Stopped::Deadline),
        ),
{
}

/// An animation frame is asked for only while the work goes on and before the
/// animation's own deadline, and it is the current frame; shutdown and the
/// work deadline stop the animation, also in the middle of a long frame.
pub proof fn lemma_animation_render_only_while_working(
    a: AnimationPlayback,
    cancelled: bool,
    now: u64,
    deadline: u64,
    delay: u64,
)
    requires
        a.wf(),
    ensures
        anim_tick(a, cancelled, now, deadline, delay).1 matches Ok(AnimStep::Render(i)) ==> {
            &&& !cancelled
            &&& now < deadline
            &&& now < a.deadline
            &&& i == a.frame_idx
        },
        cancelled ==> anim_tick(a, cancelled, now, deadline, delay) == (a, Err::<AnimStep, Failure>(
            Failure::Stopped(Stopped::Shutdown),
        )),
        !cancelled && now >= deadline ==> anim_tick(a, cancelled, now, deadline, delay) == (
            a,
            Err::<AnimStep, Failure>(Failure::Stopped(Stopped::Deadline)),
        ),
{
    crate::playback::lemma_animation_order(a, now, delay);
}

/// The panel size as the display reports it (`rows`, `cols`), when it fits in
/// 32 bits.
fn panel_size(rows: usize, cols: usize, limits: &ImageLimits) -> (r: Result<(usize, usize), Failure>)
    ensures
        r is Ok <==> rows <= u32::MAX && cols <= u32::MAX,
        r matches Ok(size) ==> size == (rows, cols),
        r matches Err(e) ==> e == Failure::Limit(LimitError::DimensionsExceed(limits.max_dimension)),
{
    if rows > 0xffff_ffff || cols > 0xffff_ffff {
        return Err(Failure::Limit(LimitError::DimensionsExceed(limits.max_dimension)));
    }
    Ok((rows, cols))
}

/// Prepare a still or scrolling image and begin its playback at the current
/// time. The display time of a duration limit starts here, after preparation.
pub fn prepare_still<D: LedDisplay + ?Sized>(
    display: &mut D,
    img: &RgbaImage,
    mode: DisplayMode,
    scroll_interval_millis: u64,
    limit: DisplayLimit,
    limits: &ImageLimits,
    backend: Backend,
    work: &Work,
) -> (r: Result<StillPresentation, Failure>)
    requires
        img.wf(),
        limit.wf(),
    ensures
        r matches Ok(p) ==> {
            &&& p.wf()
            &&& prepare_plan(*limits, backend, *img, p.cols as u32, p.rows as u32, scale_for(mode)) matches Ok(lay)
            &&& canvas_of(p.canvas, *img, lay)
            &&& p.rows == p.canvas.height
            &&& p.playback.offset == 0
            &&& p.playback.completed_cycles == 0
            &&& p.playback.mode == mode
            &&& p.playback.limit == limit
            &&& p.playback.interval_millis == scroll_interval_millis
            &&& mode == DisplayMode::Static ==> {
                &&& prepare_plan(*limits, backend, *img, p.cols as u32, p.rows as u32, Scale::Width) matches Ok(lay)
                &&& canvas_of(p.canvas, *img, lay)
                &&& lay.scaled_w == p.cols
                &&& p.canvas.width == p.cols
            }
            &&& mode == DisplayMode::ScrollHorizontal ==> {
                &&& prepare_plan(*limits, backend, *img, p.cols as u32, p.rows as u32, Scale::Scroll) matches Ok(lay)
                &&& canvas_of(p.canvas, *img, lay)
                &&& lay.scaled_h == p.rows
                &&& p.canvas.width == lay.scaled_w
            }
            &&& (p.playback.display_deadline matches Some(d) ==> d <= work.deadline)
            &&& exists|t: u64| {
                &&& p.playback.started == t
                &&& p.playback.position_started == t
                &&& p.playback.display_deadline == #[trigger] display_deadline_for(limit, t, work.deadline)
            }
        },
        r matches Err(e) ==> e is Stopped || e is Display || e is Limit || e is CanvasTooWide,
{
    let (rows, cols) = panel_size(display.rows(), display.cols(), limits)?;
    let scale = match mode {
        DisplayMode::Static => Scale::Width,
        DisplayMode::ScrollHorizontal => Scale::Scroll,
    };
    let canvas = prepare(display, cols as u32, rows as u32, img, scale, limits, backend, work)?;
    let mut pixels: Vec<(u8, u8, u8)> = Vec::new();
    fill_pixels(&mut pixels, &canvas, 0, rows, cols);
    match work.check() {
        Err(s) => return Err(Failure::Stopped(s)),
        Ok(()) => {},
    }
    let now = work.clock.now_millis();
    let playback = ScrollPlayback::start(mode, limit, scroll_interval_millis, canvas.width, now, work.deadline);
    assert(display_deadline_for(limit, now, work.deadline) == playback.display_deadline);
    Ok(StillPresentation { canvas, pixels, playback, rows, cols })
}

/// A prepared animation: one frame per source frame, its delay, and the playback state.
pub struct AnimationPresentation {
    pub frames: Vec<Vec<(u8, u8, u8)>>,
    pub delays: Vec<u64>,
    pub playback: AnimationPlayback,
    pub rows: usize,
    pub cols: usize,
}

/// `pixels` is the frame of `img` prepared for a `rows`×`cols` panel, fitted
/// to the panel height.
pub open spec fn prepared_frame(
    limits: ImageLimits,
    backend: Backend,
    img: RgbaImage,
    rows: usize,
    cols: usize,
    pixels: Seq<(u8, u8, u8)>,
) -> bool {
    &&& prepare_plan(limits, backend, img, cols as u32, rows as u32, Scale::Height) matches Ok(lay)
    &&& exists|c: Canvas| #[trigger] canvas_of(c, img, lay) && pixels == frame_pixels(c, 0, rows as nat, cols as int)
}

impl AnimationPresentation {
    pub open spec fn wf(self) -> bool {
        &&& self.playback.wf()
        &&& self.frames@.len() == self.playback.frame_count
        &&& self.delays@.len() == self.playback.frame_count
    }
    /// One step of the animation loop, at one reading of the cancellation
    /// flag and the clock: stop on cancellation or at the work deadline, else
    /// step playback. `Render(i)` asks the caller to render `frames[i]`, the
    /// current frame.
    pub fn tick(&mut self, work: &Work) -> (r: Result<AnimStep, Failure>)
        requires
            old(self).wf(),
        ensures
            final(self).wf(),
            final(self).frames == old(self).frames,
            final(self).delays == old(self).delays,
            final(self).rows == old(self).rows,
            final(self).cols == old(self).cols,
            exists|cancelled: bool, now: u64| #[trigger] anim_tick(
                old(self).playback,
                cancelled,
                now,
                work.deadline,
                old(self).delays@[old(self).playback.frame_idx as int],
            ) == (final(self).playback, r),
            r matches Ok(AnimStep::Render(i)) ==> i == old(self).playback.frame_idx && i < final(self).frames@.len(),
    {
        let cancelled = work.shutdown.is_cancelled();
        let now = work.clock.now_millis();
        let ghost before = self.playback;
        let ghost delay = self.delays@[before.frame_idx as int];
        match check_work(cancelled, now, work.deadline) {
            Err(s) => {
                let r: Result<AnimStep, Failure> = Err(Failure::Stopped(s));
                assert(anim_tick(before, cancelled, now, work.deadline, delay) == (self.playback, r));
                return r;
            },
            Ok(()) => {},
        }
        let step = self.playback.step(now, self.delays.as_slice());
        assert(anim_step_result(before, now, delay) == (self.playback, step));
        assert(anim_tick(before, cancelled, now, work.deadline, delay) == (self.playback, Ok::<AnimStep, Failure>(step)));
        Ok(step)
    }
}

/// One step of an animation, with the cancellation flag and the clock as
/// read: the work check first, then the playback step.
pub open spec fn anim_tick(
    a: AnimationPlayback,
    cancelled: bool,
    now: u64,
    deadline: u64,
    delay: u64,
) -> (AnimationPlayback, Result<AnimStep, Failure>) {
    match work_check_result(cancelled, now, deadline) {
        Err(st) => (a, Err(Failure::Stopped(st))),
        Ok(()) => {
            let (b, step) = anim_step_result(a, now, delay);
            (b, Ok(step))
        },
    }
}

/// The render bytes of an animation: every prepared frame plus one
/// preparation canvas, three bytes per panel pixel.
pub open spec fn animation_bytes(rows: int, cols: int, frames: int) -> int {
    rows * cols * 3 * (frames + 1)
}

/// The budget checks of an animation, in order: the panel, then all cached
/// frames and the backend screen against the render budget.
pub open spec fn animation_budget_result(
    limits: ImageLimits,
    backend: Backend,
    rows: u32,
    cols: u32,
    frames: int,
) -> Result<(), Failure> {
    match limits.panel_result(backend, cols, rows) {
        Err(e) => Err(Failure::Limit(e)),
        Ok(()) => if animation_bytes(rows as int, cols as int, frames) > u64::MAX {
            Err(Failure::AnimationSizeOverflow)
        } else {
            match limits.render_buffers_result(backend, cols, rows, animation_bytes(rows as int, cols as int, frames) as u64) {
                Err(e) => Err(Failure::Limit(e)),
                Ok(()) => Ok(()),
            }
        },
    }
}

pub fn check_animation_budget(limits: &ImageLimits, backend: Backend, rows: u32, cols: u32, frames: usize) -> (r: Result<(), Failure>)
    ensures
        r == animation_budget_result(*limits, backend, rows, cols, frames as int),
{
    match limits.check_panel(cols, rows, backend) {
        Err(e) => return Err(Failure::Limit(e)),
        Ok(()) => {},
    }
    // A panel that passed its own check has `rows * cols * 6` within 64 bits.
    assert((rows as u64) * (cols as u64) * 3 <= u64::MAX) by (nonlinear_arith)
        requires rows * cols * 6 <= u64::MAX;
    let per_frame = (rows as u64) * (cols as u64) * 3;
    let count = match (frames as u64).checked_add(1) {
        None => {
            assert(animation_bytes(rows as int, cols as int, frames as int) > u64::MAX) by (nonlinear_arith)
                requires frames + 1 > u64::MAX, rows >= 1, cols >= 1;
            return Err(Failure::AnimationSizeOverflow);
        },
        Some(c) => c,
    };
    let bytes = match per_frame.checked_mul(count) {
        None => {
            assert(animation_bytes(rows as int, cols as int, frames as int) > u64::MAX) by (nonlinear_arith)
                requires per_frame * count > u64::MAX, per_frame == rows * cols * 3, count == frames + 1;
            return Err(Failure::AnimationSizeOverflow);
        },
        Some(b) => b,
    };
    assert(bytes == animation_bytes(rows as int, cols as int, frames as int)) by (nonlinear_arith)
        requires bytes == per_frame * count, per_frame == rows * cols * 3, count == frames + 1;
    match limits.check_render_buffers(cols, rows, bytes, backend) {
        Err(e) => Err(Failure::Limit(e)),
        Ok(()) => Ok(()),
    }
}

/// Prepare every frame of an animation (fitted to the panel height) and begin
/// playback for `display_millis`, within the work deadline. `None` for an
/// empty animation.
pub fn prepare_animation<D: LedDisplay + ?Sized>(
    display: &mut D,
    frames: &Vec<AnimFrame>,
    display_millis: u64,
    limits: &ImageLimits,
    backend: Backend,
    work: &Work,
) -> (r: Result<Option<AnimationPresentation>, Failure>)
    requires
        forall|i: int| 0 <= i < frames@.len() ==> (#[trigger] frames@[i]).image.wf(),
    ensures
        r matches Ok(None) ==> frames@.len() == 0,
        r matches Ok(Some(a)) ==> {
            &&& a.wf()
            &&& a.playback.frame_count == frames@.len()
            &&& a.playback.deadline <= work.deadline
            &&& a.playback.frame_idx == 0
            &&& exists|t: u64| a.playback.deadline == #[trigger] bounded_deadline(t, display_millis, work.deadline)
            &&& animation_budget_result(*limits, backend, a.rows as u32, a.cols as u32, frames@.len() as int) is Ok
            &&& forall|i: int| 0 <= i < frames@.len() ==> a.delays@[i] == (#[trigger] frames@[i]).delay_millis
            &&& forall|i: int| 0 <= i < frames@.len() ==> prepared_frame(
                *limits,
                backend,
                (#[trigger] frames@[i]).image,
                a.rows,
                a.cols,
                a.frames@[i]@,
            )
            &&& forall|i: int| 0 <= i < frames@.len() ==> {
                &&& prepare_plan(*limits, backend, (#[trigger] frames@[i]).image, a.cols as u32, a.rows as u32, Scale::Height)
                    matches Ok(lay)
                &&& lay.scaled_h == a.rows
                &&& lay.width == a.cols
                &&& exists|c: Canvas| canvas_of(c, frames@[i].image, lay) && a.frames@[i]@ == frame_pixels(
                    c,
                    0,
                    a.rows as nat,
                    a.cols as int,
                )
            }
        },
        frames@.len() > 0 && r is Ok ==> r->Ok_0 is Some,
        frames@.len() == 0 ==> r matches Ok(None) || r matches Err(Failure::Stopped(_)),
        r matches Err(e) ==> e is Stopped || e is Display || e is Limit || e is CanvasTooWide
            || e is AnimationSizeOverflow,
{
    match work.check() {
        Err(s) => return Err(Failure::Stopped(s)),
        Ok(()) => {},
    }
    if frames.len() == 0 {
        return Ok(None);
    }
    let (rows, cols) = panel_size(display.rows(), display.cols(), limits)?;
    check_animation_budget(limits, backend, rows as u32, cols as u32, frames.len())?;
    let mut prepared: Vec<Vec<(u8, u8, u8)>> = Vec::new();
    let mut delays: Vec<u64> = Vec::new();
    let mut i: usize = 0;
    while i < frames.len()
        invariant
            forall|j: int| 0 <= j < frames@.len() ==> (#[trigger] frames@[j]).image.wf(),
            rows <= u32::MAX,
            cols <= u32::MAX,
            i <= frames@.len(),
            prepared@.len() == i,
            delays@.len() == i,
            forall|j: int| 0 <= j < i ==> delays@[j] == (#[trigger] frames@[j]).delay_millis,
            forall|j: int| 0 <= j < i ==> prepared_frame(*limits, backend, (#[trigger] frames@[j]).image, rows, cols, prepared@[j]@),
        decreases frames@.len() - i,
    {
        let canvas = prepare(display, cols as u32, rows as u32, &frames[i].image, Scale::Height, limits, backend, work)?;
        let mut pixels: Vec<(u8, u8, u8)> = Vec::new();
        fill_pixels(&mut pixels, &canvas, 0, rows, cols);
        assert(prepared_frame(*limits, backend, frames@[i as int].image, rows, cols, pixels@));
        prepared.push(pixels);
        delays.push(frames[i].delay_millis);
        i += 1;
    }
    let now = work.clock.now_millis();
    let deadline = crate::playback::deadline_within(now, display_millis, work.deadline);
    match crate::work::check_work(work.shutdown.is_cancelled(), work.clock.now_millis(), deadline) {
        Err(s) => return Err(Failure::Stopped(s)),
        Ok(()) => {},
    }
    let playback = AnimationPlayback::start(now, display_millis, work.deadline, frames.len());
    assert(bounded_deadline(now, display_millis, work.deadline) == playback.deadline);
    Ok(Some(AnimationPresentation { frames: prepared, delays, playback, rows, cols }))
}

} // verus!
