//! Playback decisions for the main image and for animations, as state
//! machines driven by clock readings (milliseconds on a monotonic clock).
//! The caller renders, reads the clock and checks for cancellation; these
//! functions decide what is shown next and when playback is complete.
use vstd::prelude::*;
use crate::display::{DisplayLimit, DisplayMode, DisplayStats};

verus! {

/// Time from `start` to `now`, zero when the clock reads earlier.
pub open spec fn since(now: u64, start: u64) -> u64 {
    if now >= start { (now - start) as u64 } else { 0 }
}

pub fn millis_since(now: u64, start: u64) -> (r: u64)
    ensures
        r == since(now, start),
{
    if now >= start { now - start } else { 0 }
}

/// `now + span`, but never past `outer`; `outer` itself when the sum overflows.
pub open spec fn bounded_deadline(now: u64, span: u64, outer: u64) -> u64 {
    if now + span > u64::MAX {
        outer
    } else if now + span <= outer {
        (now + span) as u64
    } else {
        outer
    }
}

pub fn deadline_within(now: u64, span: u64, outer: u64) -> (r: u64)
    ensures
        r == bounded_deadline(now, span, outer),
        r <= outer,
{
    match now.checked_add(span) {
        Some(t) => if t <= outer { t } else { outer },
        None => outer,
    }
}

/// A cycle limit is met once enough passes have completed and enough time has
/// passed; a duration limit never completes this way.
pub open spec fn cycles_met(limit: DisplayLimit, completed_cycles: u64, elapsed_millis: u64) -> bool {
    match limit {
        DisplayLimit::Duration { .. } => false,
        DisplayLimit::ScrollCycles { cycles, min_display_millis } =>
            completed_cycles >= cycles && elapsed_millis >= min_display_millis,
    }
}

pub fn cycles_satisfied(limit: DisplayLimit, completed_cycles: u64, elapsed_millis: u64) -> (r: bool)
    ensures
        r == cycles_met(limit, completed_cycles, elapsed_millis),
{
    match limit {
        DisplayLimit::Duration { .. } => false,
        DisplayLimit::ScrollCycles { cycles, min_display_millis } =>
            completed_cycles >= cycles as u64 && elapsed_millis >= min_display_millis,
    }
}

/// One step of the scroll position: the next offset, and one more completed
/// cycle (saturating) when the last offset of the image is left.
pub open spec fn advanced(offset: u32, completed: u64, width: u32) -> (u32, u64) {
    if offset + 1 == width {
        (0, if completed == u64::MAX { completed } else { (completed + 1) as u64 })
    } else {
        ((offset + 1) as u32, completed)
    }
}

/// The position after `n` steps from the start: offset `n mod width` with
/// `n / width` cycles completed.
pub open spec fn position(n: nat, width: u32) -> (u32, u64) {
    ((n % (width as nat)) as u32, (n / (width as nat)) as u64)
}

/// The display deadline of a duration limit: that long after the start,
/// within the request deadline. A cycle limit has none of its own.
pub open spec fn display_deadline_for(limit: DisplayLimit, now: u64, work_deadline: u64) -> Option<u64> {
    match limit {
        DisplayLimit::Duration { millis } => Some(bounded_deadline(now, millis, work_deadline)),
        DisplayLimit::ScrollCycles { .. } => None,
    }
}

/// What happened after a frame was rendered.
#[derive(Clone, Copy, Debug, PartialEq, Eq, Structural)]
pub enum RenderStep {
    /// Playback is complete.
    Finished(DisplayStats),
    /// The position is held; render the same pixels again.
    Hold,
    /// The position moved one step; refill the pixels at the new offset.
    Moved,
}

/// The playback state of a prepared still or scrolling image.
#[derive(Clone, Copy, Debug)]
pub struct ScrollPlayback {
    pub mode: DisplayMode,
    pub limit: DisplayLimit,
    pub interval_millis: u64,
    /// Width of the prepared image; one cycle visits each of its offsets.
    pub width: u32,
    /// When the first frame was about to be rendered.
    pub started: u64,
    /// When the current offset was first shown.
    pub position_started: u64,
    pub offset: u32,
    pub completed_cycles: u64,
    pub display_deadline: Option<u64>,
    /// The elapsed time measured after the last render.
    pub last_elapsed: u64,
}

pub open spec fn stats_of(s: ScrollPlayback, elapsed: u64) -> DisplayStats {
    DisplayStats { completed_cycles: s.completed_cycles, prepared_width_px: s.width, elapsed_millis: elapsed }
}

/// Before a render: stop at the display deadline, or once the cycle limit is met.
pub open spec fn before_render_result(s: ScrollPlayback, now: u64) -> Option<DisplayStats> {
    let e = since(now, s.started);
    if (s.display_deadline matches Some(d) && now >= d) || cycles_met(s.limit, s.completed_cycles, e) {
        Some(stats_of(s, e))
    } else {
        None
    }
}

/// After a render: stop once the cycle limit is met; otherwise a scrolling image
/// moves one step when its offset has been held for the scroll interval.
pub open spec fn after_render_result(s: ScrollPlayback, now: u64) -> (ScrollPlayback, RenderStep) {
    let e = since(now, s.started);
    if cycles_met(s.limit, s.completed_cycles, e) {
        (s, RenderStep::Finished(stats_of(s, e)))
    } else if s.mode == DisplayMode::ScrollHorizontal && since(now, s.position_started) >= s.interval_millis {
        let next = advanced(s.offset, s.completed_cycles, s.width);
        (
            ScrollPlayback {
                mode: s.mode,
                limit: s.limit,
                interval_millis: s.interval_millis,
                width: s.width,
                started: s.started,
                position_started: now,
                offset: next.0,
                completed_cycles: next.1,
                display_deadline: s.display_deadline,
                last_elapsed: e,
            },
            RenderStep::Moved,
        )
    } else {
        (s, RenderStep::Hold)
    }
}

/// After a move: stop if the step completed the cycle limit.
pub open spec fn after_move_result(s: ScrollPlayback) -> Option<DisplayStats> {
    if cycles_met(s.limit, s.completed_cycles, s.last_elapsed) {
        Some(stats_of(s, s.last_elapsed))
    } else {
        None
    }
}

impl ScrollPlayback {
    pub open spec fn wf(self) -> bool {
        &&& self.width > 0
        &&& self.offset < self.width
        &&& self.limit.wf()
        &&& (self.limit is ScrollCycles ==> self.display_deadline is None)
    }

    /// Playback begins at offset zero with no cycles completed, at `now`.
    pub fn start(
        mode: DisplayMode,
        limit: DisplayLimit,
        interval_millis: u64,
        width: u32,
        now: u64,
        work_deadline: u64,
    ) -> (r: ScrollPlayback)
        requires
            width > 0,
            limit.wf(),
        ensures
            r.wf(),
            r.mode == mode,
            r.limit == limit,
            r.interval_millis == interval_millis,
            r.width == width,
            r.started == now,
            r.position_started == now,
            r.offset == 0,
            r.completed_cycles == 0,
            r.display_deadline == display_deadline_for(limit, now, work_deadline),
            r.last_elapsed == 0,
    {
        let display_deadline = match limit {
            DisplayLimit::Duration { millis } => Some(deadline_within(now, millis, work_deadline)),
            DisplayLimit::ScrollCycles { .. } => None,
        };
        ScrollPlayback {
            mode,
            limit,
            interval_millis,
            width,
            started: now,
            position_started: now,
            offset: 0,
            completed_cycles: 0,
            display_deadline,
            last_elapsed: 0,
        }
    }

    pub fn before_render(&self, now: u64) -> (r: Option<DisplayStats>)
        ensures
            r == before_render_result(*self, now),
    {
        let e = millis_since(now, self.started);
        let at_deadline = match self.display_deadline {
            Some(d) => now >= d,
            None => false,
        };
        if at_deadline || cycles_satisfied(self.limit, self.completed_cycles, e) {
            Some(DisplayStats { completed_cycles: self.completed_cycles, prepared_width_px: self.width, elapsed_millis: e })
        } else {
            None
        }
    }

    pub fn after_render(&mut self, now: u64) -> (r: RenderStep)
        requires
            old(self).wf(),
        ensures
            (*final(self), r) == after_render_result(*old(self), now),
            final(self).wf(),
    {
        let e = millis_since(now, self.started);
        if cycles_satisfied(self.limit, self.completed_cycles, e) {
            return RenderStep::Finished(
                DisplayStats { completed_cycles: self.completed_cycles, prepared_width_px: self.width, elapsed_millis: e },
            );
        }
        if self.mode == DisplayMode::ScrollHorizontal
            && millis_since(now, self.position_started) >= self.interval_millis {
            if self.offset + 1 == self.width {
                self.completed_cycles = self.completed_cycles.saturating_add(1);
                self.offset = 0;
            } else {
                self.offset = self.offset + 1;
            }
            self.position_started = now;
            self.last_elapsed = e;
            return RenderStep::Moved;
        }
        RenderStep::Hold
    }

    pub fn after_move(&self) -> (r: Option<DisplayStats>)
        ensures
            r == after_move_result(*self),
    {
        if cycles_satisfied(self.limit, self.completed_cycles, self.last_elapsed) {
            Some(
                DisplayStats {
                    completed_cycles: self.completed_cycles,
                    prepared_width_px: self.width,
                    elapsed_millis: self.last_elapsed,
                },
            )
        } else {
            None
        }
    }
}

/// After a frame was rendered, with the clock read at `t2`: stop, hold, or
/// move (stopping if the move completed the cycle limit).
pub open spec fn after_frame(s: ScrollPlayback, t2: u64) -> (ScrollPlayback, Option<DisplayStats>) {
    let (t, step) = after_render_result(s, t2);
    match step {
        RenderStep::Finished(stats) => (t, Some(stats)),
        RenderStep::Hold => (t, None),
        RenderStep::Moved => (t, after_move_result(t)),
    }
}

/// One pass of the display loop, with the clock read at `t1` before the render
/// and at `t2` after it: stop before rendering, or render and then go on as
/// `after_frame` says.
pub open spec fn scroll_pass(s: ScrollPlayback, t1: u64, t2: u64) -> (ScrollPlayback, Option<DisplayStats>) {
    match before_render_result(s, t1) {
        Some(stats) => (s, Some(stats)),
        None => after_frame(s, t2),
    }
}

/// A pass moves the position or completes playback only after the current
/// frame was rendered: no offset is consumed without being shown, even with a
/// zero scroll interval.
pub proof fn lemma_pass_renders_before_moving(s: ScrollPlayback, t1: u64, t2: u64)
    ensures
        scroll_pass(s, t1, t2).0 != s ==> before_render_result(s, t1) is None,
        scroll_pass(s, t1, t2).0 != s ==> after_render_result(s, t2).1 == RenderStep::Moved,
{
}

/// A pass of the loop completes a cycle-limited display only with at least the
/// requested cycles and the minimum time, and a duration-limited one only at
/// its display deadline.
pub proof fn lemma_pass_completion(s: ScrollPlayback, t1: u64, t2: u64)
    requires
        s.wf(),
    ensures
        s.limit is ScrollCycles ==> (scroll_pass(s, t1, t2).1 matches Some(st) ==> st.completed_cycles
            >= s.limit->cycles && st.elapsed_millis >= s.limit->min_display_millis),
        s.limit is Duration ==> (scroll_pass(s, t1, t2).1 is Some ==> (s.display_deadline matches Some(d)
            && t1 >= d)),
{
    if s.limit is ScrollCycles {
        lemma_cycle_completion_meets_limit(s, t1);
        lemma_cycle_completion_meets_limit(s, t2);
        lemma_cycle_completion_meets_limit(after_render_result(s, t2).0, t2);
    } else {
        lemma_duration_ends_at_deadline(s, t1);
        lemma_duration_ends_at_deadline(s, t2);
        lemma_duration_ends_at_deadline(after_render_result(s, t2).0, t2);
    }
}

/// The passes of the display loop for the clock readings in turn, up to the
/// one that completes playback: the state after them and, once complete, the
/// reported stats.
pub open spec fn run_passes(s: ScrollPlayback, reads: Seq<(u64, u64)>) -> (ScrollPlayback, Option<DisplayStats>)
    decreases reads.len(),
{
    if reads.len() == 0 {
        (s, None)
    } else {
        let (t, out) = scroll_pass(s, reads[0].0, reads[0].1);
        if out is Some {
            (t, out)
        } else {
            run_passes(t, reads.drop_first())
        }
    }
}

/// A pass keeps the timing of playback: its start, its limit and its display
/// deadline; and a well-formed state stays well-formed.
pub proof fn lemma_pass_keeps_timing(s: ScrollPlayback, t1: u64, t2: u64)
    requires
        s.wf(),
    ensures
        ({
            let t = scroll_pass(s, t1, t2).0;
            &&& t.wf()
            &&& t.started == s.started
            &&& t.limit == s.limit
            &&& t.display_deadline == s.display_deadline
            &&& t.width == s.width
        }),
{
}

/// A display limited to a duration lasts it: whatever the clock readings of
/// its passes, the time it reports when it completes is at least the
/// requested duration, counted from the start of playback (after
/// preparation), when that span ends by the request deadline, and reaches
/// the request deadline otherwise.
pub proof fn lemma_duration_display_lasts(
    s: ScrollPlayback,
    reads: Seq<(u64, u64)>,
    millis: u64,
    work_deadline: u64,
)
    requires
        s.wf(),
        s.limit == (DisplayLimit::Duration { millis }),
        s.display_deadline == display_deadline_for(s.limit, s.started, work_deadline),
    ensures
        run_passes(s, reads).1 matches Some(st) ==> {
            &&& s.started + millis <= work_deadline ==> st.elapsed_millis >= millis
            &&& st.elapsed_millis + s.started >= work_deadline || st.elapsed_millis >= millis
        },
    decreases reads.len(),
{
    if reads.len() > 0 {
        let (t1, t2) = reads[0];
        let (t, out) = scroll_pass(s, t1, t2);
        lemma_pass_keeps_timing(s, t1, t2);
        if out is Some {
            lemma_pass_completion(s, t1, t2);
            lemma_duration_ends_at_deadline(s, t2);
            lemma_duration_ends_at_deadline(after_render_result(s, t2).0, t2);
            assert(before_render_result(s, t1) is Some);
        } else {
            lemma_duration_display_lasts(t, reads.drop_first(), millis, work_deadline);
        }
    }
}

/// Each step moves the position from `n` steps to `n + 1` steps: the offset
/// wraps to zero exactly when a cycle completes.
pub proof fn lemma_step_advances_position(n: nat, width: u32)
    requires
        width > 0,
        (n + 1) / (width as nat) <= u64::MAX,
    ensures
        advanced(position(n, width).0, position(n, width).1, width) == position(n + 1, width),
{
    let w = width as int;
    let q = n as int / w;
    let r = n as int % w;
    vstd::arithmetic::div_mod::lemma_fundamental_div_mod(n as int, w);
    vstd::arithmetic::div_mod::lemma_mod_bound(n as int, w);
    assert(n == q * w + r) by (nonlinear_arith)
        requires n == w * q + r;
    vstd::arithmetic::div_mod::lemma_div_pos_is_pos(n as int, w);
    if r + 1 == w {
        assert(n + 1 == (q + 1) * w + 0) by (nonlinear_arith)
            requires n == q * w + r, r + 1 == w;
        vstd::arithmetic::div_mod::lemma_fundamental_div_mod_converse((n + 1) as int, w, q + 1, 0);
    } else {
        assert(n + 1 == q * w + (r + 1)) by (nonlinear_arith)
            requires n == q * w + r;
        vstd::arithmetic::div_mod::lemma_fundamental_div_mod_converse((n + 1) as int, w, q, r + 1);
    }
}

/// `n / width >= cycles` exactly when `n >= cycles * width`.
proof fn lemma_div_at_least(n: nat, width: nat, cycles: nat)
    requires
        width > 0,
    ensures
        n / width >= cycles <==> n >= cycles * width,
{
    let q = n as int / width as int;
    let r = n as int % width as int;
    vstd::arithmetic::div_mod::lemma_fundamental_div_mod(n as int, width as int);
    vstd::arithmetic::div_mod::lemma_mod_bound(n as int, width as int);
    if q >= cycles {
        assert(n >= cycles * width) by (nonlinear_arith)
            requires n == width * q + r, q >= cycles, r >= 0, width > 0;
    } else {
        assert(n < cycles * width) by (nonlinear_arith)
            requires n == width * q + r, q < cycles, r < width, width > 0;
    }
}

/// Without a minimum time, a cycle limit of `cycles` is met after exactly
/// `cycles * width` steps: every earlier position (offsets 0, 1, …, width-1,
/// `cycles` times over) is shown and held, and playback stops at the position
/// that ends the last cycle, before showing an extra frame.
pub proof fn lemma_cycle_limit_trace(width: u32, cycles: u32, n: nat, elapsed: u64)
    requires
        width > 0,
        cycles > 0,
        n <= cycles * width,
    ensures
        cycles_met(
            DisplayLimit::ScrollCycles { cycles, min_display_millis: 0 },
            position(n, width).1,
            elapsed,
        ) <==> n == cycles * width,
        n == cycles * width ==> position(n, width) == (0u32, cycles as u64),
{
    lemma_div_at_least(n, width as nat, cycles as nat);
    let w = width as int;
    assert(n / (width as nat) <= cycles) by {
        lemma_div_at_least(n, width as nat, (cycles + 1) as nat);
        assert(n < (cycles + 1) * w) by (nonlinear_arith)
            requires n <= cycles * w, w > 0;
    }
    if n == cycles * width {
        assert(n == cycles * w + 0);
        vstd::arithmetic::div_mod::lemma_fundamental_div_mod_converse(n as int, w, cycles as int, 0);
    }
}

/// A render within the hold period, before the limit is met, changes nothing.
pub proof fn lemma_hold_keeps_position(s: ScrollPlayback, now: u64)
    requires
        !cycles_met(s.limit, s.completed_cycles, since(now, s.started)),
        since(now, s.position_started) < s.interval_millis,
    ensures
        after_render_result(s, now) == (s, RenderStep::Hold),
{
}

/// A still image never moves.
pub proof fn lemma_static_never_moves(s: ScrollPlayback, now: u64)
    requires
        s.mode == DisplayMode::Static,
    ensures
        after_render_result(s, now).1 != RenderStep::Moved,
        after_render_result(s, now).0 == s,
{
}

/// A render moves the position at most one step, never skipping offsets.
pub proof fn lemma_at_most_one_step(s: ScrollPlayback, now: u64)
    ensures
        ({
            let t = after_render_result(s, now).0;
            (t.offset, t.completed_cycles) == (s.offset, s.completed_cycles)
                || (t.offset, t.completed_cycles) == advanced(s.offset, s.completed_cycles, s.width)
        }),
{
}

/// The cycle condition, once met, stays met as cycles and time grow.
pub proof fn lemma_cycles_met_monotone(limit: DisplayLimit, c1: u64, e1: u64, c2: u64, e2: u64)
    requires
        cycles_met(limit, c1, e1),
        c1 <= c2,
        e1 <= e2,
    ensures
        cycles_met(limit, c2, e2),
{
}

/// Under a cycle limit, every completion reports at least the requested cycles
/// and at least the minimum display time.
pub proof fn lemma_cycle_completion_meets_limit(s: ScrollPlayback, now: u64)
    requires
        s.wf(),
        s.limit is ScrollCycles,
    ensures
        before_render_result(s, now) matches Some(st) ==> st.completed_cycles >= s.limit->cycles
            && st.elapsed_millis >= s.limit->min_display_millis,
        after_render_result(s, now).1 matches RenderStep::Finished(st) ==> st.completed_cycles
            >= s.limit->cycles && st.elapsed_millis >= s.limit->min_display_millis,
        after_move_result(s) matches Some(st) ==> st.completed_cycles >= s.limit->cycles
            && st.elapsed_millis >= s.limit->min_display_millis,
{
}

/// Under a duration limit, playback ends only at its display deadline.
pub proof fn lemma_duration_ends_at_deadline(s: ScrollPlayback, now: u64)
    requires
        s.wf(),
        s.limit is Duration,
    ensures
        before_render_result(s, now) is Some ==> (s.display_deadline matches Some(d) && now >= d),
        !(after_render_result(s, now).1 is Finished),
        after_move_result(s) is None,
{
}

/// Playback that has reached the position of `n` steps reaches the position of
/// `n + 1` steps when it moves.
pub proof fn lemma_move_follows_positions(s: ScrollPlayback, now: u64, n: nat)
    requires
        s.wf(),
        (s.offset, s.completed_cycles) == position(n, s.width),
        (n + 1) / (s.width as nat) <= u64::MAX,
        after_render_result(s, now).1 == RenderStep::Moved,
    ensures
        ({
            let t = after_render_result(s, now).0;
            (t.offset, t.completed_cycles) == position(n + 1, s.width)
        }),
{
    lemma_step_advances_position(n, s.width);
}

/// What an animation step asks for.
#[derive(Clone, Copy, Debug, PartialEq, Eq, Structural)]
pub enum AnimStep {
    /// The display time is over.
    Done,
    /// Render this frame.
    Render(usize),
    /// The current frame's time ran out; the next frame is now current.
    Advanced,
}

/// The playback state of a prepared animation.
#[derive(Clone, Copy, Debug)]
pub struct AnimationPlayback {
    /// When the animation stops.
    pub deadline: u64,
    pub frame_count: usize,
    pub frame_idx: usize,
    /// While a frame is being shown, when its time ends.
    pub frame_end: Option<u64>,
}

/// One animation step at `now`: outside a frame, stop at the deadline or begin
/// the current frame for its delay (within the deadline); inside a frame,
/// render it until its time ends, then move on to the next frame, cyclically.
pub open spec fn anim_step_result(a: AnimationPlayback, now: u64, delay: u64) -> (AnimationPlayback, AnimStep) {
    let next = AnimationPlayback {
        deadline: a.deadline,
        frame_count: a.frame_count,
        frame_idx: ((a.frame_idx + 1) % (a.frame_count as int)) as usize,
        frame_end: None,
    };
    match a.frame_end {
        None => if now >= a.deadline {
            (a, AnimStep::Done)
        } else {
            let end = bounded_deadline(now, delay, a.deadline);
            if now < end {
                (
                    AnimationPlayback {
                        deadline: a.deadline,
                        frame_count: a.frame_count,
                        frame_idx: a.frame_idx,
                        frame_end: Some(end),
                    },
                    AnimStep::Render(a.frame_idx),
                )
            } else {
                (next, AnimStep::Advanced)
            }
        },
        Some(end) => if now < end {
            (a, AnimStep::Render(a.frame_idx))
        } else {
            (next, AnimStep::Advanced)
        },
    }
}

impl AnimationPlayback {
    pub open spec fn wf(self) -> bool {
        &&& self.frame_count > 0
        &&& self.frame_idx < self.frame_count
        &&& (self.frame_end matches Some(end) ==> end <= self.deadline)
    }

    /// The animation plays from its first frame for `display_millis` after
    /// `now`, within the request deadline.
    pub fn start(now: u64, display_millis: u64, work_deadline: u64, frame_count: usize) -> (r: AnimationPlayback)
        requires
            frame_count > 0,
        ensures
            r.wf(),
            r.deadline == bounded_deadline(now, display_millis, work_deadline),
            r.deadline <= work_deadline,
            r.frame_count == frame_count,
            r.frame_idx == 0,
            r.frame_end is None,
    {
        AnimationPlayback {
            deadline: deadline_within(now, display_millis, work_deadline),
            frame_count,
            frame_idx: 0,
            frame_end: None,
        }
    }

    /// Take one step; `delays` holds each frame's delay.
    pub fn step(&mut self, now: u64, delays: &[u64]) -> (r: AnimStep)
        requires
            old(self).wf(),
            delays@.len() == old(self).frame_count,
        ensures
            (*final(self), r) == anim_step_result(*old(self), now, delays@[old(self).frame_idx as int]),
            final(self).wf(),
    {
        let delay = delays[self.frame_idx];
        match self.frame_end {
            None => {
                if now >= self.deadline {
                    return AnimStep::Done;
                }
                let end = deadline_within(now, delay, self.deadline);
                if now < end {
                    self.frame_end = Some(end);
                    AnimStep::Render(self.frame_idx)
                } else {
                    self.frame_idx = (self.frame_idx + 1) % self.frame_count;
                    self.frame_end = None;
                    AnimStep::Advanced
                }
            },
            Some(end) => {
                if now < end {
                    AnimStep::Render(self.frame_idx)
                } else {
                    self.frame_idx = (self.frame_idx + 1) % self.frame_count;
                    self.frame_end = None;
                    AnimStep::Advanced
                }
            },
        }
    }
}

/// Frames are shown in order: a step renders the current frame, moves to the
/// next one (wrapping after the last), or ends; it renders only before the
/// deadline and ends only at or after it.
pub proof fn lemma_animation_order(a: AnimationPlayback, now: u64, delay: u64)
    requires
        a.wf(),
    ensures
        ({
            let (b, step) = anim_step_result(a, now, delay);
            &&& step matches AnimStep::Render(i) ==> i == a.frame_idx && now < a.deadline
            &&& step is Advanced ==> b.frame_idx == (a.frame_idx + 1) % (a.frame_count as int)
            &&& !(step is Advanced) ==> b.frame_idx == a.frame_idx
            &&& step is Done ==> now >= a.deadline
            &&& b.deadline == a.deadline
        }),
{
}

/// A frame with a positive delay that begins before the deadline is rendered
/// before the animation moves past it.
pub proof fn lemma_frame_shown_before_advancing(a: AnimationPlayback, now: u64, delay: u64)
    requires
        a.wf(),
        a.frame_end is None,
        now < a.deadline,
        delay > 0,
    ensures
        anim_step_result(a, now, delay).1 == AnimStep::Render(a.frame_idx),
{
}

} // verus!
