use led_service2::display::{DisplayLimit, DisplayMode, DisplayStats};
use led_service2::playback::{cycles_satisfied, deadline_within, millis_since, AnimStep, AnimationPlayback, RenderStep, ScrollPlayback};

fn cycles(n: u32, min: u64) -> DisplayLimit {
    DisplayLimit::ScrollCycles { cycles: n, min_display_millis: min }
}

#[test]
fn cycle_limit_needs_both_cycles_and_time() {
    assert!(!cycles_satisfied(cycles(2, 5000), 1, 9000));
    assert!(!cycles_satisfied(cycles(2, 5000), 2, 4999));
    assert!(cycles_satisfied(cycles(2, 5000), 2, 5000));
    assert!(cycles_satisfied(cycles(2, 0), 3, 0));
    assert!(!cycles_satisfied(DisplayLimit::Duration { millis: 0 }, u64::MAX, u64::MAX));
}

#[test]
fn deadlines_stay_within_the_outer_deadline() {
    assert_eq!(deadline_within(100, 50, 1000), 150);
    assert_eq!(deadline_within(100, 5000, 1000), 1000);
    assert_eq!(deadline_within(u64::MAX - 1, 5, 700), 700);
    assert_eq!(millis_since(10, 4), 6);
    assert_eq!(millis_since(4, 10), 0);
}

/// Drive a scroll over `width` offsets, one render per millisecond, and
/// record the offsets that were shown.
fn run(width: u32, interval: u64, limit: DisplayLimit) -> (Vec<u32>, DisplayStats) {
    let mut s = ScrollPlayback::start(DisplayMode::ScrollHorizontal, limit, interval, width, 0, u64::MAX);
    let mut shown = Vec::new();
    let mut now = 0;
    loop {
        if let Some(stats) = s.before_render(now) {
            return (shown, stats);
        }
        shown.push(s.offset);
        now += 1;
        match s.after_render(now) {
            RenderStep::Finished(stats) => return (shown, stats),
            RenderStep::Hold => {},
            RenderStep::Moved => {
                if let Some(stats) = s.after_move() {
                    return (shown, stats);
                }
            },
        }
    }
}

#[test]
fn two_cycles_visit_each_offset_twice_in_order() {
    let (shown, stats) = run(3, 0, cycles(2, 0));
    assert_eq!(shown, vec![0, 1, 2, 0, 1, 2]);
    assert_eq!(stats.completed_cycles, 2);
    assert_eq!(stats.prepared_width_px, 3);
}

#[test]
fn an_offset_is_held_for_the_interval() {
    let (shown, stats) = run(2, 3, cycles(1, 0));
    assert_eq!(shown, vec![0, 0, 0, 1, 1, 1]);
    assert_eq!(stats.completed_cycles, 1);
    assert_eq!(stats.elapsed_millis, 6);
}

#[test]
fn minimum_time_keeps_scrolling_past_the_cycles() {
    let (shown, stats) = run(2, 0, cycles(1, 5));
    assert_eq!(shown, vec![0, 1, 0, 1, 0]);
    assert_eq!(stats.completed_cycles, 2);
    assert_eq!(stats.elapsed_millis, 5);
}

#[test]
fn duration_limit_ends_at_its_deadline_without_cycles() {
    let mut s = ScrollPlayback::start(DisplayMode::Static, DisplayLimit::Duration { millis: 40 }, 1, 4, 100, 1000);
    assert_eq!(s.display_deadline, Some(140));
    assert_eq!(s.before_render(139), None);
    assert_eq!(s.after_render(139), RenderStep::Hold);
    assert_eq!(s.offset, 0);
    assert_eq!(
        s.before_render(140),
        Some(DisplayStats { completed_cycles: 0, prepared_width_px: 4, elapsed_millis: 40 })
    );
    let early = ScrollPlayback::start(DisplayMode::Static, DisplayLimit::Duration { millis: 40 }, 1, 4, 100, 120);
    assert_eq!(early.display_deadline, Some(120));
}

#[test]
fn cycle_counter_saturates() {
    let mut s = ScrollPlayback::start(DisplayMode::ScrollHorizontal, cycles(u32::MAX, u64::MAX), 0, 1, 0, u64::MAX);
    s.completed_cycles = u64::MAX;
    assert_eq!(s.after_render(1), RenderStep::Moved);
    assert_eq!(s.completed_cycles, u64::MAX);
    assert_eq!(s.offset, 0);
}

#[test]
fn animation_cycles_through_frames_until_its_deadline() {
    let delays = [10u64, 20];
    let mut a = AnimationPlayback::start(0, 45, 1000, 2);
    assert_eq!(a.deadline, 45);
    assert_eq!(a.step(0, &delays), AnimStep::Render(0));
    assert_eq!(a.step(9, &delays), AnimStep::Render(0));
    assert_eq!(a.step(10, &delays), AnimStep::Advanced);
    assert_eq!(a.step(10, &delays), AnimStep::Render(1));
    assert_eq!(a.step(30, &delays), AnimStep::Advanced);
    assert_eq!(a.step(30, &delays), AnimStep::Render(0));
    assert_eq!(a.step(40, &delays), AnimStep::Advanced);
    // The second frame is cut short by the deadline.
    assert_eq!(a.step(40, &delays), AnimStep::Render(1));
    assert_eq!(a.step(44, &delays), AnimStep::Render(1));
    assert_eq!(a.step(45, &delays), AnimStep::Advanced);
    assert_eq!(a.step(45, &delays), AnimStep::Done);
}
