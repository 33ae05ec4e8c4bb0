use nightmare_engine::bench::{
    gui_event_system, FrameCounter, FrameWindow, Timer, FPS_WINDOW_FRAMES, MAX_FRAME_COUNT,
};

#[test]
fn timer_durations() {
    let t = Timer::new(100);
    assert_eq!(t.duration(440), 340);
    assert_eq!(t.duration(100), 0);
    assert_eq!(t.duration_end(1_000), 900);
}

#[test]
fn timer_reports_cycles_in_decimal() {
    let t = Timer::new(100);
    assert_eq!(t.no_end(440), "340");
    assert_eq!(t.end(100), "0");
    assert_eq!(Timer::new(0).end(u64::MAX), "18446744073709551615");
    assert_eq!(Timer::new(5).end(15), "10");
}

#[test]
fn timer_durations_add_up() {
    let t = Timer::new(10);
    assert_eq!(t.duration(50), t.duration(30) + (50 - 30));
}

#[test]
fn frame_counter_exits_after_limit() {
    assert_eq!(MAX_FRAME_COUNT, 25_000);
    let mut c = FrameCounter::new();
    assert_eq!(c.frame_count, 0);
    assert_eq!(c.bench(25_000), 0);
    assert_eq!(c.frame_count, 25_000);
    assert_eq!(c.bench(3), 3);
    assert_eq!(c.frame_count, 25_003);
}

#[test]
fn frame_counter_crossing_the_limit() {
    let mut c = FrameCounter { frame_count: 24_999 };
    assert_eq!(c.bench(3), 2);
    assert_eq!(c.frame_count, 25_002);
    assert_eq!(c.bench(0), 0);
}

#[test]
fn frame_counter_batches_agree() {
    let mut once = FrameCounter { frame_count: 24_990 };
    let mut twice = FrameCounter { frame_count: 24_990 };
    let all = once.bench(30);
    let split = twice.bench(7) + twice.bench(23);
    assert_eq!(all, split);
    assert_eq!(all, 20);
    assert_eq!(once.frame_count, twice.frame_count);
}

#[test]
fn gui_event_system_runs() {
    gui_event_system();
}

#[test]
fn frame_window_resets_every_hundred_frames() {
    let mut w = FrameWindow::new();
    let mut resets = vec![];
    for n in 1..=250u32 {
        if w.advance() {
            resets.push(n);
        }
        assert_eq!(w.index, n % FPS_WINDOW_FRAMES);
    }
    assert_eq!(resets, vec![100, 200]);
}

#[test]
fn timer_remembers_its_start() {
    assert_eq!(Timer::new(77).started_at(), 77);
}

#[test]
fn frame_window_resets_from_any_count() {
    let mut w = FrameWindow { index: u32::MAX };
    assert!(w.advance());
    assert_eq!(w.index, 0);
    let mut w = FrameWindow { index: 98 };
    assert!(!w.advance());
    assert_eq!(w.index, 99);
    assert!(w.advance());
    assert_eq!(w.index, 0);
}
