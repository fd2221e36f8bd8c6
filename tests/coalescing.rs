use timestone::clipboard::{ClipboardDedupe, ClipboardWatcher};
use timestone::event::{RectInfo, WindowInfo};
use timestone::scroll::{ScrollAggregator, ScrollTick};
use timestone::window::WindowTracker;

fn tick(ts_ms: i64, delta: i32) -> ScrollTick {
    ScrollTick { ts_ms, x: 10, y: 20, delta }
}

#[test]
fn scroll_burst_is_one_aggregate() {
    let mut agg = ScrollAggregator::new();
    assert!(agg.on_tick(tick(0, 120)).is_none());
    assert!(agg.on_tick(tick(150, 120)).is_none());
    assert!(agg.on_tick(tick(350, -240)).is_none());
    let emitted = agg.on_tick(tick(600, 120)).unwrap();
    assert_eq!(emitted.ticks, 3);
    assert_eq!(emitted.total_delta, 0);
    assert_eq!(emitted.last_ts_ms, 350);
    let rest = agg.current.unwrap();
    assert_eq!(rest.ticks, 1);
    assert_eq!(rest.total_delta, 120);
}

#[test]
fn scroll_gap_boundary_and_quiet_flush() {
    let mut agg = ScrollAggregator::new();
    agg.on_tick(tick(0, 1));
    assert!(agg.on_tick(tick(200, 2)).is_none());
    assert!(agg.flush_if_quiet(400).is_none());
    let flushed = agg.flush_if_quiet(401).unwrap();
    assert_eq!(flushed.ticks, 2);
    assert_eq!(flushed.total_delta, 3);
    assert!(agg.current.is_none());
    assert!(agg.flush_if_quiet(10_000).is_none());
}

fn info(left: i32) -> WindowInfo {
    WindowInfo {
        title: "Editor".to_string(),
        class_name: "EditClass".to_string(),
        rect: Some(RectInfo { left, top: 0, right: left + 100, bottom: 50, width: 100, height: 50 }),
        process_name: Some("C:\\Apps\\editor.exe".to_string()),
    }
}

#[test]
fn rect_changes_debounce_to_final_rect() {
    let mut t = WindowTracker::new();
    let first = t.observe(7, info(0), 0, 300);
    assert!(first.is_new);
    for (i, left) in [10, 20, 30, 40].into_iter().enumerate() {
        let u = t.observe(7, info(left), 100 * (i as i64 + 1), 300);
        assert!(!u.is_new && !u.rect_now);
        assert!(t.flush_pending(100 * (i as i64 + 1) + 50, 300).is_none());
    }
    assert!(t.flush_pending(699, 300).is_none());
    let due = t.flush_pending(700, 300).unwrap();
    assert_eq!(due.rect.unwrap().left, 40);
    assert!(t.flush_pending(2000, 300).is_none());
}

#[test]
fn rect_change_dropped_when_focus_moves() {
    let mut t = WindowTracker::new();
    t.observe(7, info(0), 0, 300);
    t.observe(7, info(5), 10, 300);
    let u = t.observe(8, info(5), 20, 300);
    assert!(u.is_new);
    assert!(t.flush_pending(5000, 300).is_none());
}

#[test]
fn rect_change_without_debounce_is_immediate() {
    let mut t = WindowTracker::new();
    t.observe(3, info(0), 0, 0);
    let u = t.observe(3, info(9), 1, 0);
    assert!(u.rect_now && !u.is_new);
    let same = t.observe(3, info(9), 2, 0);
    assert!(!same.rect_now && !same.is_new);
}

#[test]
fn clipboard_repeat_within_window_is_suppressed() {
    let mut d = ClipboardDedupe::new(2000);
    assert!(!d.should_skip_clipboard_hash(42, 1000));
    assert!(d.should_skip_clipboard_hash(42, 1500));
    assert!(d.should_skip_clipboard_hash(42, 3000));
    assert!(!d.should_skip_clipboard_hash(42, 3001));
    assert!(!d.should_skip_clipboard_hash(43, 3002));
    assert!(d.should_skip_clipboard_hash(43, 3003));
    assert_eq!(d.window_ms, 2000);
}

#[test]
fn clipboard_watcher_waits_for_settle() {
    let mut w = ClipboardWatcher::new(5);
    assert!(!w.poll(5, 0, 200));
    assert!(!w.poll(6, 100, 200));
    assert!(!w.poll(7, 250, 200));
    assert!(!w.poll(7, 400, 200));
    assert!(w.poll(7, 450, 200));
    assert!(!w.poll(7, 900, 200));
}
