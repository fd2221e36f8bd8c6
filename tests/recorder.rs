use timestone::config::RecorderConfig;
use timestone::event::{EventKind, EventPayload, EventRecord, RectInfo, WindowInfo};
use timestone::keyboard::KeyInput;
use timestone::pointer::MouseMsg;
use timestone::privacy::FocusInfo;
use timestone::recorder::{
    icon_file_name, pick_clipboard_content, ClipboardContent, ClipboardPick, Clock, Recorder, TextContext,
};
use timestone::text_buffer::{FlushReason, TextKey};

fn clock(mono_ms: i64) -> Clock {
    Clock { wall_ms: 1_700_000_000_000 + mono_ms, mono_ms }
}

fn window(process: &str) -> WindowInfo {
    WindowInfo {
        title: "Doc".to_string(),
        class_name: "Edit".to_string(),
        rect: Some(RectInfo { left: 0, top: 0, right: 10, bottom: 10, width: 10, height: 10 }),
        process_name: Some(process.to_string()),
    }
}

fn recorder() -> Recorder {
    let mut config = RecorderConfig::default();
    config.emit_mouse_scroll = true;
    config.emit_mouse_move = true;
    let config = timestone::config::normalize_config(config);
    Recorder::new("session-1".to_string(), &config)
}

fn type_key(r: &mut Recorder, vk: u32, key: TextKey, at: i64) -> Vec<EventRecord> {
    let input = KeyInput { vk, scan_code: 0, is_down: true, is_up: false, injected: false };
    let d = r.on_key(input);
    let ctx = TextContext {
        window: Some(window("C:\\Apps\\notepad.exe")),
        capture_allowed: true,
        key,
        final_text: None,
    };
    r.key_events(input, d, Some(ctx), clock(at))
}

fn text_of(e: &EventRecord) -> String {
    match &e.payload {
        EventPayload::Text { text, .. } => text.clone(),
        _ => panic!("not a text event"),
    }
}

#[test]
fn scenario_typed_text_one_event_after_idle() {
    let mut r = recorder();
    let mut events = Vec::new();
    events.extend(type_key(&mut r, 0x41, TextKey::Chars("a".to_string()), 100));
    events.extend(type_key(&mut r, 0x42, TextKey::Chars("b".to_string()), 200));
    events.extend(type_key(&mut r, 0x08, TextKey::Backspace, 300));
    events.extend(type_key(&mut r, 0x43, TextKey::Chars("c".to_string()), 400));
    events.extend(r.on_idle_check(&None, None, clock(3000)));
    let texts: Vec<&EventRecord> = events.iter().filter(|e| e.kind == EventKind::TextInput).collect();
    assert_eq!(texts.len(), 1);
    assert_eq!(text_of(texts[0]), "ac");
    let raw = events.iter().filter(|e| e.kind == EventKind::KeyDown).count();
    assert_eq!(raw, 4);
}

#[test]
fn scenario_same_clipboard_text_twice_is_one_event() {
    let mut r = recorder();
    let w = Some(window("C:\\Apps\\notepad.exe"));
    let first = r.on_clipboard(ClipboardContent::Text("hello".to_string()), w.clone(), clock(1000));
    let second = r.on_clipboard(ClipboardContent::Text("hello".to_string()), w.clone(), clock(1500));
    assert_eq!(first.len() + second.len(), 1);
    assert_eq!(first[0].kind, EventKind::ClipboardText);
    let other = r.on_clipboard(ClipboardContent::Text("world".to_string()), w, clock(1600));
    assert_eq!(other.len(), 1);
}

#[test]
fn scenario_stop_flushes_text_before_stop_marker() {
    let mut r = recorder();
    type_key(&mut r, 0x44, TextKey::Chars("draft".to_string()), 100);
    let mut events = r.stop_signal(&None, clock(200));
    events.extend(r.finish(&None, clock(250)));
    assert_eq!(events.len(), 2);
    assert_eq!(events[0].kind, EventKind::TextInput);
    assert_eq!(text_of(&events[0]), "draft");
    match &events[0].payload {
        EventPayload::Text { reason, .. } => assert_eq!(*reason, FlushReason::StopSignal),
        _ => unreachable!(),
    }
    assert_eq!(events[1].kind, EventKind::SessionStop);
}

#[test]
fn finish_with_pending_text_emits_it_first() {
    let mut r = recorder();
    type_key(&mut r, 0x44, TextKey::Chars("draft".to_string()), 100);
    let events = r.finish(&None, clock(150));
    assert_eq!(events.len(), 2);
    assert_eq!(text_of(&events[0]), "draft");
    assert_eq!(events[1].kind.as_str(), "session_stop");
}

#[test]
fn pause_suspends_and_resume_restores_emission() {
    let mut r = recorder();
    type_key(&mut r, 0x41, TextKey::Chars("x".to_string()), 10);
    let paused = r.set_paused(true, &None, clock(20));
    assert_eq!(paused.len(), 2);
    assert_eq!(text_of(&paused[0]), "x");
    assert_eq!(paused[1].kind, EventKind::SessionPause);
    assert!(type_key(&mut r, 0x42, TextKey::Chars("y".to_string()), 30).is_empty());
    assert!(r.on_mouse(MouseMsg::LeftDown, 1, 1, clock(40)).is_empty());
    assert!(r.on_window(99, window("b.exe"), None, clock(50)).is_empty());
    assert!(r
        .on_clipboard(ClipboardContent::Text("t".to_string()), None, clock(60))
        .is_empty());
    assert!(r.snapshot(0, 0, &None, clock(70)).is_empty());
    assert!(r.set_paused(true, &None, clock(75)).is_empty());
    let resumed = r.set_paused(false, &None, clock(80));
    assert_eq!(resumed.len(), 1);
    assert_eq!(resumed[0].kind, EventKind::SessionResume);
    let clicks = r.on_mouse(MouseMsg::LeftDown, 1, 1, clock(90));
    assert_eq!(clicks.len(), 1);
    assert_eq!(clicks[0].kind, EventKind::MouseClick);
}

#[test]
fn scroll_begun_before_pause_is_still_delivered() {
    let mut r = recorder();
    assert!(r.on_mouse(MouseMsg::Wheel(120), 5, 5, clock(0)).is_empty());
    assert!(r.on_mouse(MouseMsg::Wheel(120), 5, 5, clock(100)).is_empty());
    r.set_paused(true, &None, clock(150));
    let flushed = r.flush_scroll(clock(400));
    assert_eq!(flushed.len(), 1);
    assert_eq!(flushed[0].kind, EventKind::MouseScroll);
    match &flushed[0].payload {
        EventPayload::Scroll { ticks, total_delta } => {
            assert_eq!(*ticks, 2);
            assert_eq!(*total_delta, 240);
        }
        _ => unreachable!(),
    }
}

#[test]
fn window_change_flushes_text_and_reports_window() {
    let mut r = recorder();
    r.on_window(1, window("a.exe"), None, clock(0));
    type_key(&mut r, 0x41, TextKey::Chars("hi".to_string()), 10);
    let events = r.on_window(2, window("b.exe"), Some("icons\\1.bmp".to_string()), clock(20));
    assert_eq!(events.len(), 2);
    assert_eq!(text_of(&events[0]), "hi");
    assert_eq!(events[0].process_name.as_deref(), Some("a.exe"));
    assert_eq!(events[1].kind, EventKind::ActiveWindowChanged);
    assert_eq!(events[1].process_name.as_deref(), Some("b.exe"));
}

#[test]
fn blocked_process_clipboard_is_not_captured() {
    let mut r = recorder();
    let w = Some(window("C:\\Program Files\\KeePass\\KeePass.exe"));
    assert!(r.on_clipboard(ClipboardContent::Text("secret".to_string()), w, clock(5)).is_empty());
}

#[test]
fn shortcut_and_marker_hotkey() {
    let mut r = recorder();
    let ctrl = KeyInput { vk: 0xa2, scan_code: 29, is_down: true, is_up: false, injected: false };
    let d = r.on_key(ctrl);
    assert!(!d.shortcut && !d.text_candidate);
    let events = r.key_events(ctrl, d, None, clock(1));
    assert_eq!(events.len(), 1);
    assert_eq!(events[0].kind, EventKind::KeyDown);
    let zero = KeyInput { vk: 0x30, scan_code: 11, is_down: true, is_up: false, injected: false };
    let d = r.on_key(zero);
    assert!(d.shortcut && d.marker && d.chorded && !d.raw);
    let ctx = TextContext {
        window: Some(window("a.exe")),
        capture_allowed: true,
        key: TextKey::Chars("0".to_string()),
        final_text: None,
    };
    let events = r.key_events(zero, d, Some(ctx), clock(2));
    let kinds: Vec<&str> = events.iter().map(|e| e.kind.as_str()).collect();
    assert_eq!(kinds, vec!["key_shortcut", "marker"]);
    match &events[0].payload {
        EventPayload::Shortcut { key, modifiers, .. } => {
            assert_eq!(key, "0");
            assert_eq!(modifiers, &vec!["Ctrl".to_string()]);
        }
        _ => unreachable!(),
    }
}

#[test]
fn unsafe_target_flushes_pending_text() {
    let mut r = recorder();
    type_key(&mut r, 0x41, TextKey::Chars("ok".to_string()), 10);
    let input = KeyInput { vk: 0x42, scan_code: 0, is_down: true, is_up: false, injected: false };
    let d = r.on_key(input);
    let allowed = r.settings.privacy.should_capture_text(
        Some("C:\\x\\app.exe"),
        Some(FocusInfo { has_keyboard_focus: true, is_password: true, is_text_control: true }),
    );
    assert!(!allowed);
    let ctx = TextContext {
        window: None,
        capture_allowed: allowed,
        key: TextKey::Chars("b".to_string()),
        final_text: None,
    };
    let events = r.key_events(input, d, Some(ctx), clock(20));
    assert_eq!(events[0].kind, EventKind::TextInput);
    match &events[0].payload {
        EventPayload::Text { text, reason, .. } => {
            assert_eq!(text, "ok");
            assert_eq!(reason.as_str(), "unsafe_target");
        }
        _ => unreachable!(),
    }
    assert!(r.text.is_empty());
}

#[test]
fn mouse_moves_are_rate_limited() {
    let mut r = recorder();
    assert_eq!(r.on_mouse(MouseMsg::Move, 0, 0, clock(0)).len(), 1);
    assert!(r.on_mouse(MouseMsg::Move, 1, 0, clock(10)).is_empty());
    assert_eq!(r.on_mouse(MouseMsg::Move, 2, 0, clock(33)).len(), 1);
    assert!(r.on_mouse(MouseMsg::LeftUp, 2, 0, clock(40)).is_empty());
    assert!(r.on_mouse(MouseMsg::Other, 2, 0, clock(41)).is_empty());
}

#[test]
fn clipboard_content_priority() {
    let mut bmp = vec![0u8; 48];
    bmp[0] = 40;
    bmp[4] = 1;
    bmp[8] = 1;
    bmp[14] = 32;
    let files = Some(vec!["C:\\a.txt".to_string()]);
    let text = Some("hello".to_string());
    match pick_clipboard_content(Some(bmp.clone()), files.clone(), text.clone()) {
        Some(ClipboardPick::Image(prep)) => {
            assert_eq!(prep.info.width, 1);
            assert_eq!(prep.info.image_size, 4);
        }
        other => panic!("expected an image, got {other:?}"),
    }
    match pick_clipboard_content(Some(vec![1, 2, 3]), files.clone(), text.clone()) {
        Some(ClipboardPick::Files(f)) => assert_eq!(f, vec!["C:\\a.txt".to_string()]),
        other => panic!("expected files, got {other:?}"),
    }
    match pick_clipboard_content(None, Some(vec![]), text.clone()) {
        Some(ClipboardPick::Text(t)) => assert_eq!(t, "hello"),
        other => panic!("expected text, got {other:?}"),
    }
    assert!(pick_clipboard_content(None, None, Some(String::new())).is_none());
}

#[test]
fn clipboard_file_lists_are_deduplicated_by_content() {
    let mut r = recorder();
    let files = vec!["C:\\a.txt".to_string(), "C:\\b.txt".to_string()];
    let first = r.on_clipboard(ClipboardContent::Files(files.clone()), None, clock(0));
    assert_eq!(first.len(), 1);
    assert_eq!(first[0].kind, EventKind::ClipboardFiles);
    assert!(r.on_clipboard(ClipboardContent::Files(files), None, clock(100)).is_empty());
    let other = vec!["C:\\a.txt".to_string()];
    assert_eq!(r.on_clipboard(ClipboardContent::Files(other), None, clock(200)).len(), 1);
}

#[test]
fn icon_file_names_depend_on_the_path() {
    let a = icon_file_name("C:\\Apps\\a.exe");
    let b = icon_file_name("C:\\Apps\\b.exe");
    assert!(a.ends_with(".bmp") && b.ends_with(".bmp"));
    assert_ne!(a, b);
    assert_eq!(a, icon_file_name("C:\\Apps\\a.exe"));
    assert!(a[..a.len() - 4].chars().all(|c| c.is_ascii_digit()));
}

#[test]
fn equal_hashes_are_suppressed_whatever_the_content_kind() {
    let mut r = recorder();
    let image = ClipboardContent::Image { path: "a.bmp".to_string(), width: 1, height: 1, hash: 7 };
    assert_eq!(r.on_clipboard(image, None, clock(0)).len(), 1);
    let image_again = ClipboardContent::Image { path: "b.bmp".to_string(), width: 2, height: 2, hash: 7 };
    assert!(r.on_clipboard(image_again, None, clock(100)).is_empty());
    let line = "C:\\a.txt".to_string();
    assert_eq!(r.on_clipboard(ClipboardContent::Files(vec![line.clone()]), None, clock(200)).len(), 1);
    assert!(r.on_clipboard(ClipboardContent::Text(line), None, clock(300)).is_empty());
}

#[test]
fn events_carry_session_and_window() {
    let mut r = recorder();
    let w = window("C:\\Apps\\notepad.exe");
    let events = r.on_window(5, w.clone(), Some("icon.bmp".to_string()), clock(0));
    assert_eq!(events.len(), 1);
    assert_eq!(events[0].session_id, "session-1");
    assert_eq!(events[0].window_title.as_deref(), Some("Doc"));
    assert_eq!(events[0].window_class.as_deref(), Some("Edit"));
    match &events[0].payload {
        EventPayload::WindowChanged { app_icon_path } => assert_eq!(app_icon_path.as_deref(), Some("icon.bmp")),
        _ => unreachable!(),
    }
    let snap = r.snapshot(3, 4, &Some(w), clock(10));
    let mouse = snap[0].mouse.as_ref().unwrap();
    assert_eq!((mouse.x, mouse.y), (3, 4));
    assert_eq!(snap[0].process_name.as_deref(), Some("C:\\Apps\\notepad.exe"));
}

#[test]
fn finish_flushes_open_scroll_before_stop() {
    let mut r = recorder();
    type_key(&mut r, 0x41, TextKey::Chars("x".to_string()), 10);
    assert!(r.on_mouse(MouseMsg::Wheel(120), 1, 2, clock(20)).is_empty());
    let events = r.finish(&None, clock(30));
    let kinds: Vec<&str> = events.iter().map(|e| e.kind.as_str()).collect();
    assert_eq!(kinds, vec!["text_input", "mouse_scroll", "session_stop"]);
    assert!(r.scroll.current.is_none());
}
