use timestone::event::EventKind;
use timestone::event::EventPayload;
use timestone::event::EventRecord;
use timestone::tapper::{
    parse_args, build_processing_summary, build_window_key, event_type_allowed, keydown_group_heads,
    parse_event_types, parse_ocr_keydown_mode, segment_ready, EventInfo, OcrKeydownMode,
    ProcessingCounts, RecordSegment,
};
use timestone::tray::{
    build_command, get_status, resolve_icon_path, truncate_tooltip, IconSource, Mode,
    RecorderStatus, TrayAction, TrayState,
};
use timestone::writer::{WriteBatcher, BATCH_SIZE};

fn strings(v: &[&str]) -> Vec<String> {
    v.iter().map(|s| s.to_string()).collect()
}

#[test]
fn event_type_filters() {
    assert_eq!(parse_event_types(" Key_Down, mouse_click,,KEY_DOWN ,"), strings(&["key_down", "mouse_click"]));
    assert!(parse_event_types(" , ").is_empty());
    assert!(parse_event_types("").is_empty());
    let filter = Some(strings(&["key_down"]));
    assert!(event_type_allowed("KEY_DOWN", &filter));
    assert!(!event_type_allowed("mouse_click", &filter));
    assert!(event_type_allowed("anything", &None));
    assert_eq!(parse_ocr_keydown_mode(" ALL "), OcrKeydownMode::All);
    assert_eq!(parse_ocr_keydown_mode("heads"), OcrKeydownMode::GroupHead);
}

fn ev(id: i64, t: &str, key: &str) -> EventInfo {
    EventInfo { id, ts_wall_ms: id * 10, event_type: t.to_string(), window_key: key.to_string() }
}

#[test]
fn keydown_heads_end_runs() {
    let events = vec![
        ev(1, "key_down", "a"),
        ev(2, "key_down", "a"),
        ev(3, "key_down", "b"),
        ev(4, "mouse_click", "b"),
        ev(5, "key_down", "b"),
    ];
    assert_eq!(keydown_group_heads(&events), vec![2, 3, 5]);
    assert!(keydown_group_heads(&vec![]).is_empty());
}

#[test]
fn window_keys_and_readiness() {
    assert_eq!(build_window_key(Some("p.exe".to_string()), None, Some("C".to_string())), "p.exe||C");
    let seg = RecordSegment { id: 1, session_id: None, start_wall_ms: 0, end_wall_ms: 1000, obs_path: None };
    assert!(segment_ready(&seg, 2000, 3000));
    assert!(!segment_ready(&seg, 2000, 2999));
}

#[test]
fn processing_summaries() {
    let mut c = ProcessingCounts {
        frames_done: 0,
        frames_total: 0,
        ocr_done: 0,
        ocr_total: 0,
        audio_done: false,
        transcribe_done: false,
    };
    assert_eq!(build_processing_summary(&c), "idle");
    c.frames_done = 3;
    c.frames_total = 10;
    c.ocr_done = 1;
    c.ocr_total = 2;
    c.audio_done = true;
    c.transcribe_done = true;
    assert_eq!(build_processing_summary(&c), "frames 3/10 | ocr 1/2 | audio ok | tx ok");
    c.frames_total = 0;
    c.ocr_total = 0;
    assert_eq!(build_processing_summary(&c), "audio ok | tx ok");
}

#[test]
fn tray_commands_and_icons() {
    let c = build_command(Some("rec.exe".to_string()), Some(strings(&["-v"])), Some("x".to_string()));
    assert_eq!(c.exe, "rec.exe");
    assert_eq!(c.args_prefix, strings(&["-v"]));
    let c = build_command(None, None, Some("found.exe".to_string()));
    assert_eq!(c.exe, "found.exe");
    assert!(c.args_prefix.is_empty());
    let c = build_command(None, None, None);
    assert_eq!(c.exe, "cargo");
    assert_eq!(c.args_prefix.len(), 4);
    match resolve_icon_path("C:\\data", "https://x/i.ico") {
        IconSource::Download(u) => assert_eq!(u, "https://x/i.ico"),
        _ => panic!("expected a download"),
    }
    match resolve_icon_path("C:\\data", "D:\\i.ico") {
        IconSource::File(p) => assert_eq!(p, "D:\\i.ico"),
        _ => panic!("expected a file"),
    }
    match resolve_icon_path("C:\\data", "icons\\i.ico") {
        IconSource::File(p) => assert_eq!(p, "C:\\data\\icons\\i.ico"),
        _ => panic!("expected a file"),
    }
}

#[test]
fn tooltips_and_status() {
    assert_eq!(truncate_tooltip("short", 10), "short");
    assert_eq!(truncate_tooltip("abcdef", 4), "abc\u{2026}");
    assert_eq!(truncate_tooltip("ééé", 4), "ééé\u{2026}");
    assert_eq!(get_status("x\nRecorder status: paused\n"), RecorderStatus::Paused);
    assert_eq!(get_status("Recorder status: running"), RecorderStatus::Running);
    assert_eq!(get_status("Recorder status: stopped"), RecorderStatus::Stopped);
}

#[test]
fn tray_clicks_and_hotkeys() {
    let mut s = TrayState { status: RecorderStatus::Stopped, busy: false, mode: Mode::Full };
    assert_eq!(s.handle_left_click(), Some(TrayAction::Start));
    assert_eq!(s.handle_hotkey(2), Some(TrayAction::StartInMode(Mode::Low)));
    assert!(s.update_status(RecorderStatus::Running));
    assert!(!s.update_status(RecorderStatus::Running));
    assert_eq!(s.handle_left_click(), Some(TrayAction::Pause));
    assert_eq!(s.handle_hotkey(1), Some(TrayAction::Pause));
    assert_eq!(s.handle_hotkey(3), Some(TrayAction::SetMode(Mode::Mid)));
    assert_eq!(s.handle_hotkey(4), Some(TrayAction::Stop));
    assert_eq!(s.handle_hotkey(9), None);
    s.status = RecorderStatus::Paused;
    assert_eq!(s.handle_hotkey(1), Some(TrayAction::Resume));
    s.busy = true;
    assert_eq!(s.handle_left_click(), None);
    assert_eq!(s.handle_hotkey(1), None);
}

fn record(n: i64) -> EventRecord {
    EventRecord {
        session_id: "s".to_string(),
        ts_wall_ms: n,
        ts_mono_ms: n,
        kind: EventKind::Marker,
        process_name: None,
        window_title: None,
        window_class: None,
        window_rect: None,
        mouse: None,
        payload: EventPayload::Empty,
    }
}

#[test]
fn writer_batches_and_drains() {
    let mut w = WriteBatcher::new();
    let mut written = Vec::new();
    for i in 0..(BATCH_SIZE as i64 + 5) {
        if let Some(batch) = w.on_event(record(i)) {
            assert_eq!(batch.len(), BATCH_SIZE);
            written.extend(batch);
        }
    }
    assert_eq!(written.len(), BATCH_SIZE);
    let step = w.on_timeout(false, false);
    assert!(!step.stop);
    written.extend(step.write.unwrap());
    assert_eq!(written.len(), BATCH_SIZE + 5);
    assert!(written.iter().enumerate().all(|(i, e)| e.ts_mono_ms == i as i64));
    let idle = w.on_timeout(true, true);
    assert!(idle.stop && idle.write.is_none());
    w.on_event(record(99));
    assert_eq!(w.on_disconnect().unwrap().len(), 1);
    assert!(w.on_disconnect().is_none());
}

#[test]
fn tapper_arguments() {
    let args = strings(&[
        "--db", "x.sqlite3", "--scale-width", "640", "--jpeg-quality", "999", "--grace-ms", "-50",
        "--transcribe-model", "  ", "--ocr-lang", "deu", "--event-types", "KEY_DOWN,mouse_click",
        "--ocr-keydown-mode", "All", "--verbose", "--unknown", "--session-id",
    ]);
    let a = parse_args(&args);
    assert_eq!(a.db_path.as_deref(), Some("x.sqlite3"));
    assert_eq!(a.scale_width, 640);
    assert_eq!(a.jpeg_quality, 4);
    assert_eq!(a.grace_ms, -50);
    assert_eq!(a.poll_ms, 1500);
    assert_eq!(a.frame_offset_ms, 200);
    assert_eq!(a.transcribe_model, "medium");
    assert_eq!(a.ocr_lang, "deu");
    assert_eq!(a.event_types, Some(strings(&["key_down", "mouse_click"])));
    assert_eq!(a.ocr_keydown_mode, OcrKeydownMode::All);
    assert!(a.verbose && !a.quiet_ffmpeg);
    assert_eq!(a.session_id, None);
    let b = parse_args(&strings(&["--session-id", "s1", "--quiet-ffmpeg", "--poll-ms"]));
    assert_eq!(b.session_id.as_deref(), Some("s1"));
    assert!(b.quiet_ffmpeg);
    assert_eq!(b.poll_ms, 1500);
}
