//! The recorder core: one value holding every coalescing state machine and
//! the capture settings, fed with what the producers observe and returning
//! the finished event records to send, in order. While paused, no producer
//! emits anything and no state changes; only a scroll aggregate begun
//! before the pause is still delivered once it goes quiet.
use vstd::prelude::*;
use crate::clipboard::{
    ClipboardDedupe, DibError, DibInfo, bmp_file_header, hash_bytes, hash_text,
    parse_dib_info, truncate_text, bytes_hash, dib_result, text_hash, dedupe_step,
};
use crate::config::RecorderConfig;
use crate::event::{
    EventKind, EventPayload, EventRecord, MouseInfo, WindowInfo, copy_window, has_window,
};
use crate::keyboard::{
    KeyDecision, KeyInput, PressedKeys, RawKeyPolicy, classify_key, key_name, pressed_after,
    vk_to_name,
};
use crate::config::{
    click_mode_of, opt_view, parse_mouse_click_mode, parse_raw_keys_mode, raw_keys_mode_of,
};
use crate::pointer::{MouseMsg, PointerAction, PointerFilter};
use crate::privacy::PrivacyPolicy;
use crate::scroll::{ScrollAggregator, ScrollBuffer, ScrollTick, tick_step};
use crate::strings::{copy_opt_text, copy_texts, digits_of, push_char, push_decimal};
use crate::text_buffer::{FlushReason, TextBuffer, TextFlush, TextKey, TextState, flush_view};
use crate::window::{WindowTracker, observe_step, check_step};

verus! {

/// The two clocks of an event: wall-clock epoch milliseconds and monotonic
/// milliseconds since the session started.
#[derive(Clone, Copy, Debug, PartialEq, Eq, Structural)]
pub struct Clock {
    pub wall_ms: i64,
    pub mono_ms: i64,
}

/// Capture settings that stay fixed for a session.
#[derive(Clone, Debug)]
pub struct CaptureSettings {
    pub raw_keys: RawKeyPolicy,
    pub privacy: PrivacyPolicy,
    pub text_flush_ms: i64,
    pub max_text_len: usize,
    pub text_snapshot_on_idle: bool,
    pub window_rect_debounce_ms: i64,
}

/// What the keyboard producer learned about the target of a key that may
/// produce text.
#[derive(Clone, Debug)]
pub struct TextContext {
    /// The foreground window.
    pub window: Option<WindowInfo>,
    /// The privacy gate's verdict for the focused target.
    pub capture_allowed: bool,
    /// The key as the text buffer sees it, typed keys already turned into text
    /// by the keyboard layout.
    pub key: TextKey,
    /// The focused control's full value, read when an idle flush is due and
    /// idle snapshots are enabled.
    pub final_text: Option<String>,
}

/// Clipboard content, in the order of preference in which it is read.
#[derive(Clone, Debug)]
pub enum ClipboardContent {
    /// A bitmap saved to `path`; `hash` is that of its bytes.
    Image { path: String, width: i32, height: u32, hash: u64 },
    Files(Vec<String>),
    Text(String),
}

/// The kind of event a clipboard content makes and the hash under which
/// repeats of it are recognised.
pub open spec fn content_key(c: ClipboardContent) -> (EventKind, u64) {
    match c {
        ClipboardContent::Image { hash, .. } => (EventKind::ClipboardImage, hash),
        ClipboardContent::Files(files) => (EventKind::ClipboardFiles, text_hash(lines_joined(files@))),
        ClipboardContent::Text(text) => (EventKind::ClipboardText, text_hash(text@)),
    }
}

/// A clipboard bitmap ready to be saved: its header, the bitmap file
/// header to write before it, and the hash of its bytes.
#[derive(Clone, Debug)]
pub struct ImagePrep {
    pub info: DibInfo,
    pub file_header: Vec<u8>,
    pub hash: u64,
}

/// Decodes a clipboard bitmap and frames it as a bitmap file.
pub fn prepare_image(bytes: &[u8]) -> (r: Result<ImagePrep, DibError>)
    ensures
        match dib_result(bytes@) {
            Ok(info) => r is Ok && r->Ok_0.info == info && r->Ok_0.hash == bytes_hash(bytes@),
            Err(e) => r == Err::<ImagePrep, DibError>(e),
        },
{
    match parse_dib_info(bytes) {
        Ok(info) => {
            let file_header = bmp_file_header(bytes.len(), info.image_size);
            Ok(ImagePrep { info, file_header, hash: hash_bytes(bytes) })
        },
        Err(e) => Err(e),
    }
}

/// The clipboard content chosen for recording, before a bitmap is saved.
#[derive(Clone, Debug)]
pub enum ClipboardPick {
    Image(ImagePrep),
    Files(Vec<String>),
    Text(String),
}

/// Picks what to record of the clipboard, in order of preference: a bitmap
/// that decodes, then a non-empty file list, then non-empty text. A bitmap
/// that does not decode falls through to the next kind.
pub fn pick_clipboard_content(
    image: Option<Vec<u8>>,
    files: Option<Vec<String>>,
    text: Option<String>,
) -> (r: Option<ClipboardPick>)
    ensures
        ({
            let decodes = image is Some && dib_result(image->Some_0@) is Ok;
            let has_files = files is Some && files->Some_0@.len() > 0;
            let has_text = text is Some && text->Some_0@.len() > 0;
            &&& decodes ==> (r matches Some(ClipboardPick::Image(p)) && p.info == dib_result(
                image->Some_0@,
            )->Ok_0 && p.hash == bytes_hash(image->Some_0@))
            &&& !decodes && has_files ==> (r matches Some(ClipboardPick::Files(f)) && f@
                == files->Some_0@)
            &&& !decodes && !has_files && has_text ==> (r matches Some(ClipboardPick::Text(t))
                && t@ == text->Some_0@)
            &&& !decodes && !has_files && !has_text ==> r is None
        }),
{
    if let Some(bytes) = &image {
        if let Ok(prep) = prepare_image(bytes.as_slice()) {
            return Some(ClipboardPick::Image(prep));
        }
    }
    if let Some(f) = files {
        if f.len() > 0 {
            return Some(ClipboardPick::Files(f));
        }
    }
    if let Some(t) = text {
        if t.as_str().unicode_len() > 0 {
            return Some(ClipboardPick::Text(t));
        }
    }
    None
}

/// The file name under which the icon of a process image is cached: the
/// decimal hash of its path.
pub fn icon_file_name(process_path: &str) -> (r: String)
    ensures
        r@ == digits_of(text_hash(process_path@) as nat) + ".bmp"@,
{
    let mut out = String::new();
    push_decimal(&mut out, hash_text(process_path));
    out.append(".bmp");
    out
}

/// The kinds of a sequence of events.
pub open spec fn kinds(v: Seq<EventRecord>) -> Seq<EventKind> {
    v.map_values(|e: EventRecord| e.kind)
}

/// Whether every event belongs to session `sid`.
pub open spec fn from_session(v: Seq<EventRecord>, sid: String) -> bool {
    forall|i: int| 0 <= i < v.len() ==> (#[trigger] v[i]).session_id == sid
}

/// Whether `e` is a text event carrying `text`.
pub open spec fn is_text_event(e: EventRecord, text: Seq<char>, reason: FlushReason) -> bool {
    e.kind == EventKind::TextInput && match e.payload {
        EventPayload::Text { text: t, reason: why, .. } => t@ == text && why == reason,
        _ => false,
    }
}

/// The span a flush of `s` for `reason` emits, if any.
pub open spec fn flush_of(s: TextState, reason: FlushReason) -> Option<(Seq<char>, FlushReason)> {
    if s.text.len() > 0 {
        Some((s.text, reason))
    } else {
        None
    }
}

/// The number of events a flush emits.
pub open spec fn opt_count(f: Option<(Seq<char>, FlushReason)>) -> int {
    if f is Some {
        1
    } else {
        0
    }
}

/// Whether the event at `p` is the text event of flush `f`, when it has one.
pub open spec fn flush_at(v: Seq<EventRecord>, p: int, f: Option<(Seq<char>, FlushReason)>) -> bool {
    match f {
        Some((text, reason)) => is_text_event(v[p], text, reason),
        None => true,
    }
}

/// The events a flush of the text buffer produces: one text event, or none.
pub open spec fn flush_events(v: Seq<EventRecord>, f: Option<(Seq<char>, FlushReason)>) -> bool {
    v.len() == opt_count(f) && flush_at(v, 0, f)
}

/// The scroll event for an aggregate: its time, position, sum and count.
pub open spec fn is_scroll_event(e: EventRecord, b: ScrollBuffer) -> bool {
    &&& e.kind == EventKind::MouseScroll
    &&& e.ts_mono_ms == b.last_ts_ms
    &&& e.mouse == Some(MouseInfo { x: b.x, y: b.y, button: None, delta: Some(b.total_delta) })
    &&& e.payload == EventPayload::Scroll { ticks: b.ticks, total_delta: b.total_delta }
}

/// A move or click event at `(x, y)` for notification `m`.
pub open spec fn is_pointer_event(e: EventRecord, x: i32, y: i32, m: MouseMsg) -> bool {
    &&& e.mouse matches Some(mi) && mi.x == x && mi.y == y && mi.delta is None && opt_view(
        mi.button,
    ) == m.button_tag()
    &&& e.payload == EventPayload::Empty
    &&& has_window(e, None)
}

/// The shortcut event of key `k` under decision `d`.
pub open spec fn is_shortcut_event(e: EventRecord, k: KeyInput, d: KeyDecision) -> bool {
    e.kind == EventKind::KeyShortcut && match e.payload {
        EventPayload::Shortcut { key, modifiers, repeat, injected, scan_code } => key@ == key_name(
            k.vk,
        ) && modifiers == d.modifiers && repeat == d.repeat && injected == k.injected && scan_code
            == k.scan_code,
        _ => false,
    }
}

/// The marker event of the Ctrl+0 hotkey.
pub open spec fn is_marker_event(e: EventRecord) -> bool {
    e.kind == EventKind::Marker && match e.payload {
        EventPayload::Marker { hotkey } => hotkey@ == "Ctrl+0"@,
        _ => false,
    }
}

/// The raw key-down or key-up event of key `k` under decision `d`.
pub open spec fn is_raw_event(e: EventRecord, k: KeyInput, d: KeyDecision) -> bool {
    e.kind == (if k.is_down {
        EventKind::KeyDown
    } else {
        EventKind::KeyUp
    }) && match e.payload {
        EventPayload::Key { key, vk, repeat, injected, scan_code } => key@ == key_name(k.vk) && vk
            == k.vk && repeat == d.repeat && injected == k.injected && scan_code == k.scan_code,
        _ => false,
    }
}

/// The active-window event for a new foreground window.
pub open spec fn is_window_event(e: EventRecord, info: WindowInfo, icon: Option<String>) -> bool {
    &&& e.kind == EventKind::ActiveWindowChanged
    &&& has_window(e, Some(info))
    &&& e.payload == EventPayload::WindowChanged { app_icon_path: icon }
}

/// What a classified key does to the text buffer: the flush of the marker
/// hotkey, the two flushes of the text key (idle span, then the key's own),
/// and the buffer afterwards.
pub struct KeyTextPlan {
    pub marker: Option<(Seq<char>, FlushReason)>,
    pub first: Option<(Seq<char>, FlushReason)>,
    pub second: Option<(Seq<char>, FlushReason)>,
    pub after: TextState,
}

pub open spec fn key_text_plan(
    t0: TextState,
    d: KeyDecision,
    text: Option<TextContext>,
    now: int,
    flush_ms: int,
    max_len: int,
) -> KeyTextPlan {
    let marker = if d.marker {
        flush_of(t0, FlushReason::Marker)
    } else {
        None
    };
    let t1 = if d.marker {
        t0.take(now).0
    } else {
        t0
    };
    if d.text_candidate && text is Some {
        let ctx = text->Some_0;
        if ctx.capture_allowed {
            let step = t1.key_step(ctx.key, now, flush_ms, max_len);
            KeyTextPlan {
                marker,
                first: match step.1.stale {
                    Some(s) => Some((s, FlushReason::Timeout)),
                    None => None,
                },
                second: step.1.flushed,
                after: step.0,
            }
        } else {
            KeyTextPlan {
                marker,
                first: flush_of(t1, FlushReason::UnsafeTarget),
                second: None,
                after: t1.take(now).0,
            }
        }
    } else {
        KeyTextPlan { marker, first: None, second: None, after: t1 }
    }
}

/// A configured interval as the recorder keeps it: capped at `i64::MAX`.
pub open spec fn clamped(v: u64) -> int {
    if v > i64::MAX as u64 {
        i64::MAX as int
    } else {
        v as int
    }
}

/// The recorder's state.
pub struct Recorder {
    pub session_id: String,
    pub settings: CaptureSettings,
    pub paused: bool,
    pub text: TextBuffer,
    pub scroll: ScrollAggregator,
    pub windows: WindowTracker,
    /// The foreground window last seen, to which text flushed on a window
    /// change belongs.
    pub last_window: Option<WindowInfo>,
    pub clipboard: ClipboardDedupe,
    pub pressed: PressedKeys,
    pub pointer: PointerFilter,
}

fn clamp_i64(v: u64) -> (r: i64)
    ensures
        r == clamped(v),
{
    if v > i64::MAX as u64 {
        i64::MAX
    } else {
        v as i64
    }
}

impl Recorder {
    pub open spec fn wf(&self) -> bool {
        self.scroll.wf() && self.pressed.wf()
    }

    /// A recorder for a new session with the given (normalised)
    /// configuration: not paused, every buffer empty, every capture setting
    /// taken from the configuration.
    pub fn new(session_id: String, config: &RecorderConfig) -> (r: Recorder)
        ensures
            r.wf(),
            !r.paused,
            r.session_id == session_id,
            r.text@.text.len() == 0,
            r.scroll.current is None,
            r.pressed@ == Set::<u32>::empty(),
            r.last_window is None,
            r.windows.last_hwnd == 0 && r.windows.last_rect is None && r.windows.pending is None,
            r.clipboard.last is None,
            r.clipboard.window_ms == clamped(config.clipboard_dedupe_window_ms),
            r.settings.text_flush_ms == clamped(config.text_flush_ms),
            r.settings.max_text_len == config.max_text_len,
            r.settings.text_snapshot_on_idle == config.text_snapshot_on_idle,
            r.settings.window_rect_debounce_ms == clamped(config.window_rect_debounce_ms),
            r.settings.privacy.safe_text_only == config.safe_text_only,
            r.settings.privacy.allowlist@ == config.allowlist_processes@,
            r.settings.privacy.blocklist@ == config.blocklist_processes@,
            r.settings.raw_keys == (RawKeyPolicy {
                capture_raw_keys: config.capture_raw_keys,
                mode: raw_keys_mode_of(config.raw_keys_mode@),
                suppress_on_shortcut: config.suppress_raw_keys_on_shortcut,
            }),
            r.pointer.emit_move == config.emit_mouse_move,
            r.pointer.emit_click == config.emit_mouse_click,
            r.pointer.emit_scroll == config.emit_mouse_scroll,
            r.pointer.click_mode == click_mode_of(config.mouse_click_mode@),
            r.pointer.move_interval_ms == 1000int / (if config.mouse_hz < 1 {
                1int
            } else {
                config.mouse_hz as int
            }),
            r.pointer.last_move_ms == -1,
    {
        let hz = if config.mouse_hz < 1 {
            1
        } else {
            config.mouse_hz
        };
        let pointer = PointerFilter {
            emit_move: config.emit_mouse_move,
            emit_click: config.emit_mouse_click,
            emit_scroll: config.emit_mouse_scroll,
            click_mode: parse_mouse_click_mode(config.mouse_click_mode.as_str()),
            move_interval_ms: (1000 / hz) as i64,
            last_move_ms: -1,
        };
        let settings = CaptureSettings {
            raw_keys: RawKeyPolicy {
                capture_raw_keys: config.capture_raw_keys,
                mode: parse_raw_keys_mode(config.raw_keys_mode.as_str()),
                suppress_on_shortcut: config.suppress_raw_keys_on_shortcut,
            },
            privacy: PrivacyPolicy {
                safe_text_only: config.safe_text_only,
                allowlist: copy_texts(&config.allowlist_processes),
                blocklist: copy_texts(&config.blocklist_processes),
            },
            text_flush_ms: clamp_i64(config.text_flush_ms),
            max_text_len: config.max_text_len,
            text_snapshot_on_idle: config.text_snapshot_on_idle,
            window_rect_debounce_ms: clamp_i64(config.window_rect_debounce_ms),
        };
        Recorder {
            session_id,
            settings,
            paused: false,
            text: TextBuffer::new(),
            scroll: ScrollAggregator::new(),
            windows: WindowTracker::new(),
            last_window: None,
            clipboard: ClipboardDedupe::new(clamp_i64(config.clipboard_dedupe_window_ms)),
            pressed: PressedKeys::new(),
            pointer,
        }
    }

    /// Re-applies the pointer capture switches of a reloaded configuration.
    pub fn apply_capture_flags(&mut self, config: &RecorderConfig)
        ensures
            final(self).pointer.emit_move == config.emit_mouse_move,
            final(self).pointer.emit_click == config.emit_mouse_click,
            final(self).pointer.emit_scroll == config.emit_mouse_scroll,
            final(self).wf() == old(self).wf(),
            final(self).paused == old(self).paused,
    {
        self.pointer.emit_move = config.emit_mouse_move;
        self.pointer.emit_click = config.emit_mouse_click;
        self.pointer.emit_scroll = config.emit_mouse_scroll;
    }

    fn record(
        &self,
        kind: EventKind,
        clock: Clock,
        window: &Option<WindowInfo>,
        mouse: Option<MouseInfo>,
        payload: EventPayload,
    ) -> (r: EventRecord)
        ensures
            r.kind == kind,
            r.payload == payload,
            r.mouse == mouse,
            r.ts_mono_ms == clock.mono_ms,
            r.session_id == self.session_id,
            has_window(r, *window),
    {
        let (process_name, window_title, window_class, window_rect) = match window {
            Some(info) => (
                copy_opt_text(&info.process_name),
                Some(info.title.clone()),
                Some(info.class_name.clone()),
                info.rect,
            ),
            None => (None, None, None, None),
        };
        EventRecord {
            session_id: self.session_id.clone(),
            ts_wall_ms: clock.wall_ms,
            ts_mono_ms: clock.mono_ms,
            kind,
            process_name,
            window_title,
            window_class,
            window_rect,
            mouse,
            payload,
        }
    }

    /// A session lifecycle event.
    pub fn session_event(&self, kind: EventKind, note: &str, clock: Clock) -> (r: EventRecord)
        ensures
            r.kind == kind,
            r.session_id == self.session_id,
            r.ts_mono_ms == clock.mono_ms,
            r.payload matches EventPayload::Note { note: n } && n@ == note@,
            has_window(r, None),
    {
        self.record(kind, clock, &None, None, EventPayload::Note { note: note.to_owned() })
    }

    fn text_event(
        &self,
        flush: TextFlush,
        window: &Option<WindowInfo>,
        final_text: Option<String>,
        clock: Clock,
    ) -> (r: EventRecord)
        ensures
            is_text_event(r, flush.text@, flush.reason),
            r.session_id == self.session_id,
            has_window(r, *window),
    {
        let final_text = if self.settings.text_snapshot_on_idle && flush.reason.is_timeout() {
            match final_text {
                Some(t) => Some(truncate_text(t, self.settings.max_text_len)),
                None => None,
            }
        } else {
            None
        };
        self.record(
            EventKind::TextInput,
            clock,
            window,
            None,
            EventPayload::Text { text: flush.text, reason: flush.reason, final_text },
        )
    }

    fn push_flush(
        &self,
        out: &mut Vec<EventRecord>,
        flush: Option<TextFlush>,
        window: &Option<WindowInfo>,
        final_text: Option<String>,
        clock: Clock,
    )
        ensures
            final(out)@.len() == old(out)@.len() + opt_count(flush_view(flush)),
            forall|i: int| 0 <= i < old(out)@.len() ==> final(out)@[i] == old(out)@[i],
            flush_at(final(out)@, old(out)@.len() as int, flush_view(flush)),
            forall|i: int|
                old(out)@.len() <= i < final(out)@.len() ==> (#[trigger] final(out)@[i]).session_id
                    == self.session_id && has_window(final(out)@[i], *window),
    {
        match flush {
            Some(f) => {
                let e = self.text_event(f, window, final_text, clock);
                out.push(e);
            },
            None => {},
        }
    }

    /// Flushes the text buffer for `reason`: the text event, or nothing when
    /// the buffer is empty.
    pub fn flush_text(
        &mut self,
        reason: FlushReason,
        window: &Option<WindowInfo>,
        final_text: Option<String>,
        clock: Clock,
    ) -> (r: Vec<EventRecord>)
        ensures
            final(self).text@ == old(self).text@.take(clock.mono_ms as int).0,
            flush_events(r@, flush_of(old(self).text@, reason)),
            from_session(r@, old(self).session_id),
            forall|i: int| 0 <= i < r@.len() ==> has_window(#[trigger] r@[i], *window),
            final(self).paused == old(self).paused,
            final(self).wf() == old(self).wf(),
            final(self).session_id == old(self).session_id,
            final(self).settings == old(self).settings,
            final(self).scroll == old(self).scroll,
    {
        let flush = self.text.flush(clock.mono_ms, reason);
        let mut out: Vec<EventRecord> = Vec::new();
        self.push_flush(&mut out, flush, window, final_text, clock);
        out
    }

    /// Classifies a key notification and updates the pressed keys. While
    /// paused the notification is ignored.
    pub fn on_key(&mut self, k: KeyInput) -> (r: KeyDecision)
        requires
            old(self).wf(),
        ensures
            final(self).wf(),
            old(self).paused ==> *final(self) == *old(self) && !r.shortcut && !r.marker
                && !r.text_candidate && !r.raw,
            !old(self).paused ==> final(self).pressed@ == pressed_after(old(self).pressed@, k)
                && r.matches(old(self).pressed@, k, old(self).settings.raw_keys),
            final(self).paused == old(self).paused,
            final(self).text == old(self).text,
            final(self).session_id == old(self).session_id,
    {
        if self.paused {
            return KeyDecision {
                repeat: false,
                modifiers: Vec::new(),
                chorded: false,
                shortcut: false,
                marker: false,
                text_candidate: false,
                raw: false,
            };
        }
        classify_key(&mut self.pressed, k, self.settings.raw_keys)
    }

    /// The events of a classified key, in order: the shortcut event; on the
    /// marker hotkey the text flush and the marker; the text buffer's
    /// flushes (the idle span, then the key's own; or one flush because the
    /// target may not be captured); the raw key event. `text` is needed only
    /// when the decision names a text candidate or a marker. While paused,
    /// nothing is emitted.
    pub fn key_events(
        &mut self,
        k: KeyInput,
        d: KeyDecision,
        text: Option<TextContext>,
        clock: Clock,
    ) -> (r: Vec<EventRecord>)
        requires
            old(self).wf(),
        ensures
            final(self).wf(),
            final(self).paused == old(self).paused,
            final(self).session_id == old(self).session_id,
            final(self).settings == old(self).settings,
            old(self).paused ==> r@.len() == 0 && *final(self) == *old(self),
            !old(self).paused ==> ({
                let p = key_text_plan(
                    old(self).text@,
                    d,
                    text,
                    clock.mono_ms as int,
                    old(self).settings.text_flush_ms as int,
                    old(self).settings.max_text_len as int,
                );
                let s: int = if d.shortcut {
                    1
                } else {
                    0
                };
                let a = s + if d.marker {
                    opt_count(p.marker) + 1
                } else {
                    0
                };
                let b = a + opt_count(p.first);
                let c = b + opt_count(p.second);
                &&& r@.len() == c + if d.raw {
                    1int
                } else {
                    0
                }
                &&& d.shortcut ==> is_shortcut_event(r@[0], k, d)
                &&& d.marker ==> flush_at(r@, s, p.marker) && is_marker_event(r@[a - 1])
                &&& flush_at(r@, a, p.first)
                &&& flush_at(r@, b, p.second)
                &&& d.raw ==> is_raw_event(r@[c], k, d)
                &&& final(self).text@ == p.after
            }),
            from_session(r@, old(self).session_id),
    {
        let mut out: Vec<EventRecord> = Vec::new();
        if self.paused {
            return out;
        }
        let ghost t0 = self.text@;
        let ghost now = clock.mono_ms as int;
        if d.shortcut {
            let e = self.record(
                EventKind::KeyShortcut,
                clock,
                &None,
                None,
                EventPayload::Shortcut {
                    key: vk_to_name(k.vk),
                    modifiers: d.modifiers,
                    repeat: d.repeat,
                    injected: k.injected,
                    scan_code: k.scan_code,
                },
            );
            out.push(e);
        }
        let ghost o1 = out@;
        let window: Option<WindowInfo> = match &text {
            Some(ctx) => copy_window(&ctx.window),
            None => None,
        };
        if d.marker {
            let flushed = self.text.flush(clock.mono_ms, FlushReason::Marker);
            self.push_flush(&mut out, flushed, &window, None, clock);
            let e = self.record(
                EventKind::Marker,
                clock,
                &window,
                None,
                EventPayload::Marker { hotkey: String::from_str("Ctrl+0") },
            );
            out.push(e);
        }
        let ghost o2 = out@;
        let ghost t1 = self.text@;
        assert(t1 == (if d.marker { t0.take(now).0 } else { t0 }));
        let mut first: Option<TextFlush> = None;
        let mut second: Option<TextFlush> = None;
        let mut final_text: Option<String> = None;
        let mut text_window: Option<WindowInfo> = None;
        if d.text_candidate {
            match text {
                Some(ctx) => {
                    text_window = ctx.window;
                    if !ctx.capture_allowed {
                        first = self.text.flush(clock.mono_ms, FlushReason::UnsafeTarget);
                    } else {
                        let outcome = self.text.handle_key(
                            ctx.key,
                            clock.mono_ms,
                            self.settings.text_flush_ms,
                            self.settings.max_text_len,
                        );
                        first = match outcome.stale {
                            Some(t) => Some(TextFlush { text: t, reason: FlushReason::Timeout }),
                            None => None,
                        };
                        final_text = ctx.final_text;
                        second = outcome.flushed;
                    }
                },
                None => {},
            }
        }
        let ghost p = key_text_plan(
            t0,
            d,
            text,
            now,
            self.settings.text_flush_ms as int,
            self.settings.max_text_len as int,
        );
        assert(flush_view(first) == p.first);
        assert(flush_view(second) == p.second);
        assert(self.text@ == p.after);
        self.push_flush(&mut out, first, &text_window, final_text, clock);
        let ghost o3 = out@;
        self.push_flush(&mut out, second, &text_window, None, clock);
        let ghost o4 = out@;
        if d.raw {
            let kind = if k.is_down {
                EventKind::KeyDown
            } else {
                EventKind::KeyUp
            };
            let e = self.record(
                kind,
                clock,
                &None,
                None,
                EventPayload::Key {
                    key: vk_to_name(k.vk),
                    vk: k.vk,
                    repeat: d.repeat,
                    injected: k.injected,
                    scan_code: k.scan_code,
                },
            );
            out.push(e);
        }
        proof {
            let s: int = if d.shortcut {
                1int
            } else {
                0
            };
            let a = s + if d.marker {
                opt_count(p.marker) + 1
            } else {
                0
            };
            let b = a + opt_count(p.first);
            assert(o1.len() == s);
            assert(o2.len() == a);
            assert(o3.len() == b);
            if d.shortcut {
                assert(out@[0] == o1[0]);
            }
            if d.marker {
                assert(out@[s] == o2[s]);
                assert(out@[a - 1] == o2[a - 1]);
            }
            if p.first is Some {
                assert(out@[a] == o3[a]);
            }
            if p.second is Some {
                assert(out@[b] == o4[b]);
            }
            assert forall|i: int| 0 <= i < out@.len() implies (#[trigger] out@[i]).session_id
                == self.session_id by {
                if i < o1.len() {
                    assert(out@[i] == o1[i]);
                } else if i < o2.len() {
                    assert(out@[i] == o2[i]);
                } else if i < o3.len() {
                    assert(out@[i] == o3[i]);
                } else if i < o4.len() {
                    assert(out@[i] == o4[i]);
                }
            }
        }
        out
    }

    /// A pointer notification at `(x, y)`: a move or click event when the
    /// filter lets it through; a wheel tick goes to the scroll aggregator,
    /// which emits the previous aggregate when the tick starts a new one.
    /// While paused, nothing is emitted.
    pub fn on_mouse(&mut self, m: MouseMsg, x: i32, y: i32, clock: Clock) -> (r: Vec<EventRecord>)
        requires
            old(self).wf(),
        ensures
            final(self).wf(),
            final(self).paused == old(self).paused,
            final(self).session_id == old(self).session_id,
            final(self).text == old(self).text,
            old(self).paused ==> r@.len() == 0 && *final(self) == *old(self),
            !old(self).paused ==> final(self).pointer == (PointerFilter {
                last_move_ms: old(self).pointer.step(m, clock.mono_ms).1,
                ..old(self).pointer
            }),
            !old(self).paused ==> match old(self).pointer.step(m, clock.mono_ms).0 {
                PointerAction::Ignore => r@.len() == 0 && final(self).scroll == old(self).scroll,
                PointerAction::Emit(kind) => r@.len() == 1 && r@[0].kind == kind
                    && is_pointer_event(r@[0], x, y, m) && r@[0].ts_mono_ms == clock.mono_ms
                    && final(self).scroll == old(self).scroll,
                PointerAction::Scroll(d) => {
                    let t = ScrollTick { ts_ms: clock.mono_ms, x, y, delta: d };
                    &&& final(self).scroll.current == tick_step(
                        old(self).scroll.current,
                        t,
                    ).0
                    &&& match tick_step(old(self).scroll.current, t).1 {
                        Some(b) => r@.len() == 1 && is_scroll_event(r@[0], b),
                        None => r@.len() == 0,
                    }
                },
            },
            from_session(r@, old(self).session_id),
    {
        let mut out: Vec<EventRecord> = Vec::new();
        if self.paused {
            return out;
        }
        match self.pointer.on_mouse(m, clock.mono_ms) {
            PointerAction::Ignore => {},
            PointerAction::Emit(kind) => {
                let button = match m.button() {
                    Some(b) => Some(b.to_owned()),
                    None => None,
                };
                let e = self.record(
                    kind,
                    clock,
                    &None,
                    Some(MouseInfo { x, y, button, delta: None }),
                    EventPayload::Empty,
                );
                out.push(e);
            },
            PointerAction::Scroll(d) => {
                let emitted = self.scroll.on_tick(
                    ScrollTick { ts_ms: clock.mono_ms, x, y, delta: d },
                );
                if let Some(b) = emitted {
                    out.push(self.scroll_event(b, clock));
                }
            },
        }
        out
    }

    fn scroll_event(&self, b: ScrollBuffer, clock: Clock) -> (r: EventRecord)
        ensures
            is_scroll_event(r, b),
            r.session_id == self.session_id,
    {
        self.record(
            EventKind::MouseScroll,
            Clock { wall_ms: clock.wall_ms, mono_ms: b.last_ts_ms },
            &None,
            Some(MouseInfo { x: b.x, y: b.y, button: None, delta: Some(b.total_delta) }),
            EventPayload::Scroll { ticks: b.ticks, total_delta: b.total_delta },
        )
    }

    /// The scroll flusher's check: emits the aggregate once it has been
    /// quiet for longer than the gap, leaving nothing pending; otherwise
    /// nothing changes. This runs while paused too, so that a scroll begun
    /// before the pause is still delivered.
    pub fn flush_scroll(&mut self, clock: Clock) -> (r: Vec<EventRecord>)
        requires
            old(self).wf(),
        ensures
            final(self).wf(),
            final(self).paused == old(self).paused,
            final(self).session_id == old(self).session_id,
            final(self).text == old(self).text,
            match old(self).scroll.current {
                Some(b) => if clock.mono_ms - b.last_ts_ms > crate::scroll::SCROLL_GAP_MS {
                    r@.len() == 1 && is_scroll_event(r@[0], b) && final(self).scroll.current is None
                } else {
                    r@.len() == 0 && final(self).scroll == old(self).scroll
                },
                None => r@.len() == 0 && final(self).scroll == old(self).scroll,
            },
            from_session(r@, old(self).session_id),
    {
        let mut out: Vec<EventRecord> = Vec::new();
        if let Some(b) = self.scroll.flush_if_quiet(clock.mono_ms) {
            out.push(self.scroll_event(b, clock));
        }
        out
    }

    /// The foreground window `hwnd`, described by `info`, was observed. A new
    /// window flushes pending text, attributed to the previous window, and
    /// emits an active-window event for the new one annotated with
    /// `icon_path`; a changed rectangle is emitted at once or left to the
    /// debounce check. While paused, nothing is emitted.
    pub fn on_window(
        &mut self,
        hwnd: isize,
        info: WindowInfo,
        icon_path: Option<String>,
        clock: Clock,
    ) -> (r: Vec<EventRecord>)
        requires
            old(self).wf(),
        ensures
            final(self).wf(),
            final(self).paused == old(self).paused,
            final(self).session_id == old(self).session_id,
            old(self).paused ==> r@.len() == 0 && *final(self) == *old(self),
            !old(self).paused ==> ({
                let step = observe_step(
                    old(self).windows,
                    hwnd,
                    info,
                    clock.mono_ms,
                    old(self).settings.window_rect_debounce_ms as int,
                );
                let f = flush_of(old(self).text@, FlushReason::WindowChange);
                &&& final(self).windows == step.0
                &&& final(self).last_window == Some(info)
                &&& step.1.is_new ==> {
                    &&& r@.len() == opt_count(f) + 1
                    &&& flush_at(r@, 0, f)
                    &&& f is Some ==> has_window(r@[0], old(self).last_window)
                    &&& is_window_event(r@[opt_count(f)], info, icon_path)
                    &&& final(self).text@ == old(self).text@.take(clock.mono_ms as int).0
                }
                &&& step.1.rect_now ==> r@.len() == 1 && r@[0].kind
                    == EventKind::WindowRectChanged && has_window(r@[0], Some(info))
                &&& !step.1.is_new && !step.1.rect_now ==> r@.len() == 0
                &&& !step.1.is_new ==> final(self).text == old(self).text
            }),
            from_session(r@, old(self).session_id),
    {
        let mut out: Vec<EventRecord> = Vec::new();
        if self.paused {
            return out;
        }
        let window = Some(info.copy());
        let update = self.windows.observe(
            hwnd,
            info,
            clock.mono_ms,
            self.settings.window_rect_debounce_ms,
        );
        if update.is_new {
            let previous = copy_window(&self.last_window);
            let flushed = self.text.flush(clock.mono_ms, FlushReason::WindowChange);
            self.push_flush(&mut out, flushed, &previous, None, clock);
            let ghost o1 = out@;
            let e = self.record(
                EventKind::ActiveWindowChanged,
                clock,
                &window,
                None,
                EventPayload::WindowChanged { app_icon_path: icon_path },
            );
            out.push(e);
            assert(o1.len() > 0 ==> out@[0] == o1[0]);
        } else if update.rect_now {
            let e = self.record(
                EventKind::WindowRectChanged,
                clock,
                &window,
                None,
                EventPayload::Empty,
            );
            out.push(e);
        }
        self.last_window = window;
        out
    }

    /// The rectangle debounce check: the pending rectangle change, once due
    /// and only for the window still in the foreground, with that window's
    /// final rectangle and description. While paused, nothing is emitted.
    pub fn flush_window_rect(&mut self, clock: Clock) -> (r: Vec<EventRecord>)
        requires
            old(self).wf(),
        ensures
            final(self).wf(),
            final(self).paused == old(self).paused,
            final(self).session_id == old(self).session_id,
            final(self).text == old(self).text,
            old(self).paused ==> r@.len() == 0 && *final(self) == *old(self),
            !old(self).paused ==> ({
                let step = check_step(
                    old(self).windows,
                    clock.mono_ms,
                    old(self).settings.window_rect_debounce_ms as int,
                );
                &&& final(self).windows == step.0
                &&& step.1 is Some ==> r@.len() == 1 && r@[0].kind
                    == EventKind::WindowRectChanged && has_window(r@[0], step.1)
                &&& step.1 is None ==> r@.len() == 0
            }),
            from_session(r@, old(self).session_id),
    {
        let mut out: Vec<EventRecord> = Vec::new();
        if self.paused {
            return out;
        }
        if let Some(info) = self.windows.flush_pending(
            clock.mono_ms,
            self.settings.window_rect_debounce_ms,
        ) {
            let window = Some(info);
            let e = self.record(
                EventKind::WindowRectChanged,
                clock,
                &window,
                None,
                EventPayload::Empty,
            );
            out.push(e);
        }
        out
    }

    /// A settled clipboard change with its content, read while `window` was
    /// in the foreground. Nothing is emitted for a process the privacy gate
    /// excludes, for content whose hash repeats the last emission within the
    /// dedupe window, or while paused; otherwise exactly one event, carrying
    /// the content (text truncated to the length limit) and the window.
    pub fn on_clipboard(
        &mut self,
        content: ClipboardContent,
        window: Option<WindowInfo>,
        clock: Clock,
    ) -> (r: Vec<EventRecord>)
        requires
            old(self).wf(),
        ensures
            final(self).wf(),
            final(self).paused == old(self).paused,
            final(self).session_id == old(self).session_id,
            final(self).settings == old(self).settings,
            final(self).clipboard.window_ms == old(self).clipboard.window_ms,
            final(self).text == old(self).text,
            old(self).paused ==> r@.len() == 0 && *final(self) == *old(self),
            r@.len() <= 1,
            !old(self).paused && !old(self).settings.privacy.permits_process(
                match window {
                    Some(w) => opt_view(w.process_name),
                    None => None,
                },
            ) ==> r@.len() == 0 && final(self).clipboard == old(self).clipboard,
            r@.len() == 1 ==> r@[0].kind == content_key(content).0 && has_window(r@[0], window),
            r@.len() == 1 ==> match content {
                ClipboardContent::Image { path, width, height, .. } => r@[0].payload
                    == EventPayload::ClipboardImage { path, width, height },
                ClipboardContent::Files(files) => r@[0].payload == EventPayload::ClipboardFiles {
                    files,
                },
                ClipboardContent::Text(t) => r@[0].payload matches EventPayload::ClipboardText {
                    text: tr,
                } && tr.length == t@.len() && tr.truncated == (t@.len()
                    > old(self).settings.max_text_len) && tr.text@ == (if t@.len()
                    <= old(self).settings.max_text_len {
                    t@
                } else {
                    t@.subrange(0, old(self).settings.max_text_len as int)
                }),
            },
            !old(self).paused && old(self).settings.privacy.permits_process(
                match window {
                    Some(w) => opt_view(w.process_name),
                    None => None,
                },
            ) ==> ({
                let step = dedupe_step(
                    old(self).clipboard.last,
                    content_key(content).1,
                    clock.mono_ms,
                    old(self).clipboard.window_ms as int,
                );
                &&& final(self).clipboard.last == step.0
                &&& (r@.len() == 0) == step.1
            }),
            from_session(r@, old(self).session_id),
    {
        let mut out: Vec<EventRecord> = Vec::new();
        if self.paused {
            return out;
        }
        let permitted = match &window {
            Some(w) => match &w.process_name {
                Some(p) => self.settings.privacy.should_capture_clipboard(Some(p.as_str())),
                None => self.settings.privacy.should_capture_clipboard(None),
            },
            None => self.settings.privacy.should_capture_clipboard(None),
        };
        if !permitted {
            return out;
        }
        match content {
            ClipboardContent::Image { path, width, height, hash } => {
                if self.clipboard.should_skip_clipboard_hash(hash, clock.mono_ms) {
                    return out;
                }
                let e = self.record(
                    EventKind::ClipboardImage,
                    clock,
                    &window,
                    None,
                    EventPayload::ClipboardImage { path, width, height },
                );
                out.push(e);
            },
            ClipboardContent::Files(files) => {
                let key = join_lines(&files);
                let hash = hash_text(key.as_str());
                if self.clipboard.should_skip_clipboard_hash(hash, clock.mono_ms) {
                    return out;
                }
                let e = self.record(
                    EventKind::ClipboardFiles,
                    clock,
                    &window,
                    None,
                    EventPayload::ClipboardFiles { files },
                );
                out.push(e);
            },
            ClipboardContent::Text(text) => {
                let hash = hash_text(text.as_str());
                if self.clipboard.should_skip_clipboard_hash(hash, clock.mono_ms) {
                    return out;
                }
                let truncated = truncate_text(text, self.settings.max_text_len);
                let e = self.record(
                    EventKind::ClipboardText,
                    clock,
                    &window,
                    None,
                    EventPayload::ClipboardText { text: truncated },
                );
                out.push(e);
            },
        }
        out
    }

    /// The periodic idle check: flushes text that has gone stale. While
    /// paused, nothing is emitted.
    pub fn on_idle_check(
        &mut self,
        window: &Option<WindowInfo>,
        final_text: Option<String>,
        clock: Clock,
    ) -> (r: Vec<EventRecord>)
        requires
            old(self).wf(),
        ensures
            final(self).wf(),
            final(self).paused == old(self).paused,
            final(self).session_id == old(self).session_id,
            old(self).paused ==> r@.len() == 0 && *final(self) == *old(self),
            !old(self).paused ==> flush_events(
                r@,
                if old(self).text@.stale(
                    clock.mono_ms as int,
                    old(self).settings.text_flush_ms as int,
                ) {
                    Some((old(self).text@.text, FlushReason::IdleTimeout))
                } else {
                    None
                },
            ),
            forall|i: int| 0 <= i < r@.len() ==> has_window(#[trigger] r@[i], *window),
            from_session(r@, old(self).session_id),
    {
        let mut out: Vec<EventRecord> = Vec::new();
        if self.paused {
            return out;
        }
        let flushed = self.text.flush_if_stale(
            clock.mono_ms,
            self.settings.text_flush_ms,
            FlushReason::IdleTimeout,
        );
        self.push_flush(&mut out, flushed, window, final_text, clock);
        out
    }

    /// A periodic snapshot of the cursor position and the foreground window.
    /// While paused, nothing is emitted.
    pub fn snapshot(&self, x: i32, y: i32, window: &Option<WindowInfo>, clock: Clock) -> (r: Vec<
        EventRecord,
    >)
        ensures
            self.paused ==> r@.len() == 0,
            !self.paused ==> kinds(r@) == seq![EventKind::Snapshot],
            !self.paused ==> r@[0].mouse == Some(MouseInfo { x, y, button: None, delta: None })
                && has_window(r@[0], *window) && r@[0].ts_mono_ms == clock.mono_ms,
            from_session(r@, self.session_id),
    {
        let mut out: Vec<EventRecord> = Vec::new();
        if self.paused {
            return out;
        }
        let e = self.record(
            EventKind::Snapshot,
            clock,
            window,
            Some(MouseInfo { x, y, button: None, delta: None }),
            EventPayload::Empty,
        );
        out.push(e);
        assert(kinds(out@) =~= seq![EventKind::Snapshot]);
        out
    }

    /// The pause signal appeared or went away. Pausing flushes pending text,
    /// leaving the buffer empty, and emits a pause marker; resuming emits a
    /// resume marker. Either way the producers' state is kept, so emission
    /// resumes as it was.
    pub fn set_paused(&mut self, paused: bool, window: &Option<WindowInfo>, clock: Clock) -> (r:
        Vec<EventRecord>)
        requires
            old(self).wf(),
        ensures
            final(self).wf(),
            final(self).paused == paused,
            final(self).session_id == old(self).session_id,
            paused == old(self).paused ==> r@.len() == 0 && *final(self) == *old(self),
            paused && !old(self).paused ==> {
                let f = flush_of(old(self).text@, FlushReason::Pause);
                &&& r@.len() == opt_count(f) + 1
                &&& flush_at(r@, 0, f)
                &&& r@[opt_count(f)].kind == EventKind::SessionPause
                &&& final(self).text@.text.len() == 0
            },
            paused && !old(self).paused && old(self).text@.text.len() == 0 ==> kinds(r@) == seq![
                EventKind::SessionPause,
            ],
            !paused && old(self).paused ==> kinds(r@) == seq![EventKind::SessionResume]
                && final(self).text == old(self).text,
            final(self).scroll == old(self).scroll,
            final(self).windows == old(self).windows,
            final(self).pressed == old(self).pressed,
            final(self).pointer == old(self).pointer,
            final(self).settings == old(self).settings,
            final(self).clipboard == old(self).clipboard,
            from_session(r@, old(self).session_id),
    {
        let mut out: Vec<EventRecord> = Vec::new();
        if paused == self.paused {
            return out;
        }
        self.paused = paused;
        if paused {
            let flushed = self.text.flush(clock.mono_ms, FlushReason::Pause);
            self.push_flush(&mut out, flushed, window, None, clock);
            let ghost o1 = out@;
            out.push(self.session_event(EventKind::SessionPause, "pause_signal", clock));
            assert(o1.len() > 0 ==> out@[0] == o1[0]);
            assert(o1.len() == 0 ==> kinds(out@) =~= seq![EventKind::SessionPause]);
        } else {
            out.push(self.session_event(EventKind::SessionResume, "pause_signal", clock));
            assert(kinds(out@) =~= seq![EventKind::SessionResume]);
        }
        out
    }

    /// The stop signal: pending text is flushed before shutdown begins.
    pub fn stop_signal(&mut self, window: &Option<WindowInfo>, clock: Clock) -> (r: Vec<
        EventRecord,
    >)
        requires
            old(self).wf(),
        ensures
            final(self).wf(),
            final(self).session_id == old(self).session_id,
            final(self).text@.text.len() == 0,
            flush_events(r@, flush_of(old(self).text@, FlushReason::StopSignal)),
            from_session(r@, old(self).session_id),
    {
        self.flush_text(FlushReason::StopSignal, window, None, clock)
    }

    /// The end of the session: any text still pending, then any scroll
    /// aggregate still open, then the stop marker.
    pub fn finish(&mut self, window: &Option<WindowInfo>, clock: Clock) -> (r: Vec<EventRecord>)
        requires
            old(self).wf(),
        ensures
            final(self).wf(),
            final(self).session_id == old(self).session_id,
            final(self).text@.text.len() == 0,
            final(self).scroll.current is None,
            ({
                let f = flush_of(old(self).text@, FlushReason::SessionEnd);
                let n = opt_count(f) + if old(self).scroll.current is Some {
                    1int
                } else {
                    0
                };
                &&& r@.len() == n + 1
                &&& flush_at(r@, 0, f)
                &&& old(self).scroll.current matches Some(b) ==> is_scroll_event(
                    r@[opt_count(f)],
                    b,
                )
                &&& r@[n].kind == EventKind::SessionStop
            }),
            from_session(r@, old(self).session_id),
    {
        let mut out = self.flush_text(FlushReason::SessionEnd, window, None, clock);
        let ghost o1 = out@;
        if let Some(b) = self.scroll.take() {
            out.push(self.scroll_event(b, clock));
        }
        let ghost o2 = out@;
        out.push(self.session_event(EventKind::SessionStop, "manual_stop", clock));
        assert(o1.len() > 0 ==> out@[0] == o1[0]);
        assert(o2.len() > o1.len() ==> out@[o1.len() as int] == o2[o1.len() as int]);
        out
    }
}

/// The entries joined by newlines.
pub open spec fn lines_joined(items: Seq<String>) -> Seq<char>
    decreases items.len(),
{
    if items.len() == 0 {
        Seq::empty()
    } else if items.len() == 1 {
        items[0]@
    } else {
        lines_joined(items.drop_last()) + seq!['\n'] + items.last()@
    }
}

fn join_lines(items: &Vec<String>) -> (r: String)
    ensures
        r@ == lines_joined(items@),
{
    let mut out = String::new();
    let mut i: usize = 0;
    while i < items.len()
        invariant
            i <= items@.len(),
            out@ == lines_joined(items@.subrange(0, i as int)),
        decreases items@.len() - i,
    {
        let ghost next = items@.subrange(0, i + 1);
        assert(next.drop_last() =~= items@.subrange(0, i as int));
        if i > 0 {
            push_char(&mut out, '\n');
        }
        out.append(items[i].as_str());
        i = i + 1;
    }
    assert(items@.subrange(0, items@.len() as int) =~= items@);
    out
}

} // verus!
