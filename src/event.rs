//! The event record and the values denormalised onto it.
use vstd::prelude::*;
use crate::clipboard::TruncateResult;
use crate::text_buffer::FlushReason;
use crate::strings::copy_opt_text;

verus! {

/// A window's screen rectangle.
#[derive(Clone, Copy, Debug, PartialEq, Eq, Structural)]
pub struct RectInfo {
    pub left: i32,
    pub top: i32,
    pub right: i32,
    pub bottom: i32,
    pub width: i32,
    pub height: i32,
}

/// Whether two optional rectangles are the same.
pub fn same_rect(a: &Option<RectInfo>, b: &Option<RectInfo>) -> (r: bool)
    ensures
        r == (*a == *b),
{
    match (a, b) {
        (Some(x), Some(y)) => *x == *y,
        (None, None) => true,
        _ => false,
    }
}

/// Pointer state carried by pointer events.
#[derive(Clone, Debug)]
pub struct MouseInfo {
    pub x: i32,
    pub y: i32,
    pub button: Option<String>,
    pub delta: Option<i64>,
}

/// What is known of a window: title, class, rectangle, owning process image.
#[derive(Clone, Debug)]
pub struct WindowInfo {
    pub title: String,
    pub class_name: String,
    pub rect: Option<RectInfo>,
    pub process_name: Option<String>,
}

impl WindowInfo {
    /// A copy of this description.
    pub fn copy(&self) -> (r: WindowInfo)
        ensures
            r == *self,
    {
        WindowInfo {
            title: self.title.clone(),
            class_name: self.class_name.clone(),
            rect: self.rect,
            process_name: copy_opt_text(&self.process_name),
        }
    }
}

/// A copy of an optional window description.
pub fn copy_window(w: &Option<WindowInfo>) -> (r: Option<WindowInfo>)
    ensures
        r == *w,
{
    match w {
        Some(info) => Some(info.copy()),
        None => None,
    }
}

/// The fixed vocabulary of event types.
#[derive(Clone, Copy, Debug, PartialEq, Eq, Structural)]
pub enum EventKind {
    KeyDown,
    KeyUp,
    KeyShortcut,
    TextInput,
    MouseMove,
    MouseClick,
    MouseScroll,
    ActiveWindowChanged,
    WindowRectChanged,
    ClipboardText,
    ClipboardImage,
    ClipboardFiles,
    Snapshot,
    SessionStart,
    SessionStop,
    SessionPause,
    SessionResume,
    Marker,
}

impl EventKind {
    /// The tag as text.
    pub open spec fn tag(self) -> Seq<char> {
        match self {
            EventKind::KeyDown => "key_down"@,
            EventKind::KeyUp => "key_up"@,
            EventKind::KeyShortcut => "key_shortcut"@,
            EventKind::TextInput => "text_input"@,
            EventKind::MouseMove => "mouse_move"@,
            EventKind::MouseClick => "mouse_click"@,
            EventKind::MouseScroll => "mouse_scroll"@,
            EventKind::ActiveWindowChanged => "active_window_changed"@,
            EventKind::WindowRectChanged => "window_rect_changed"@,
            EventKind::ClipboardText => "clipboard_text"@,
            EventKind::ClipboardImage => "clipboard_image"@,
            EventKind::ClipboardFiles => "clipboard_files"@,
            EventKind::Snapshot => "snapshot"@,
            EventKind::SessionStart => "session_start"@,
            EventKind::SessionStop => "session_stop"@,
            EventKind::SessionPause => "session_pause"@,
            EventKind::SessionResume => "session_resume"@,
            EventKind::Marker => "marker"@,
        }
    }

    /// The type tag stored with the event.
    pub fn as_str(&self) -> (r: &'static str)
        ensures
            r@ == self.tag(),
    {
        match self {
            EventKind::KeyDown => "key_down",
            EventKind::KeyUp => "key_up",
            EventKind::KeyShortcut => "key_shortcut",
            EventKind::TextInput => "text_input",
            EventKind::MouseMove => "mouse_move",
            EventKind::MouseClick => "mouse_click",
            EventKind::MouseScroll => "mouse_scroll",
            EventKind::ActiveWindowChanged => "active_window_changed",
            EventKind::WindowRectChanged => "window_rect_changed",
            EventKind::ClipboardText => "clipboard_text",
            EventKind::ClipboardImage => "clipboard_image",
            EventKind::ClipboardFiles => "clipboard_files",
            EventKind::Snapshot => "snapshot",
            EventKind::SessionStart => "session_start",
            EventKind::SessionStop => "session_stop",
            EventKind::SessionPause => "session_pause",
            EventKind::SessionResume => "session_resume",
            EventKind::Marker => "marker",
        }
    }
}

/// The type-specific detail of an event.
#[derive(Clone, Debug)]
pub enum EventPayload {
    Empty,
    Note { note: String },
    Key { key: String, vk: u32, repeat: bool, injected: bool, scan_code: u32 },
    Shortcut {
        key: String,
        modifiers: Vec<String>,
        repeat: bool,
        injected: bool,
        scan_code: u32,
    },
    Text { text: String, reason: FlushReason, final_text: Option<TruncateResult> },
    Scroll { ticks: u32, total_delta: i64 },
    WindowChanged { app_icon_path: Option<String> },
    ClipboardImage { path: String, width: i32, height: u32 },
    ClipboardFiles { files: Vec<String> },
    ClipboardText { text: TruncateResult },
    Marker { hotkey: String },
}

/// Whether an event carries the context of `window`: its process, title,
/// class and rectangle, or none of them.
pub open spec fn has_window(e: EventRecord, window: Option<WindowInfo>) -> bool {
    match window {
        Some(w) => e.process_name == w.process_name && e.window_title == Some(w.title)
            && e.window_class == Some(w.class_name) && e.window_rect == w.rect,
        None => e.process_name is None && e.window_title is None && e.window_class is None
            && e.window_rect is None,
    }
}

/// One observed occurrence, with its window context denormalised onto it.
#[derive(Clone, Debug)]
pub struct EventRecord {
    pub session_id: String,
    pub ts_wall_ms: i64,
    pub ts_mono_ms: i64,
    pub kind: EventKind,
    pub process_name: Option<String>,
    pub window_title: Option<String>,
    pub window_class: Option<String>,
    pub window_rect: Option<RectInfo>,
    pub mouse: Option<MouseInfo>,
    pub payload: EventPayload,
}

} // verus!
