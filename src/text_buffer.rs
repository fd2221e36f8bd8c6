//! The text composition buffer: keystrokes accumulate into a span of text
//! that is flushed as one event on idle timeout, Enter, Tab, maximum length,
//! window change, unsafe target, marker hotkey, pause or stop.
use vstd::prelude::*;
use crate::strings::{
    lemma_utf8_len_bounds, lemma_utf8_len_concat, pop_char, utf8_byte_len, utf8_len,
};

verus! {

/// Why a span of composed text was flushed.
#[derive(Clone, Copy, Debug, PartialEq, Eq, Structural)]
pub enum FlushReason {
    Timeout,
    IdleTimeout,
    Enter,
    Tab,
    MaxLen,
    WindowChange,
    UnsafeTarget,
    Marker,
    Pause,
    StopSignal,
    SessionEnd,
}

impl FlushReason {
    /// The tag as text.
    pub open spec fn tag(self) -> Seq<char> {
        match self {
            FlushReason::Timeout => "timeout"@,
            FlushReason::IdleTimeout => "idle_timeout"@,
            FlushReason::Enter => "enter"@,
            FlushReason::Tab => "tab"@,
            FlushReason::MaxLen => "max_len"@,
            FlushReason::WindowChange => "window_change"@,
            FlushReason::UnsafeTarget => "unsafe_target"@,
            FlushReason::Marker => "marker"@,
            FlushReason::Pause => "pause"@,
            FlushReason::StopSignal => "stop_signal"@,
            FlushReason::SessionEnd => "session_end"@,
        }
    }

    /// The tag stored in the event payload.
    pub fn as_str(&self) -> (r: &'static str)
        ensures
            r@ == self.tag(),
    {
        match self {
            FlushReason::Timeout => "timeout",
            FlushReason::IdleTimeout => "idle_timeout",
            FlushReason::Enter => "enter",
            FlushReason::Tab => "tab",
            FlushReason::MaxLen => "max_len",
            FlushReason::WindowChange => "window_change",
            FlushReason::UnsafeTarget => "unsafe_target",
            FlushReason::Marker => "marker",
            FlushReason::Pause => "pause",
            FlushReason::StopSignal => "stop_signal",
            FlushReason::SessionEnd => "session_end",
        }
    }

    /// Whether the flush came from inactivity, the case in which the focused
    /// control's full value may be captured alongside the typed text.
    pub fn is_timeout(&self) -> (r: bool)
        ensures
            r == (*self == FlushReason::Timeout || *self == FlushReason::IdleTimeout),
    {
        match self {
            FlushReason::Timeout | FlushReason::IdleTimeout => true,
            _ => false,
        }
    }
}

/// A key as the text buffer sees it: Backspace, Enter, Tab, or the text the
/// keyboard layout produced for it (possibly empty, e.g. a dead key).
#[derive(Clone, Debug)]
pub enum TextKey {
    Backspace,
    Enter,
    Tab,
    Chars(String),
}

/// A flushed span of composed text.
#[derive(Clone, Debug)]
pub struct TextFlush {
    pub text: String,
    pub reason: FlushReason,
}

/// Mathematical model of the buffer: the pending characters and the
/// monotonic time of the last mutation.
pub struct TextState {
    pub text: Seq<char>,
    pub last_ts: int,
}

/// What one key did besides changing the buffer: a span flushed because the
/// buffer had gone idle before the key, and a span flushed by the key itself.
pub struct KeyEffect {
    pub stale: Option<Seq<char>>,
    pub flushed: Option<(Seq<char>, FlushReason)>,
}

pub open spec fn flush_view(f: Option<TextFlush>) -> Option<(Seq<char>, FlushReason)> {
    match f {
        Some(t) => Some((t.text@, t.reason)),
        None => None,
    }
}

pub open spec fn text_view(t: Option<String>) -> Option<Seq<char>> {
    match t {
        Some(s) => Some(s@),
        None => None,
    }
}

impl TextState {
    pub open spec fn empty(last_ts: int) -> TextState {
        TextState { text: Seq::empty(), last_ts }
    }

    /// The buffer holds text that has not changed for `flush_ms` or more.
    pub open spec fn stale(self, now: int, flush_ms: int) -> bool {
        self.text.len() > 0 && now - self.last_ts >= flush_ms
    }

    /// The state after flushing at `now`, and the span flushed.
    pub open spec fn take(self, now: int) -> (TextState, Option<Seq<char>>) {
        if self.text.len() == 0 {
            (self, None)
        } else {
            (TextState::empty(now), Some(self.text))
        }
    }

    /// One key at monotonic time `now`: first an idle flush if the buffer
    /// has gone stale, then the key's own effect.
    pub open spec fn key_step(self, key: TextKey, now: int, flush_ms: int, max_len: int) -> (
        TextState,
        KeyEffect,
    ) {
        let is_stale = self.stale(now, flush_ms);
        let stale = if is_stale {
            Some(self.text)
        } else {
            None
        };
        let s0 = if is_stale {
            TextState::empty(now)
        } else {
            self
        };
        match key {
            TextKey::Backspace => {
                if s0.text.len() > 0 {
                    (
                        TextState { text: s0.text.drop_last(), last_ts: now },
                        KeyEffect { stale, flushed: None },
                    )
                } else {
                    (s0, KeyEffect { stale, flushed: None })
                }
            },
            TextKey::Enter => (
                s0.take(now).0,
                KeyEffect {
                    stale,
                    flushed: if s0.text.len() > 0 {
                        Some((s0.text, FlushReason::Enter))
                    } else {
                        None
                    },
                },
            ),
            TextKey::Tab => (
                s0.take(now).0,
                KeyEffect {
                    stale,
                    flushed: if s0.text.len() > 0 {
                        Some((s0.text, FlushReason::Tab))
                    } else {
                        None
                    },
                },
            ),
            TextKey::Chars(t) => {
                if t@.len() == 0 {
                    (s0, KeyEffect { stale, flushed: None })
                } else {
                    let s1 = TextState { text: s0.text + t@, last_ts: now };
                    if utf8_len(s1.text) >= max_len {
                        (
                            TextState::empty(now),
                            KeyEffect { stale, flushed: Some((s1.text, FlushReason::MaxLen)) },
                        )
                    } else {
                        (s1, KeyEffect { stale, flushed: None })
                    }
                }
            },
        }
    }
}

/// The pending composed text and the monotonic time of its last change.
#[derive(Clone, Debug)]
pub struct TextBuffer {
    pub text: String,
    pub last_ts_ms: i64,
}

impl View for TextBuffer {
    type V = TextState;

    open spec fn view(&self) -> TextState {
        TextState { text: self.text@, last_ts: self.last_ts_ms as int }
    }
}

/// What a key did besides changing the buffer (see `KeyEffect`).
#[derive(Clone, Debug)]
pub struct KeyTextOutcome {
    pub stale: Option<String>,
    pub flushed: Option<TextFlush>,
}

impl KeyTextOutcome {
    pub open spec fn effect(&self) -> KeyEffect {
        KeyEffect { stale: text_view(self.stale), flushed: flush_view(self.flushed) }
    }
}

impl TextBuffer {
    /// An empty buffer.
    pub fn new() -> (r: TextBuffer)
        ensures
            r@ == TextState::empty(0),
    {
        TextBuffer { text: String::new(), last_ts_ms: 0 }
    }

    pub fn is_empty(&self) -> (r: bool)
        ensures
            r == (self@.text.len() == 0),
    {
        self.text.as_str().unicode_len() == 0
    }

    /// Whether the buffer holds text unchanged for at least `flush_ms`.
    pub fn is_stale(&self, now_ms: i64, flush_ms: i64) -> (r: bool)
        ensures
            r == self@.stale(now_ms as int, flush_ms as int),
    {
        !self.is_empty() && (now_ms as i128) - (self.last_ts_ms as i128) >= flush_ms as i128
    }

    /// Empties the buffer at `now_ms` and returns what it held, if anything.
    pub fn take(&mut self, now_ms: i64) -> (r: Option<String>)
        ensures
            (final(self)@, text_view(r)) == old(self)@.take(now_ms as int),
    {
        if self.is_empty() {
            return None;
        }
        let text = self.text.clone();
        self.text = String::new();
        self.last_ts_ms = now_ms;
        Some(text)
    }

    /// Flushes the buffer for `reason`: the span is returned, or `None`
    /// when the buffer was empty.
    pub fn flush(&mut self, now_ms: i64, reason: FlushReason) -> (r: Option<TextFlush>)
        ensures
            final(self)@ == old(self)@.take(now_ms as int).0,
            flush_view(r) == (if old(self)@.text.len() > 0 {
                Some((old(self)@.text, reason))
            } else {
                None
            }),
    {
        match self.take(now_ms) {
            Some(text) => Some(TextFlush { text, reason }),
            None => None,
        }
    }

    /// Flushes the buffer for `reason` only if it has gone stale.
    pub fn flush_if_stale(&mut self, now_ms: i64, flush_ms: i64, reason: FlushReason) -> (r:
        Option<TextFlush>)
        ensures
            old(self)@.stale(now_ms as int, flush_ms as int) ==> final(self)@ == old(self)@.take(
                now_ms as int,
            ).0 && flush_view(r) == Some((old(self)@.text, reason)),
            !old(self)@.stale(now_ms as int, flush_ms as int) ==> final(self)@ == old(self)@
                && r is None,
    {
        if self.is_stale(now_ms, flush_ms) {
            self.flush(now_ms, reason)
        } else {
            None
        }
    }

    /// Applies one key at monotonic time `now_ms`: an idle flush first if
    /// the buffer has gone stale, then Backspace removes the last character,
    /// Enter and Tab flush, and typed text is appended and flushed once the
    /// buffer's UTF-8 encoding takes `max_len` bytes or more.
    pub fn handle_key(&mut self, key: TextKey, now_ms: i64, flush_ms: i64, max_len: usize) -> (r:
        KeyTextOutcome)
        ensures
            (final(self)@, r.effect()) == old(self)@.key_step(
                key,
                now_ms as int,
                flush_ms as int,
                max_len as int,
            ),
    {
        let stale = if self.is_stale(now_ms, flush_ms) {
            self.take(now_ms)
        } else {
            None
        };
        match key {
            TextKey::Backspace => {
                let popped = pop_char(&mut self.text);
                if popped.is_some() {
                    self.last_ts_ms = now_ms;
                }
                KeyTextOutcome { stale, flushed: None }
            },
            TextKey::Enter => KeyTextOutcome { stale, flushed: self.flush(now_ms, FlushReason::Enter) },
            TextKey::Tab => KeyTextOutcome { stale, flushed: self.flush(now_ms, FlushReason::Tab) },
            TextKey::Chars(t) => {
                if t.as_str().unicode_len() == 0 {
                    return KeyTextOutcome { stale, flushed: None };
                }
                self.text.append(t.as_str());
                self.last_ts_ms = now_ms;
                if utf8_byte_len(self.text.as_str()) >= max_len as u128 {
                    KeyTextOutcome { stale, flushed: self.flush(now_ms, FlushReason::MaxLen) }
                } else {
                    KeyTextOutcome { stale, flushed: None }
                }
            },
        }
    }
}

/// The edit a key makes to composed text when no flush intervenes.
pub open spec fn apply_edit(text: Seq<char>, key: TextKey) -> Seq<char> {
    match key {
        TextKey::Backspace => if text.len() > 0 {
            text.drop_last()
        } else {
            text
        },
        TextKey::Chars(t) => text + t@,
        _ => text,
    }
}

/// The text that a sequence of keys composes: typed characters in order,
/// each Backspace removing the character before it.
pub open spec fn compose(keys: Seq<TextKey>) -> Seq<char>
    decreases keys.len(),
{
    if keys.len() == 0 {
        Seq::empty()
    } else {
        apply_edit(compose(keys.drop_last()), keys.last())
    }
}

/// The number of UTF-8 bytes typed by a sequence of keys.
pub open spec fn typed_bytes(keys: Seq<TextKey>) -> int
    decreases keys.len(),
{
    if keys.len() == 0 {
        0
    } else {
        typed_bytes(keys.drop_last()) + match keys.last() {
            TextKey::Chars(t) => utf8_len(t@),
            _ => 0,
        }
    }
}

/// Keys that edit the pending text without flushing it.
pub open spec fn is_edit_key(key: TextKey) -> bool {
    key is Backspace || key is Chars
}

/// The buffer after `keys[i]` is applied at `times[i]` in turn, and whether
/// every one of those keys left the buffer without flushing.
pub open spec fn run_keys(
    s: TextState,
    keys: Seq<TextKey>,
    times: Seq<int>,
    flush_ms: int,
    max_len: int,
) -> (TextState, bool)
    decreases keys.len(),
{
    if keys.len() == 0 {
        (s, true)
    } else {
        let prev = run_keys(s, keys.drop_last(), times.drop_last(), flush_ms, max_len);
        let step = prev.0.key_step(keys.last(), times[keys.len() - 1], flush_ms, max_len);
        (step.0, prev.1 && step.1.stale is None && step.1.flushed is None)
    }
}

proof fn lemma_run_edits(
    s: TextState,
    keys: Seq<TextKey>,
    times: Seq<int>,
    start: int,
    flush_ms: int,
    max_len: int,
)
    requires
        s.text.len() == 0,
        times.len() == keys.len(),
        forall|i: int| 0 <= i < keys.len() ==> is_edit_key(#[trigger] keys[i]),
        forall|i: int| 0 <= i < times.len() ==> start <= #[trigger] times[i] < start + flush_ms,
        typed_bytes(keys) < max_len,
    ensures
        run_keys(s, keys, times, flush_ms, max_len).0.text == compose(keys),
        run_keys(s, keys, times, flush_ms, max_len).1,
        utf8_len(run_keys(s, keys, times, flush_ms, max_len).0.text) <= typed_bytes(keys),
        run_keys(s, keys, times, flush_ms, max_len).0.text.len() > 0 ==> start <= run_keys(
            s,
            keys,
            times,
            flush_ms,
            max_len,
        ).0.last_ts,
    decreases keys.len(),
{
    if keys.len() > 0 {
        let pk = keys.drop_last();
        let pt = times.drop_last();
        assert forall|i: int| 0 <= i < pk.len() implies is_edit_key(#[trigger] pk[i]) by {
            assert(pk[i] == keys[i]);
        }
        assert forall|i: int| 0 <= i < pt.len() implies start <= #[trigger] pt[i] < start
            + flush_ms by {
            assert(pt[i] == times[i]);
        }
        match keys.last() {
            TextKey::Chars(t) => lemma_utf8_len_bounds(t@),
            _ => {},
        }
        assert(typed_bytes(pk) <= typed_bytes(keys));
        lemma_run_edits(s, pk, pt, start, flush_ms, max_len);
        assert(is_edit_key(keys[keys.len() - 1]));
        assert(start <= times[keys.len() - 1] < start + flush_ms);
        let prev = run_keys(s, pk, pt, flush_ms, max_len).0;
        match keys.last() {
            TextKey::Chars(t) => lemma_utf8_len_concat(prev.text, t@),
            _ => {},
        }
    }
}

/// Keystrokes without Enter, Tab or a window change, typed from an empty
/// buffer within the idle interval of its start and taking in total fewer
/// UTF-8 bytes than the length limit, never flush the buffer; the buffer then holds the typed
/// characters in order, each Backspace having removed the character before
/// it, and that is the text a flush emits.
pub proof fn lemma_keystrokes_compose(
    s: TextState,
    keys: Seq<TextKey>,
    times: Seq<int>,
    start: int,
    flush_ms: int,
    max_len: int,
    now: int,
)
    requires
        s.text.len() == 0,
        times.len() == keys.len(),
        forall|i: int| 0 <= i < keys.len() ==> is_edit_key(#[trigger] keys[i]),
        forall|i: int| 0 <= i < times.len() ==> start <= #[trigger] times[i] < start + flush_ms,
        typed_bytes(keys) < max_len,
    ensures
        run_keys(s, keys, times, flush_ms, max_len).1,
        run_keys(s, keys, times, flush_ms, max_len).0.text == compose(keys),
        run_keys(s, keys, times, flush_ms, max_len).0.take(now).1 == (if compose(keys).len()
            > 0 {
            Some(compose(keys))
        } else {
            None
        }),
{
    lemma_run_edits(s, keys, times, start, flush_ms, max_len);
}

} // verus!
