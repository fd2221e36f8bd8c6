use timestone::text_buffer::{FlushReason, TextBuffer, TextKey};

fn chars(s: &str) -> TextKey {
    TextKey::Chars(s.to_string())
}

#[test]
fn typed_keys_compose_with_backspace() {
    let mut buf = TextBuffer::new();
    for (i, key) in [chars("h"), chars("e"), chars("y"), TextKey::Backspace, chars("l"), chars("p")]
        .into_iter()
        .enumerate()
    {
        let out = buf.handle_key(key, 100 + i as i64 * 10, 1500, 2000);
        assert!(out.stale.is_none());
        assert!(out.flushed.is_none());
    }
    assert_eq!(buf.text, "help");
    let flushed = buf.flush(500, FlushReason::Marker).unwrap();
    assert_eq!(flushed.text, "help");
    assert_eq!(flushed.reason, FlushReason::Marker);
    assert!(buf.is_empty());
}

#[test]
fn scenario_type_backspace_then_idle_flush() {
    let mut buf = TextBuffer::new();
    buf.handle_key(chars("a"), 1000, 1500, 2000);
    buf.handle_key(chars("b"), 1100, 1500, 2000);
    buf.handle_key(TextKey::Backspace, 1200, 1500, 2000);
    buf.handle_key(chars("c"), 1300, 1500, 2000);
    assert!(buf.flush_if_stale(2000, 1500, FlushReason::IdleTimeout).is_none());
    let flushed = buf.flush_if_stale(2800, 1500, FlushReason::IdleTimeout).unwrap();
    assert_eq!(flushed.text, "ac");
    assert_eq!(flushed.reason.as_str(), "idle_timeout");
    assert!(buf.flush_if_stale(9000, 1500, FlushReason::IdleTimeout).is_none());
}

#[test]
fn enter_and_tab_flush_immediately() {
    let mut buf = TextBuffer::new();
    buf.handle_key(chars("x"), 10, 1500, 2000);
    let out = buf.handle_key(TextKey::Enter, 20, 1500, 2000);
    let f = out.flushed.unwrap();
    assert_eq!(f.text, "x");
    assert_eq!(f.reason, FlushReason::Enter);
    buf.handle_key(chars("y"), 30, 1500, 2000);
    let out = buf.handle_key(TextKey::Tab, 40, 1500, 2000);
    assert_eq!(out.flushed.unwrap().reason.as_str(), "tab");
    let out = buf.handle_key(TextKey::Enter, 50, 1500, 2000);
    assert!(out.flushed.is_none());
}

#[test]
fn stale_text_is_flushed_before_the_next_key() {
    let mut buf = TextBuffer::new();
    buf.handle_key(chars("old"), 0, 1500, 2000);
    let out = buf.handle_key(chars("new"), 1500, 1500, 2000);
    assert_eq!(out.stale.unwrap(), "old");
    assert_eq!(buf.text, "new");
}

#[test]
fn max_length_flushes() {
    let mut buf = TextBuffer::new();
    buf.handle_key(chars("abc"), 0, 1500, 4);
    let out = buf.handle_key(chars("d"), 1, 1500, 4);
    let f = out.flushed.unwrap();
    assert_eq!(f.text, "abcd");
    assert_eq!(f.reason, FlushReason::MaxLen);
    assert!(buf.is_empty());
}

#[test]
fn backspace_on_empty_buffer_and_dead_keys() {
    let mut buf = TextBuffer::new();
    let out = buf.handle_key(TextKey::Backspace, 5, 1500, 2000);
    assert!(out.stale.is_none() && out.flushed.is_none());
    buf.handle_key(chars(""), 6, 1500, 2000);
    assert!(buf.is_empty());
    buf.handle_key(chars("é"), 7, 1500, 2000);
    buf.handle_key(TextKey::Backspace, 8, 1500, 2000);
    assert!(buf.is_empty());
}

#[test]
fn max_length_counts_utf8_bytes() {
    let mut buf = TextBuffer::new();
    let out = buf.handle_key(chars("é"), 1, 1500, 2);
    let f = out.flushed.unwrap();
    assert_eq!(f.text, "é");
    assert_eq!(f.reason.as_str(), "max_len");
    assert!(buf.is_empty());
    let out = buf.handle_key(chars("a"), 2, 1500, 2);
    assert!(out.flushed.is_none());
    assert_eq!(buf.text, "a");
}
