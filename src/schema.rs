//! The storage schema of the event log. Every statement is idempotent, so
//! opening an existing store again neither duplicates tables or indexes nor
//! touches the rows already recorded.
use vstd::prelude::*;

verus! {

/// The statements that open the event log: write-ahead journaling, the
/// session and event tables, and the event indexes.
pub const EVENT_LOG_SCHEMA: &'static str = "
PRAGMA journal_mode = WAL;
PRAGMA synchronous = NORMAL;
CREATE TABLE IF NOT EXISTS sessions (
    id INTEGER PRIMARY KEY AUTOINCREMENT,
    session_id TEXT UNIQUE,
    start_wall_ms INTEGER,
    start_wall_iso TEXT,
    obs_video_path TEXT
);
CREATE TABLE IF NOT EXISTS events (
    id INTEGER PRIMARY KEY AUTOINCREMENT,
    session_id TEXT,
    ts_wall_ms INTEGER,
    ts_mono_ms INTEGER,
    event_type TEXT,
    process_name TEXT,
    window_title TEXT,
    window_class TEXT,
    window_rect TEXT,
    mouse TEXT,
    payload TEXT,
    FOREIGN KEY(session_id) REFERENCES sessions(session_id)
);
CREATE INDEX IF NOT EXISTS idx_events_session_time ON events(session_id, ts_mono_ms);
CREATE INDEX IF NOT EXISTS idx_events_session_type ON events(session_id, event_type);
";

} // verus!
