use rusqlite::{Connection, OpenFlags};
use timestone::schema::EVENT_LOG_SCHEMA;

fn count(conn: &Connection, sql: &str) -> i64 {
    conn.query_row(sql, [], |row| row.get(0)).unwrap()
}

fn open_shared() -> Connection {
    Connection::open_with_flags(
        "file:timestone_schema_test?mode=memory&cache=shared",
        OpenFlags::SQLITE_OPEN_READ_WRITE | OpenFlags::SQLITE_OPEN_CREATE | OpenFlags::SQLITE_OPEN_URI,
    )
    .unwrap()
}

#[test]
fn reopening_the_schema_keeps_tables_and_rows() {
    let first = open_shared();
    first.execute_batch(EVENT_LOG_SCHEMA).unwrap();
    first
        .execute(
            "INSERT INTO sessions (session_id, start_wall_ms, start_wall_iso) VALUES ('s1', 1, 'x')",
            [],
        )
        .unwrap();
    first
        .execute("INSERT INTO events (session_id, ts_mono_ms, event_type) VALUES ('s1', 5, 'marker')", [])
        .unwrap();
    for _ in 0..2 {
        let conn = open_shared();
        conn.execute_batch(EVENT_LOG_SCHEMA).unwrap();
        assert_eq!(
            count(&conn, "SELECT COUNT(*) FROM sqlite_master WHERE type = 'table' AND name IN ('sessions', 'events')"),
            2
        );
        assert_eq!(
            count(&conn, "SELECT COUNT(*) FROM sqlite_master WHERE type = 'index' AND name LIKE 'idx_events_%'"),
            2
        );
        assert_eq!(count(&conn, "SELECT COUNT(*) FROM sessions"), 1);
        assert_eq!(count(&conn, "SELECT COUNT(*) FROM events"), 1);
    }
}
