use janus_sqlite_events::{decode, insert_outcome, open_outcome, schema_outcome, Event, RawEvent, StoreError, INSERT_EVENT, SCHEMA};
use rusqlite::Connection;

fn insert(conn: &Connection, e: &Event) -> Result<(), StoreError> {
    let ts = chrono::DateTime::from_timestamp(e.timestamp.secs, e.timestamp.nanos).unwrap();
    let mut stmt = conn.prepare(INSERT_EVENT).unwrap();
    insert_outcome(stmt.execute((ts, e.kind, e.event.as_str())))
}

fn count(conn: &Connection) -> i64 {
    conn.query_row("select count(*) from events", (), |r| r.get(0)).unwrap()
}

#[test]
fn schema_twice_keeps_rows() {
    let conn = Connection::open_in_memory().unwrap();
    assert_eq!(schema_outcome(conn.execute_batch(SCHEMA)), Ok(()));
    let e = decode(RawEvent { json: Some(r#"{"type": 1, "timestamp": 5, "event": 1}"#.to_string()) }).unwrap();
    assert_eq!(insert(&conn, &e), Ok(()));
    assert_eq!(schema_outcome(conn.execute_batch(SCHEMA)), Ok(()));
    assert_eq!(count(&conn), 1);
    let n: i64 = conn
        .query_row("select count(*) from sqlite_master where name = 'events_ts'", (), |r| r.get(0))
        .unwrap();
    assert_eq!(n, 1);
}

#[test]
fn sample_event_is_one_row() {
    let conn = Connection::open_in_memory().unwrap();
    conn.execute_batch(SCHEMA).unwrap();
    let e = decode(RawEvent {
        json: Some(r#"{"type": 16, "timestamp": 1500000000000000, "event": {"foo": "bar"}}"#.to_string()),
    })
    .unwrap();
    assert_eq!(insert(&conn, &e), Ok(()));
    assert_eq!(count(&conn), 1);
    let (kind, data): (i64, String) =
        conn.query_row("select kind, data from events", (), |r| Ok((r.get(0)?, r.get(1)?))).unwrap();
    assert_eq!(kind, 16);
    assert_eq!(data, r#"{"foo":"bar"}"#);
}

#[test]
fn store_answers_are_judged() {
    assert_eq!(insert_outcome(Ok(1)), Ok(()));
    assert_eq!(insert_outcome(Ok(0)), Err(StoreError::InsertFailure));
    assert_eq!(insert_outcome(Ok(2)), Err(StoreError::InsertFailure));
    assert_eq!(insert_outcome(Err(rusqlite::Error::QueryReturnedNoRows)), Err(StoreError::InsertFailure));
    assert_eq!(schema_outcome(Err(rusqlite::Error::QueryReturnedNoRows)), Err(StoreError::SchemaFailure));
    assert_eq!(open_outcome::<u8>(Err(rusqlite::Error::QueryReturnedNoRows)), Err(StoreError::OpenFailure));
    assert_eq!(open_outcome::<u8>(Ok(3)), Ok(3));
}

#[test]
fn schema_failure_on_read_only_misuse() {
    let conn = Connection::open_in_memory().unwrap();
    assert_eq!(schema_outcome(conn.execute_batch("create tabel oops")), Err(StoreError::SchemaFailure));
}
