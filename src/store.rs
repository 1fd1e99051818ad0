//! The persisted layout of recorded events, and how the store's answers are
//! judged.
use vstd::prelude::*;

verus! {

#[verifier::external_type_specification]
#[verifier::external_body]
pub struct ExSqlError(rusqlite::Error);

/// Creates the events table and its index on time and category, each only
/// where it is absent, so that running it again changes nothing.
pub const SCHEMA: &'static str = "
create table if not exists events (id integer primary key, ts datetime, kind integer, data text);
create index if not exists events_ts on events (ts asc, kind);
";

/// Appends one event: its timestamp, category and data text.
pub const INSERT_EVENT: &'static str = "insert into events (ts, kind, data) values (:ts, :kind, :data)";

/// Why the store did not do what was asked of it.
#[derive(Debug, Clone, Copy, PartialEq, Eq, Structural)]
pub enum StoreError {
    /// The store could not be opened.
    OpenFailure,
    /// The schema could not be established.
    SchemaFailure,
    /// An event was not written as exactly one row.
    InsertFailure,
}

/// Judges the store's answer to opening it.
pub fn open_outcome<T>(r: Result<T, rusqlite::Error>) -> (o: Result<T, StoreError>)
    ensures
        r is Ok <==> o is Ok,
        r matches Ok(v) ==> o == Ok::<T, StoreError>(v),
        r is Err ==> o == Err::<T, StoreError>(StoreError::OpenFailure),
{
    match r {
        Ok(v) => Ok(v),
        Err(_) => Err(StoreError::OpenFailure),
    }
}

/// Judges the store's answer to establishing the schema.
pub fn schema_outcome(r: Result<(), rusqlite::Error>) -> (o: Result<(), StoreError>)
    ensures
        r is Ok <==> o is Ok,
        r is Err ==> o == Err::<(), StoreError>(StoreError::SchemaFailure),
{
    match r {
        Ok(()) => Ok(()),
        Err(_) => Err(StoreError::SchemaFailure),
    }
}

/// Judges the store's answer to one insertion: success only where exactly one
/// row was written.
pub fn insert_outcome(r: Result<usize, rusqlite::Error>) -> (o: Result<(), StoreError>)
    ensures
        o is Ok <==> (r matches Ok(n) && n == 1),
        o is Err ==> o == Err::<(), StoreError>(StoreError::InsertFailure),
{
    match r {
        Ok(n) => if n == 1 {
            Ok(())
        } else {
            Err(StoreError::InsertFailure)
        },
        Err(_) => Err(StoreError::InsertFailure),
    }
}

} // verus!
