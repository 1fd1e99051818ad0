//! Recording of host events into an embedded relational store: configuration,
//! decoding of event payloads, the stored schema, and the decisions of the
//! supervisor and of its worker.
mod config;
mod event;
mod pipeline;
mod store;
mod timestamp;

pub use config::{
    ini_has_section, ini_parses, ini_value_at, parse_yesno, settle, text_of, Config, ConfigError,
};
pub use timestamp::{in_range, lemma_micros_round_trip, parts_of, Timestamp, MAX_UTC_SECS};
pub use event::{decode, decode_fields, decoded_fields, json_parses, json_text_at, json_u64_at, lemma_decoded_timestamp_round_trip, outcome_is, DecodeError, Event, RawEvent};
pub use store::{insert_outcome, open_outcome, schema_outcome, StoreError, INSERT_EVENT, SCHEMA};
pub use pipeline::{
    inserted, lemma_disabled_records_nothing, lemma_queue_order, lemma_store_failure_isolated,
    next_phase, phase_after, queue_inputs, status_of, successes, worker_run, worker_step, Lifecycle,
    Phase, Supervisor, Worker, WorkerAction, WorkerInput, WorkerPhase,
};
