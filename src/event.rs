//! Decoding of the host's event payloads into typed events.
use crate::config::text_of;
use crate::timestamp::{in_range, lemma_micros_round_trip, parts_of, Timestamp};
use serde_json::Value;
use vstd::prelude::*;

verus! {

/// Whether a text is JSON.
pub uninterp spec fn json_parses(t: Seq<char>) -> bool;

/// The member `key` of the JSON object that a text holds, where it is a
/// number that fits in a `u64`.
pub uninterp spec fn json_u64_at(t: Seq<char>, key: Seq<char>) -> Option<u64>;

/// The compact JSON text of the member `key` of the JSON object that a text
/// holds.
pub uninterp spec fn json_text_at(t: Seq<char>, key: Seq<char>) -> Option<Seq<char>>;

/// Relies on `serde_json::from_str` into a `serde_json::Value`: whether it
/// parses the text.
#[verifier::external_body]
fn json_is_valid(text: &str) -> (r: bool)
    ensures
        r == json_parses(text@),
{
    serde_json::from_str::<Value>(text).is_ok()
}

/// Relies on `serde_json::from_str` into a `serde_json::Value`, then
/// `Value::get` for the member and `Value::as_u64` for its number.
#[verifier::external_body]
fn json_u64_member(text: &str, key: &str) -> (r: Option<u64>)
    ensures
        r == json_u64_at(text@, key@),
{
    match serde_json::from_str::<Value>(text) {
        Ok(v) => match v.get(key) {
            Some(m) => m.as_u64(),
            None => None,
        },
        Err(_) => None,
    }
}

/// Relies on `serde_json::from_str` into a `serde_json::Value`, then
/// `Value::get` for the member and `Value`'s `Display` for its compact text.
#[verifier::external_body]
fn json_text_member(text: &str, key: &str) -> (r: Option<String>)
    ensures
        text_of(r) == json_text_at(text@, key@),
{
    match serde_json::from_str::<Value>(text) {
        Ok(v) => match v.get(key) {
            Some(m) => Some(m.to_string()),
            None => None,
        },
        Err(_) => None,
    }
}

/// A single event as the host hands it over: its JSON text, if any.
#[derive(Debug, Clone)]
pub struct RawEvent {
    pub json: Option<String>,
}

/// Why an event could not be decoded.
#[derive(Debug, Clone, Copy, PartialEq, Eq, Structural)]
pub enum DecodeError {
    /// The event carries no payload.
    MissingPayload,
    /// The timestamp, in microseconds, is no instant that can be represented.
    InvalidTimestamp(u64),
    /// The payload is not JSON, or lacks a field of the event's shape.
    MalformedPayload,
}

/// A decoded event, ready to be stored.
#[derive(Debug, Clone)]
pub struct Event {
    /// The event's own data, as compact JSON text.
    pub event: String,
    /// The host's category of the event.
    pub kind: u32,
    /// When the event happened.
    pub timestamp: Timestamp,
}

/// What the fields of an event's payload decode to: its category (which must
/// fit in 32 bits), its timestamp in microseconds, and the text of its data.
pub open spec fn decoded_fields(
    kind: Option<u64>,
    micros: Option<u64>,
    event: Option<Seq<char>>,
) -> Result<(u32, Timestamp, Seq<char>), DecodeError> {
    if kind.is_none() || kind.unwrap() > u32::MAX || micros.is_none() || event.is_none() {
        Err(DecodeError::MalformedPayload)
    } else if !in_range(micros.unwrap()) {
        Err(DecodeError::InvalidTimestamp(micros.unwrap()))
    } else {
        Ok((kind.unwrap() as u32, parts_of(micros.unwrap()), event.unwrap()))
    }
}

impl Event {
    /// Whether this event is the given category, timestamp and data.
    pub open spec fn is(self, v: (u32, Timestamp, Seq<char>)) -> bool {
        self.kind == v.0 && self.timestamp == v.1 && self.event@ == v.2
    }
}

/// Whether a decoding result is the given one, comparing events by content.
pub open spec fn outcome_is(
    r: Result<Event, DecodeError>,
    v: Result<(u32, Timestamp, Seq<char>), DecodeError>,
) -> bool {
    match (r, v) {
        (Ok(e), Ok(f)) => e.is(f),
        (Err(e), Err(f)) => e == f,
        _ => false,
    }
}

/// Decodes the fields read from an event's payload.
pub fn decode_fields(kind: Option<u64>, micros: Option<u64>, event: Option<String>) -> (r: Result<
    Event,
    DecodeError,
>)
    ensures
        outcome_is(
            r,
            decoded_fields(kind, micros, text_of(event)),
        ),
{
    let kind = match kind {
        Some(k) => if k <= u32::MAX as u64 {
            k as u32
        } else {
            return Err(DecodeError::MalformedPayload);
        },
        None => return Err(DecodeError::MalformedPayload),
    };
    let micros = match micros {
        Some(m) => m,
        None => return Err(DecodeError::MalformedPayload),
    };
    let event = match event {
        Some(e) => e,
        None => return Err(DecodeError::MalformedPayload),
    };
    match Timestamp::from_micros(micros) {
        Ok(timestamp) => Ok(Event { event, kind, timestamp }),
        Err(m) => Err(DecodeError::InvalidTimestamp(m)),
    }
}

/// Decodes an event: its payload must be a JSON object whose `type` is its
/// category, whose `timestamp` counts microseconds since the Unix epoch, and
/// whose `event` is its data, kept as compact JSON text. Other members are
/// ignored. An event without a payload is `MissingPayload`; a payload that is
/// not JSON is `MalformedPayload`; otherwise the fields decide.
pub fn decode(raw: RawEvent) -> (r: Result<Event, DecodeError>)
    ensures
        raw.json.is_none() ==> r == Err::<Event, DecodeError>(DecodeError::MissingPayload),
        raw.json matches Some(t) ==> if json_parses(t@) {
            outcome_is(
                r,
                decoded_fields(
                    json_u64_at(t@, "type"@),
                    json_u64_at(t@, "timestamp"@),
                    json_text_at(t@, "event"@),
                ),
            )
        } else {
            r == Err::<Event, DecodeError>(DecodeError::MalformedPayload)
        },
{
    let text = match raw.json {
        Some(t) => t,
        None => return Err(DecodeError::MissingPayload),
    };
    if !json_is_valid(text.as_str()) {
        return Err(DecodeError::MalformedPayload);
    }
    let kind = json_u64_member(text.as_str(), "type");
    let micros = json_u64_member(text.as_str(), "timestamp");
    let event = json_text_member(text.as_str(), "event");
    decode_fields(kind, micros, event)
}

/// A decoded timestamp gives back the microsecond count it was decoded from.
pub proof fn lemma_decoded_timestamp_round_trip(
    kind: Option<u64>,
    micros: u64,
    event: Option<Seq<char>>,
)
    ensures
        decoded_fields(kind, Some(micros), event) matches Ok(f) ==> f.1.wf() && f.1.micros_spec()
            == micros,
{
    lemma_micros_round_trip(micros);
}

} // verus!
