use vstd::prelude::*;

use crate::codec::payload_to_json;
use crate::codec::sp_payload_json;
use crate::codec::uuid_hyphenated;
use crate::codec::uuid_str_of;
use crate::events::GenericEvent;
use crate::planet_events::PlanetEvent;
use crate::planet_events::event_type_tag;

verus! {

/// The standardized, source-agnostic envelope exported to downstream
/// consumers. The timestamp is a Unix time in milliseconds, UTC.
#[derive(Clone, Debug)]
pub struct CloudEvent {
    pub cloud_events_version: String,
    pub event_type: String,
    pub event_type_version: String,
    pub source: String,
    pub event_id: String,
    pub event_time: i64,
    pub content_type: String,
    pub subject: Option<String>,
    pub data: String,
}

/// Relies on chrono::Utc::now: the current UTC time, taken as its Unix
/// millisecond timestamp. Nothing is promised of the value. The call aborts
/// if the system clock reads before 1970: an environmental failure that no
/// input can rule out.
#[verifier::external_body]
fn now_unix_millis() -> (t: i64) {
    chrono::Utc::now().timestamp_millis()
}

impl CloudEvent {
    /// Convert one event to its external envelope. The `data`, `type`,
    /// `source` and `subject` fields are functions of the event and the
    /// given configuration; `event_id` and `event_time` are generated fresh
    /// at each conversion, so they are left unconstrained.
    pub fn from_event(event: &PlanetEvent, event_type_version: &str, source: &str) -> (c:
        CloudEvent)
        ensures
            c.cloud_events_version@ == "1.0"@,
            c.event_type@ == event_type_tag(event.data),
            c.event_type_version@ == event_type_version@,
            c.source@ == source@,
            c.event_id@.len() == 36,
            c.content_type@ == "application/json"@,
            c.subject matches Some(s) && s@ == uuid_str_of(event.metadata.aggregate_id),
            c.data@ == sp_payload_json(event.data),
    {
        let fresh = crate::events::fresh_id();
        proof {
            crate::codec::lemma_uuid_str_len(fresh);
        }
        CloudEvent {
            cloud_events_version: "1.0".to_owned(),
            event_type: event.get_event_type(),
            event_type_version: event_type_version.to_owned(),
            source: source.to_owned(),
            event_id: uuid_hyphenated(fresh),
            event_time: now_unix_millis(),
            content_type: "application/json".to_owned(),
            subject: Some(uuid_hyphenated(event.metadata.aggregate_id)),
            data: payload_to_json(&event.data),
        }
    }
}

} // verus!
