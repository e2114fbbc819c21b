use event_manager::GenericEvent;
use event_manager::Metadata;
use event_manager::cloudevents::CloudEvent;
use event_manager::codec::metadata_to_json;
use event_manager::codec::payload_to_json;
use event_manager::codec::stream_name;
use event_manager::codec::u64_to_dec;
use event_manager::planet_events::PlanetEvent;
use event_manager::planet_events::PlanetEventData;

fn uuid_text(id: u128) -> String {
    uuid::Uuid::from_u128(id).hyphenated().to_string()
}

#[test]
fn decimal_rendering_is_exact() {
    assert_eq!(u64_to_dec(0), "0");
    assert_eq!(u64_to_dec(7), "7");
    assert_eq!(u64_to_dec(10), "10");
    assert_eq!(u64_to_dec(500), "500");
    assert_eq!(u64_to_dec(18446744073709551615), "18446744073709551615");
}

#[test]
fn payload_json_is_exact() {
    assert_eq!(
        payload_to_json(&PlanetEventData::PopulationCreate { pop: 500 }),
        "{\"PopulationCreate\":{\"pop\":500}}"
    );
    assert_eq!(
        payload_to_json(&PlanetEventData::PopulationIncrease { pop: 12 }),
        "{\"PopulationIncrease\":{\"pop\":12}}"
    );
    assert_eq!(
        payload_to_json(&PlanetEventData::PopulationDecrease { pop: 0 }),
        "{\"PopulationDecrease\":{\"pop\":0}}"
    );
}

#[test]
fn payload_json_parses_back() {
    let text = payload_to_json(&PlanetEventData::PopulationIncrease { pop: 12 });
    let value: serde_json::Value = serde_json::from_str(&text).unwrap();
    assert_eq!(value["PopulationIncrease"]["pop"].as_u64(), Some(12));
}

#[test]
fn metadata_json_uses_uuid_text() {
    let m = Metadata { id: 1, aggregate_id: 2, correlation_id: 3, causality_id: 4 };
    let expected = format!(
        "{{\"id\":\"{}\",\"aggregate_id\":\"{}\",\"correlation_id\":\"{}\",\"causality_id\":\"{}\"}}",
        uuid_text(1),
        uuid_text(2),
        uuid_text(3),
        uuid_text(4)
    );
    assert_eq!(metadata_to_json(&m), expected);
}

#[test]
fn metadata_json_parses_back() {
    let m = Metadata { id: 1, aggregate_id: 2, correlation_id: 3, causality_id: 4 };
    let value: serde_json::Value = serde_json::from_str(&metadata_to_json(&m)).unwrap();
    assert_eq!(value["aggregate_id"].as_str(), Some(uuid_text(2).as_str()));
    assert_eq!(value["causality_id"].as_str(), Some(uuid_text(4).as_str()));
}

#[test]
fn uuid_text_form_is_grouped_lowercase_hex() {
    let id: u128 = 0x0123456789abcdef0fedcba987654321;
    assert_eq!(stream_name("", id), "01234567-89ab-cdef-0fed-cba987654321");
    assert_eq!(stream_name("", id), uuid_text(id));
    assert_eq!(stream_name("", 0), "00000000-0000-0000-0000-000000000000");
}

#[test]
fn stream_name_concatenates_prefix_and_uuid() {
    let id: u128 = 77;
    assert_eq!(stream_name("planet_", id), format!("planet_{}", uuid_text(id)));
}

#[test]
fn cloud_event_pins_data_type_and_source() {
    let meta = Metadata::new_for_command(99);
    let evt = PlanetEvent::new(meta, PlanetEventData::PopulationCreate { pop: 500 });
    let c = CloudEvent::from_event(&evt, "1.0", "https://example.test/planets");

    assert_eq!(c.cloud_events_version, "1.0");
    assert_eq!(c.event_type, "PopulationCreate");
    assert_eq!(c.event_type_version, "1.0");
    assert_eq!(c.source, "https://example.test/planets");
    assert_eq!(c.content_type, "application/json");
    assert_eq!(c.subject.as_deref(), Some(uuid_text(99).as_str()));
    assert_eq!(c.data, "{\"PopulationCreate\":{\"pop\":500}}");
    assert_eq!(c.event_id.len(), 36);
}

#[test]
fn cloud_event_ids_are_fresh_per_conversion() {
    let meta = Metadata::new_for_command(99);
    let evt = PlanetEvent::new(meta, PlanetEventData::PopulationIncrease { pop: 1 });
    let first = CloudEvent::from_event(&evt, "1.0", "urn:planets");
    let second = CloudEvent::from_event(&evt, "1.0", "urn:planets");
    assert_ne!(first.event_id, second.event_id);
    assert_eq!(first.data, second.data);
    assert_eq!(first.event_type, second.event_type);
}
