use event_manager::Aggregate;
use event_manager::AggregateState;
use event_manager::GenericEvent;
use event_manager::Kind;
use event_manager::Metadata;
use event_manager::commands::PlanetCommand;
use event_manager::commands::PlanetCommandData;
use event_manager::commands::PrivateCommands;
use event_manager::planet::Planet;
use event_manager::planet::PlanetData;
use event_manager::planet_events::PlanetEvent;
use event_manager::planet_events::PlanetEventData;
use event_manager::planet_interface::PublicCommands;

fn create(aggregate_id: u128) -> PlanetCommand {
    PlanetCommand::new(
        Metadata::new_for_command(aggregate_id),
        PlanetCommandData::Private(PrivateCommands::Create),
    )
}

fn change(aggregate_id: u128, pop_change: i64) -> PlanetCommand {
    PlanetCommand::new(
        Metadata::new_for_command(aggregate_id),
        PlanetCommandData::Public(PublicCommands::ChangePopulation { pop_change }),
    )
}

#[test]
fn unknown_entity_reconstructs_to_zero() {
    let planet = Planet::new();
    let state = planet.get_up_to_date_state(5).unwrap();
    assert_eq!(state, PlanetData { generation: 0, pop: 0 });
}

#[test]
fn end_to_end_create_grow_and_clamp() {
    let mut planet = Planet::new();
    let id: u128 = 11;

    planet.handle_command(&create(id)).unwrap();
    let after_create = planet.get_up_to_date_state(id).unwrap();
    assert_eq!(after_create, PlanetData { generation: 1, pop: 500 });

    planet.handle_command(&change(id, 20)).unwrap();
    let after_growth = planet.get_up_to_date_state(id).unwrap();
    assert_eq!(after_growth, PlanetData { generation: 2, pop: 520 });

    planet.handle_command(&change(id, -1000)).unwrap();
    let after_clamp = planet.get_up_to_date_state(id).unwrap();
    assert_eq!(after_clamp, PlanetData { generation: 3, pop: 0 });
}

#[test]
fn streams_of_different_entities_are_independent() {
    let mut planet = Planet::new();
    planet.handle_command(&create(1)).unwrap();
    planet.handle_command(&create(2)).unwrap();
    planet.handle_command(&change(1, 40)).unwrap();

    assert_eq!(planet.get_up_to_date_state(1).unwrap(), PlanetData { generation: 2, pop: 540 });
    assert_eq!(planet.get_up_to_date_state(2).unwrap(), PlanetData { generation: 1, pop: 500 });
}

#[test]
fn load_events_starts_after_the_given_generation() {
    let mut planet = Planet::new();
    let id: u128 = 3;
    planet.handle_command(&create(id)).unwrap();
    planet.handle_command(&change(id, 20)).unwrap();
    planet.handle_command(&change(id, 1)).unwrap();

    let all = planet.load_events(id, 0);
    assert_eq!(all.len(), 3);
    assert_eq!(all[0].get_payload(), PlanetEventData::PopulationCreate { pop: 500 });

    let tail = planet.load_events(id, 1);
    assert_eq!(tail.len(), 2);
    assert_eq!(tail[0].get_payload(), PlanetEventData::PopulationIncrease { pop: 20 });
    assert_eq!(tail[1].get_payload(), PlanetEventData::PopulationIncrease { pop: 1 });
}

#[test]
fn save_events_keeps_the_callers_ordering() {
    let mut planet = Planet::new();
    let id: u128 = 21;
    let meta = Metadata::new_for_command(id);
    let batch = vec![
        PlanetEvent::new(Metadata::new_for_event(meta), PlanetEventData::PopulationCreate {
            pop: 500,
        }),
        PlanetEvent::new(Metadata::new_for_event(meta), PlanetEventData::PopulationIncrease {
            pop: 7,
        }),
    ];
    planet.save_events(batch.clone(), 0).unwrap();
    let loaded = planet.load_events(id, 0);
    assert_eq!(loaded.len(), 2);
    assert_eq!(loaded[0].get_payload(), batch[0].get_payload());
    assert_eq!(loaded[1].get_payload(), batch[1].get_payload());
}

#[test]
fn save_events_of_nothing_is_a_no_op() {
    let mut planet = Planet::new();
    planet.save_events(Vec::new(), 0).unwrap();
    assert_eq!(planet.load_events(9, 0).len(), 0);
}

#[test]
fn stale_save_is_a_concurrency_conflict() {
    let mut planet = Planet::new();
    let id: u128 = 8;
    planet.handle_command(&create(id)).unwrap();

    // Two writers each read the stream at generation 1 and decide.
    let state_a = planet.get_up_to_date_state(id).unwrap();
    let state_b = planet.get_up_to_date_state(id).unwrap();
    let generation = state_a.generation();
    let events_a = Planet::apply_command(&state_a, &change(id, 10)).unwrap();
    let events_b = Planet::apply_command(&state_b, &change(id, -10)).unwrap();

    // The first conditional append wins; the second fails as a conflict.
    planet.save_events(events_a, generation).unwrap();
    let err = planet.save_events(events_b, generation).unwrap_err();
    assert_eq!(err.kind, Kind::StoreFailure { conflict: true });

    // Only the winner's event is in the log.
    assert_eq!(planet.get_up_to_date_state(id).unwrap(), PlanetData { generation: 2, pop: 510 });
}

#[test]
fn conflicting_save_on_a_fresh_stream_fails() {
    let mut planet = Planet::new();
    let id: u128 = 30;
    let meta = Metadata::new_for_command(id);
    let batch = vec![PlanetEvent::new(
        Metadata::new_for_event(meta),
        PlanetEventData::PopulationCreate { pop: 500 },
    )];
    let err = planet.save_events(batch, 4).unwrap_err();
    assert_eq!(err.kind, Kind::StoreFailure { conflict: true });
    assert_eq!(planet.load_events(id, 0).len(), 0);
}

#[test]
fn replay_failure_surfaces_and_persists_nothing() {
    let mut planet = Planet::new();
    let id: u128 = 14;
    // A stored decrease that the zero state cannot absorb.
    let meta = Metadata::new_for_command(id);
    let bad = vec![PlanetEvent::new(
        Metadata::new_for_event(meta),
        PlanetEventData::PopulationDecrease { pop: 1 },
    )];
    planet.save_events(bad, 0).unwrap();

    let err = planet.handle_command(&change(id, 5)).unwrap_err();
    assert_eq!(err.kind, Kind::ApplicationFailure);
    assert_eq!(planet.load_events(id, 0).len(), 1);
}

#[test]
fn save_state_is_a_no_op_that_succeeds() {
    let planet = Planet::new();
    planet.save_state(PlanetData { generation: 5, pop: 1 }).unwrap();
}

#[test]
fn load_state_returns_the_zero_snapshot() {
    let mut planet = Planet::new();
    let id: u128 = 17;
    planet.handle_command(&create(id)).unwrap();
    let snapshot = planet.load_state(id);
    assert_eq!(snapshot, PlanetData::default());
}

#[test]
fn envelope_kinds_are_static() {
    let meta = Metadata::new_for_command(2);
    let cmd = PlanetCommand::new(meta, PlanetCommandData::Private(PrivateCommands::Census));
    let evt = PlanetEvent::new(meta, PlanetEventData::PopulationCreate { pop: 1 });
    assert!(cmd.is_command());
    assert!(!evt.is_command());
    assert_eq!(cmd.get_aggregate_id(), 2);
    assert_eq!(evt.get_aggregate_id(), 2);
}

#[test]
fn type_tags_are_stable_per_variant() {
    let meta = Metadata::new_for_command(2);
    let create_evt = PlanetEvent::new(meta, PlanetEventData::PopulationCreate { pop: 1 });
    let inc_evt = PlanetEvent::new(meta, PlanetEventData::PopulationIncrease { pop: 1 });
    let dec_evt = PlanetEvent::new(meta, PlanetEventData::PopulationDecrease { pop: 1 });
    assert_eq!(create_evt.get_event_type(), "PopulationCreate");
    assert_eq!(inc_evt.get_event_type(), "PopulationIncrease");
    assert_eq!(dec_evt.get_event_type(), "PopulationDecrease");

    let census = PlanetCommand::new(meta, PlanetCommandData::Private(PrivateCommands::Census));
    let create_cmd = PlanetCommand::new(meta, PlanetCommandData::Private(PrivateCommands::Create));
    let change_cmd = PlanetCommand::new(
        meta,
        PlanetCommandData::Public(PublicCommands::ChangePopulation { pop_change: 4 }),
    );
    assert_eq!(census.get_event_type(), "Census");
    assert_eq!(create_cmd.get_event_type(), "Create");
    assert_eq!(change_cmd.get_event_type(), "ChangePopulation");
}
