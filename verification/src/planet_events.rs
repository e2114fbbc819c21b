use vstd::prelude::*;

use crate::events::GenericEvent;
use crate::events::Metadata;

verus! {

/// The payload of a planet event: one change to the planet's population.
#[derive(Clone, Copy, Debug, PartialEq, Eq, Structural)]
pub enum PlanetEventData {
    PopulationCreate { pop: u64 },
    PopulationIncrease { pop: u64 },
    PopulationDecrease { pop: u64 },
}

/// An event envelope for the planet aggregate.
#[derive(Clone, Copy, Debug, PartialEq, Eq, Structural)]
pub struct PlanetEvent {
    pub metadata: Metadata,
    pub data: PlanetEventData,
}

/// The stable type tag of a planet event payload variant.
pub open spec fn event_type_tag(p: PlanetEventData) -> Seq<char> {
    match p {
        PlanetEventData::PopulationCreate { .. } => "PopulationCreate"@,
        PlanetEventData::PopulationIncrease { .. } => "PopulationIncrease"@,
        PlanetEventData::PopulationDecrease { .. } => "PopulationDecrease"@,
    }
}

impl GenericEvent for PlanetEvent {
    type Payload = PlanetEventData;

    open spec fn sp_metadata(&self) -> Metadata {
        self.metadata
    }

    open spec fn sp_payload(&self) -> PlanetEventData {
        self.data
    }

    open spec fn sp_is_command() -> bool {
        false
    }

    open spec fn sp_type_tag(p: PlanetEventData) -> Seq<char> {
        event_type_tag(p)
    }

    fn new(metadata: Metadata, payload: PlanetEventData) -> (e: Self) {
        let e = PlanetEvent { metadata, data: payload };
        assert(e.sp_metadata() == metadata);
        assert(e.sp_payload() == payload);
        e
    }

    fn get_metadata(&self) -> Metadata {
        self.metadata
    }

    fn get_event_type(&self) -> String {
        match self.data {
            PlanetEventData::PopulationCreate { .. } => "PopulationCreate".to_owned(),
            PlanetEventData::PopulationIncrease { .. } => "PopulationIncrease".to_owned(),
            PlanetEventData::PopulationDecrease { .. } => "PopulationDecrease".to_owned(),
        }
    }

    fn is_command(&self) -> bool {
        false
    }

    fn get_payload(&self) -> PlanetEventData {
        self.data
    }
}

} // verus!
