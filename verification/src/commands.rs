use vstd::prelude::*;

use crate::events::GenericEvent;
use crate::events::Metadata;
use crate::planet_interface::PublicCommands;

verus! {

/// Commands that only the system itself issues.
#[derive(Clone, Copy, Debug, PartialEq, Eq, Structural)]
pub enum PrivateCommands {
    Census,
    Create,
}

/// The payload of a planet command: one public or one private command.
#[derive(Clone, Copy, Debug, PartialEq, Eq, Structural)]
pub enum PlanetCommandData {
    Public(PublicCommands),
    Private(PrivateCommands),
}

/// A command envelope for the planet aggregate.
#[derive(Clone, Copy, Debug, PartialEq, Eq, Structural)]
pub struct PlanetCommand {
    pub metadata: Metadata,
    pub data: PlanetCommandData,
}

/// The stable type tag of a planet command payload variant.
pub open spec fn command_type_tag(p: PlanetCommandData) -> Seq<char> {
    match p {
        PlanetCommandData::Public(PublicCommands::ChangePopulation { .. }) => "ChangePopulation"@,
        PlanetCommandData::Private(PrivateCommands::Census) => "Census"@,
        PlanetCommandData::Private(PrivateCommands::Create) => "Create"@,
    }
}

impl GenericEvent for PlanetCommand {
    type Payload = PlanetCommandData;

    open spec fn sp_metadata(&self) -> Metadata {
        self.metadata
    }

    open spec fn sp_payload(&self) -> PlanetCommandData {
        self.data
    }

    open spec fn sp_is_command() -> bool {
        true
    }

    open spec fn sp_type_tag(p: PlanetCommandData) -> Seq<char> {
        command_type_tag(p)
    }

    fn new(metadata: Metadata, payload: PlanetCommandData) -> (e: Self) {
        let e = PlanetCommand { metadata, data: payload };
        assert(e.sp_metadata() == metadata);
        assert(e.sp_payload() == payload);
        e
    }

    fn get_metadata(&self) -> Metadata {
        self.metadata
    }

    fn get_event_type(&self) -> String {
        match self.data {
            PlanetCommandData::Public(PublicCommands::ChangePopulation { .. }) => {
                "ChangePopulation".to_owned()
            },
            PlanetCommandData::Private(PrivateCommands::Census) => "Census".to_owned(),
            PlanetCommandData::Private(PrivateCommands::Create) => "Create".to_owned(),
        }
    }

    fn is_command(&self) -> bool {
        true
    }

    fn get_payload(&self) -> PlanetCommandData {
        self.data
    }
}

} // verus!
