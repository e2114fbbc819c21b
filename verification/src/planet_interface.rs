use vstd::prelude::*;

verus! {

/// Commands that the public surface of the planet domain accepts.
#[derive(Clone, Copy, Debug, PartialEq, Eq, Structural)]
pub enum PublicCommands {
    ChangePopulation { pop_change: i64 },
}

} // verus!
