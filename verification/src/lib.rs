use vstd::prelude::*;

pub mod aggregate;
pub mod cloudevents;
pub mod codec;
pub mod commands;
pub mod events;
pub mod planet;
pub mod planet_events;
pub mod planet_interface;

pub use aggregate::Aggregate;
pub use aggregate::StateMachine;
pub use events::GenericEvent;
pub use events::Metadata;

verus! {

/// The state of one aggregate: a value obtained by folding the events of one
/// entity stream, which reports how many events have been folded into it.
pub trait AggregateState: Sized {
    /// The number of events already folded into this state.
    spec fn sp_generation(&self) -> u64;

    /// The zero value that stands for a never-seen entity.
    spec fn sp_zero() -> Self;

    /// The zero state has folded no events.
    proof fn lemma_zero_generation()
        ensures
            Self::sp_zero().sp_generation() == 0,
    ;

    fn generation(&self) -> (g: u64)
        ensures
            g == self.sp_generation(),
    ;
}

/// Indicates the kind of event sourcing error that occurred.
#[derive(Clone, Copy, Debug, PartialEq, Eq, Structural)]
pub enum Kind {
    /// A state-transition function could not be applied to a stored event.
    ApplicationFailure,
    /// A command failed the validity gate or was rejected by the decision
    /// function.
    CommandFailure,
    /// The log could not be read or written; `conflict` is true exactly when
    /// the failure is an optimistic-concurrency conflict, which a caller may
    /// retry.
    StoreFailure { conflict: bool },
}

/// An event sourcing error.
#[derive(Clone, Copy, Debug, PartialEq, Eq, Structural)]
pub struct Error {
    pub kind: Kind,
}

impl Error {
    /// A human-readable description of the error.
    pub fn message(&self) -> (s: String)
        ensures
            self.kind is ApplicationFailure ==> s@ == "application failure"@,
            self.kind is CommandFailure ==> s@ == "command failure"@,
            (self.kind matches Kind::StoreFailure { conflict } ==> (if conflict {
                s@ == "store failure: concurrency conflict"@
            } else {
                s@ == "store failure"@
            })),
    {
        match self.kind {
            Kind::ApplicationFailure => "application failure".to_owned(),
            Kind::CommandFailure => "command failure".to_owned(),
            Kind::StoreFailure { conflict } => {
                if conflict {
                    "store failure: concurrency conflict".to_owned()
                } else {
                    "store failure".to_owned()
                }
            },
        }
    }
}

} // verus!
