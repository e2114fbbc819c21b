use vstd::prelude::*;

verus! {

/// Causal identity carried by every command and event. Identifiers are the
/// 128-bit values of UUIDs.
#[derive(Clone, Copy, Debug, PartialEq, Eq, Structural)]
pub struct Metadata {
    /// Identifies this unit of causality.
    pub id: u128,
    /// Identifies the entity stream this unit belongs to.
    pub aggregate_id: u128,
    /// Identifies the end-to-end business transaction; constant across a
    /// causal chain.
    pub correlation_id: u128,
    /// The `id` of the unit that produced this one.
    pub causality_id: u128,
}

/// Relies on uuid::Uuid::new_v4: a freshly generated random (version 4)
/// UUID, taken as its 128-bit value. Nothing is promised of the value. The
/// call aborts if the operating system's randomness source fails: an
/// environmental failure that no input can rule out.
#[verifier::external_body]
pub(crate) fn fresh_id() -> (id: u128) {
    uuid::Uuid::new_v4().as_u128()
}

impl Metadata {
    /// Metadata for a command that originates a new causal chain: a fresh
    /// `id`, with `correlation_id` and `causality_id` equal to it.
    pub fn new_for_command(aggregate_id: u128) -> (m: Metadata)
        ensures
            m.aggregate_id == aggregate_id,
            m.correlation_id == m.id,
            m.causality_id == m.id,
    {
        let id = fresh_id();
        Metadata { aggregate_id, id, correlation_id: id, causality_id: id }
    }

    /// Metadata for an event derived from `parent`: a fresh `id`;
    /// `aggregate_id` and `correlation_id` copied unchanged; `causality_id`
    /// set to the parent's `id`.
    pub fn new_for_event(parent: Metadata) -> (m: Metadata)
        ensures
            m.aggregate_id == parent.aggregate_id,
            m.correlation_id == parent.correlation_id,
            m.causality_id == parent.id,
    {
        Metadata {
            id: fresh_id(),
            aggregate_id: parent.aggregate_id,
            correlation_id: parent.correlation_id,
            causality_id: parent.id,
        }
    }
}

/// The envelope capability shared by commands and events: Metadata paired
/// with a typed payload, with a stable type tag per payload variant.
pub trait GenericEvent: Sized {
    type Payload;

    /// The metadata carried by this envelope.
    spec fn sp_metadata(&self) -> Metadata;

    /// The payload carried by this envelope.
    spec fn sp_payload(&self) -> Self::Payload;

    /// Whether envelopes of this kind are commands: a static property of the
    /// concrete envelope kind, not of the payload.
    spec fn sp_is_command() -> bool;

    /// The stable type tag of a payload variant.
    spec fn sp_type_tag(p: Self::Payload) -> Seq<char>;

    fn new(metadata: Metadata, payload: Self::Payload) -> (e: Self)
        ensures
            e.sp_metadata() == metadata,
            e.sp_payload() == payload,
    ;

    fn get_metadata(&self) -> (m: Metadata)
        ensures
            m == self.sp_metadata(),
    ;

    fn get_event_type(&self) -> (t: String)
        ensures
            t@ == Self::sp_type_tag(self.sp_payload()),
    ;

    fn is_command(&self) -> (b: bool)
        ensures
            b == Self::sp_is_command(),
    ;

    fn get_payload(&self) -> (p: Self::Payload)
        ensures
            p == self.sp_payload(),
    ;

    fn get_aggregate_id(&self) -> (id: u128)
        ensures
            id == self.sp_metadata().aggregate_id,
    {
        self.get_metadata().aggregate_id
    }
}

} // verus!
