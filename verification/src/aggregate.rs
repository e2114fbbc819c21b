use vstd::prelude::*;

use crate::AggregateState;
use crate::Error;
use crate::events::GenericEvent;
use crate::events::Metadata;

verus! {

/// Every event of `evts` carries the payload that `payloads` prescribes for
/// its position, and Metadata derived from `parent`: `aggregate_id` and
/// `correlation_id` copied unchanged, `causality_id` set to the parent's
/// `id`.
pub open spec fn derived_from<E: GenericEvent>(
    evts: Seq<E>,
    parent: Metadata,
    payloads: Seq<E::Payload>,
) -> bool {
    &&& evts.len() == payloads.len()
    &&& forall|i: int|
        0 <= i < evts.len() ==> {
            &&& (#[trigger] evts[i]).sp_payload() == payloads[i]
            &&& evts[i].sp_metadata().aggregate_id == parent.aggregate_id
            &&& evts[i].sp_metadata().correlation_id == parent.correlation_id
            &&& evts[i].sp_metadata().causality_id == parent.id
        }
}

/// The pure part of a domain aggregate: the deterministic state transition,
/// the decision function, and the types they act on.
pub trait StateMachine: Sized {
    type Event: GenericEvent;

    type Command: GenericEvent;

    type State: AggregateState;

    /// The deterministic state transition that `apply_event` implements.
    spec fn sp_apply_event(s: Self::State, e: Self::Event) -> Result<Self::State, Error>;

    /// The deterministic part of the decision that `apply_command`
    /// implements: the payloads of the produced events, in order. The
    /// `id`s of the events themselves are minted fresh on every run.
    spec fn sp_decide(s: Self::State, c: Self::Command) -> Result<
        Seq<<Self::Event as GenericEvent>::Payload>,
        Error,
    >;

    /// Applying one event to a state advances its generation by exactly one.
    proof fn lemma_apply_event_generation(s: Self::State, e: Self::Event)
        ensures
            Self::sp_apply_event(s, e) matches Ok(s2) ==> s2.sp_generation() == s.sp_generation()
                + 1,
    ;
}

/// An aggregate: a pure state machine together with the append-only log it
/// is replayed from and persisted to.
pub trait Aggregate: StateMachine {
    /// The events committed to the log for one entity, oldest first: the
    /// ghost model of the store that the load and save operations are
    /// specified against.
    spec fn stream_of(&self, aggregate_id: u128) -> Seq<Self::Event>;

    /// Return the best-known snapshot for the entity, or the zero value: a
    /// state that is the fold of a prefix of the entity's stream.
    fn load_state(&self, subject: u128) -> (s: Self::State)
        ensures
            s.sp_generation() <= self.stream_of(subject).len(),
            Ok::<Self::State, Error>(s) == sp_apply_events::<Self>(
                <Self::State as AggregateState>::sp_zero(),
                self.stream_of(subject).take(s.sp_generation() as int),
            ),
    ;

    /// Optionally persist a snapshot of the state; may be a no-op.
    fn save_state(&self, state: Self::State) -> (r: Result<(), Error>);

    /// Return the events recorded for the entity strictly after the first
    /// `generation` ones, in append order, exhaustively up to the log head.
    fn load_events(&self, subject: u128, generation: u64) -> (evts: Vec<Self::Event>)
        requires
            generation <= self.stream_of(subject).len(),
        ensures
            evts@ == self.stream_of(subject).skip(generation as int),
    ;

    /// Append `events` to the stream of their entity, conditioned on the
    /// stream still holding exactly `expected_generation` events: the
    /// optimistic-concurrency gate. The append is atomic: on failure nothing
    /// is written, and the failure is a store failure.
    fn save_events(&mut self, events: Vec<Self::Event>, expected_generation: u64) -> (r: Result<
        (),
        Error,
    >)
        requires
            forall|i: int|
                0 <= i < events@.len() ==> (#[trigger] events@[i]).sp_metadata().aggregate_id
                    == events@[0].sp_metadata().aggregate_id,
        ensures
            r matches Ok(()) ==> {
                &&& events@.len() == 0 ==> forall|id: u128|
                    final(self).stream_of(id) == old(self).stream_of(id)
                &&& events@.len() > 0 ==> {
                    let subject = events@[0].sp_metadata().aggregate_id;
                    &&& expected_generation == old(self).stream_of(subject).len()
                    &&& final(self).stream_of(subject) == old(self).stream_of(subject) + events@
                    &&& forall|other: u128|
                        other != subject ==> final(self).stream_of(other) == old(self).stream_of(
                            other,
                        )
                }
            },
            r matches Err(e) ==> {
                &&& forall|id: u128| final(self).stream_of(id) == old(self).stream_of(id)
                &&& e.kind is StoreFailure
            },
    ;

    /// Apply one event to a state, producing the next state; pure and total.
    fn apply_event(state: &Self::State, evt: &Self::Event) -> (r: Result<Self::State, Error>)
        ensures
            r == Self::sp_apply_event(*state, *evt),
    ;

    /// Decide which events a command produces against the given state; pure
    /// apart from the fresh `id` minted for each produced event, and free of
    /// any persistence.
    fn apply_command(state: &Self::State, cmd: &Self::Command) -> (r: Result<
        Vec<Self::Event>,
        Error,
    >)
        ensures
            r matches Ok(evts) ==> decided_events::<Self>(*state, *cmd, evts@),
            r matches Err(e) ==> Self::sp_decide(*state, *cmd) matches Err(e2) && e2 == e,
    ;

    /// Left fold of `apply_event` over `evts`, starting from `state`,
    /// short-circuiting on the first failure.
    fn apply_all(state: Self::State, evts: &Vec<Self::Event>) -> (r: Result<Self::State, Error>)
        ensures
            r == sp_apply_events::<Self>(state, evts@),
    {
        let ghost s0 = state;
        let mut acc = state;
        let mut i: usize = 0;
        while i < evts.len()
            invariant
                i <= evts@.len(),
                s0 == state,
                sp_apply_events::<Self>(s0, evts@.take(i as int)) == Ok::<Self::State, Error>(acc),
            decreases evts@.len() - i,
        {
            match Self::apply_event(&acc, &evts[i]) {
                Ok(next) => {
                    proof {
                        lemma_apply_events_step::<Self>(s0, evts@, i as int, acc);
                    }
                    acc = next;
                },
                Err(e) => {
                    proof {
                        lemma_apply_events_step::<Self>(s0, evts@, i as int, acc);
                        lemma_apply_events_concat::<Self>(
                            s0,
                            evts@.take(i as int + 1),
                            evts@.skip(i as int + 1),
                        );
                        assert(evts@.take(i as int + 1) + evts@.skip(i as int + 1) =~= evts@);
                    }
                    return Err(e);
                },
            }
            i = i + 1;
        }
        proof {
            assert(evts@.take(i as int) =~= evts@);
        }
        Ok(acc)
    }

    /// Reconstruct the up-to-date state of the entity: the snapshot plus the
    /// events recorded since it, which equals the fold of the entity's whole
    /// stream onto the zero state.
    fn get_up_to_date_state(&self, aggregate_id: u128) -> (r: Result<Self::State, Error>)
        ensures
            r == sp_apply_events::<Self>(
                <Self::State as AggregateState>::sp_zero(),
                self.stream_of(aggregate_id),
            ),
    {
        let state = self.load_state(aggregate_id);
        let generation = state.generation();
        let events = self.load_events(aggregate_id, generation);
        proof {
            lemma_snapshot_replay::<Self>(
                state,
                self.stream_of(aggregate_id),
                generation as int,
            );
        }
        Self::apply_all(state, &events)
    }

    /// The entry point: reconstruct the up-to-date state, decide, and
    /// persist the decided events, conditioned on the generation observed
    /// during reconstruction. On any failure the log is left unchanged and
    /// replay and decision failures surface unchanged.
    fn handle_command(&mut self, cmd: &Self::Command) -> (r: Result<(), Error>)
        ensures
            ({
                let subject = cmd.sp_metadata().aggregate_id;
                let before = old(self).stream_of(subject);
                let folded = sp_apply_events::<Self>(
                    <Self::State as AggregateState>::sp_zero(),
                    before,
                );
                match r {
                    Ok(()) => {
                        &&& folded matches Ok(st) && Self::sp_decide(st, *cmd) matches Ok(
                            payloads,
                        ) && {
                            &&& final(self).stream_of(subject).len() == before.len()
                                + payloads.len()
                            &&& final(self).stream_of(subject).take(before.len() as int) == before
                            &&& derived_from::<Self::Event>(
                                final(self).stream_of(subject).skip(before.len() as int),
                                cmd.sp_metadata(),
                                payloads,
                            )
                        }
                        &&& forall|other: u128|
                            other != subject ==> final(self).stream_of(other) == old(
                                self,
                            ).stream_of(other)
                    },
                    Err(e) => {
                        &&& forall|id: u128| final(self).stream_of(id) == old(self).stream_of(id)
                        &&& folded matches Err(e2) ==> e == e2
                        &&& folded matches Ok(st) ==> {
                            &&& Self::sp_decide(st, *cmd) matches Err(e2) ==> e == e2
                            &&& Self::sp_decide(st, *cmd) is Ok ==> e.kind is StoreFailure
                        }
                    },
                }
            }),
    {
        let subject = cmd.get_aggregate_id();
        let state = match self.get_up_to_date_state(subject) {
            Ok(s) => s,
            Err(e) => {
                return Err(e);
            },
        };
        let generation = state.generation();
        proof {
            <Self::State as AggregateState>::lemma_zero_generation();
            lemma_apply_events_generation::<Self>(
                <Self::State as AggregateState>::sp_zero(),
                self.stream_of(subject),
            );
        }
        match Self::apply_command(&state, cmd) {
            Err(err) => Err(err),
            Ok(events) => {
                let ghost before = self.stream_of(subject);
                let ghost saved = events@;
                let r = self.save_events(events, generation);
                proof {
                    if r is Ok && saved.len() > 0 {
                        assert((before + saved).take(before.len() as int) =~= before);
                        assert((before + saved).skip(before.len() as int) =~= saved);
                    }
                }
                r
            },
        }
    }
}

/// The events decided for `(s, c)`: the decision spec succeeded, and `evts`
/// carries exactly the decided payloads under Metadata derived from the
/// command's.
pub open spec fn decided_events<A: StateMachine>(s: A::State, c: A::Command, evts: Seq<A::Event>) -> bool {
    A::sp_decide(s, c) matches Ok(payloads) && derived_from::<A::Event>(
        evts,
        c.sp_metadata(),
        payloads,
    )
}

/// Left fold of the state transition over an event sequence, starting from
/// `s`, short-circuiting on the first failure.
pub open spec fn sp_apply_events<A: StateMachine>(s: A::State, evts: Seq<A::Event>) -> Result<
    A::State,
    Error,
> decreases evts.len(),
{
    if evts.len() == 0 {
        Ok(s)
    } else {
        match A::sp_apply_event(s, evts[0]) {
            Ok(s2) => sp_apply_events::<A>(s2, evts.skip(1)),
            Err(e) => Err(e),
        }
    }
}

/// Folding a concatenation folds the first part, then the second; a failure
/// in the first part is the failure of the whole.
pub proof fn lemma_apply_events_concat<A: StateMachine>(s: A::State, a: Seq<A::Event>, b: Seq<A::Event>)
    ensures
        sp_apply_events::<A>(s, a + b) == (match sp_apply_events::<A>(s, a) {
            Ok(m) => sp_apply_events::<A>(m, b),
            Err(e) => Err(e),
        }),
    decreases a.len(),
{
    if a.len() == 0 {
        assert(a + b =~= b);
    } else {
        assert((a + b)[0] == a[0]);
        assert((a + b).skip(1) =~= a.skip(1) + b);
        match A::sp_apply_event(s, a[0]) {
            Ok(m) => {
                lemma_apply_events_concat::<A>(m, a.skip(1), b);
            },
            Err(_) => {
            },
        }
    }
}

/// One step of the fold at position `i`: extending the folded prefix by the
/// event at `i` applies the transition to the accumulated state.
pub proof fn lemma_apply_events_step<A: StateMachine>(s: A::State, evts: Seq<A::Event>, i: int, acc: A::State)
    requires
        0 <= i < evts.len(),
        sp_apply_events::<A>(s, evts.take(i)) == Ok::<A::State, Error>(acc),
    ensures
        sp_apply_events::<A>(s, evts.take(i + 1)) == A::sp_apply_event(acc, evts[i]),
{
    let single = seq![evts[i]];
    lemma_apply_events_concat::<A>(s, evts.take(i), single);
    assert(evts.take(i) + single =~= evts.take(i + 1));
    assert(sp_apply_events::<A>(acc, single) == A::sp_apply_event(acc, evts[i])) by {
        assert(single.skip(1) =~= Seq::<A::Event>::empty());
        match A::sp_apply_event(acc, single[0]) {
            Ok(m) => {
                assert(sp_apply_events::<A>(m, single.skip(1)) == Ok::<A::State, Error>(m));
            },
            Err(_) => {
            },
        }
    }
}

/// A successful fold of `n` events advances the generation by exactly `n`.
pub proof fn lemma_apply_events_generation<A: StateMachine>(s: A::State, evts: Seq<A::Event>)
    ensures
        sp_apply_events::<A>(s, evts) matches Ok(s2) ==> s2.sp_generation() == s.sp_generation()
            + evts.len(),
    decreases evts.len(),
{
    if evts.len() > 0 {
        match A::sp_apply_event(s, evts[0]) {
            Ok(m) => {
                A::lemma_apply_event_generation(s, evts[0]);
                lemma_apply_events_generation::<A>(m, evts.skip(1));
            },
            Err(_) => {
            },
        }
    }
}

/// Replaying the events after generation `g` onto a snapshot that is the
/// fold of the first `g` events equals folding the whole stream from the
/// zero state.
pub proof fn lemma_snapshot_replay<A: StateMachine>(snapshot: A::State, stream: Seq<A::Event>, g: int)
    requires
        0 <= g <= stream.len(),
        Ok::<A::State, Error>(snapshot) == sp_apply_events::<A>(
            <A::State as AggregateState>::sp_zero(),
            stream.take(g),
        ),
    ensures
        sp_apply_events::<A>(snapshot, stream.skip(g)) == sp_apply_events::<A>(
            <A::State as AggregateState>::sp_zero(),
            stream,
        ),
{
    lemma_apply_events_concat::<A>(
        <A::State as AggregateState>::sp_zero(),
        stream.take(g),
        stream.skip(g),
    );
    assert(stream.take(g) + stream.skip(g) =~= stream);
}

/// Optimistic concurrency: of two writers that both observed generation
/// `g`, only the first conditional append can succeed. After the first has
/// appended its events, the stream head has advanced past `g`; a second
/// append still conditioned on `g` then admits no successful outcome under
/// the save contract, whose success requires the condition to match the
/// head. `second_result` is the outcome of the second append, constrained
/// exactly as `save_events` constrains it.
pub proof fn lemma_second_writer_conflicts<A: Aggregate>(
    before: Seq<A::Event>,
    after: Seq<A::Event>,
    appended: Seq<A::Event>,
    g: u64,
    second_result: Result<(), Error>,
)
    requires
        g == before.len(),
        appended.len() > 0,
        after == before + appended,
        second_result matches Ok(()) ==> g == after.len(),
        second_result matches Err(e) ==> e.kind is StoreFailure,
    ensures
        second_result matches Err(e) && e.kind is StoreFailure,
{
    assert(after.len() == before.len() + appended.len());
}

/// Any two event batches decided for equal state and command agree on
/// length, payloads and derived Metadata; only the minted `id`s may differ.
pub proof fn lemma_decision_pure<A: StateMachine>(
    s: A::State,
    c: A::Command,
    evts1: Seq<A::Event>,
    evts2: Seq<A::Event>,
)
    requires
        decided_events::<A>(s, c, evts1),
        decided_events::<A>(s, c, evts2),
    ensures
        evts1.len() == evts2.len(),
        forall|i: int|
            0 <= i < evts1.len() ==> {
                &&& (#[trigger] evts1[i]).sp_payload() == evts2[i].sp_payload()
                &&& evts1[i].sp_metadata().aggregate_id == evts2[i].sp_metadata().aggregate_id
                &&& evts1[i].sp_metadata().correlation_id == evts2[i].sp_metadata().correlation_id
                &&& evts1[i].sp_metadata().causality_id == evts2[i].sp_metadata().causality_id
            },
{
}

} // verus!
