use vstd::prelude::*;

use crate::AggregateState;
use crate::Error;
use crate::Kind;
use crate::aggregate::Aggregate;
use crate::aggregate::StateMachine;
use crate::commands::PlanetCommand;
use crate::commands::PlanetCommandData;
use crate::commands::PrivateCommands;
use crate::events::GenericEvent;
use crate::events::Metadata;
use crate::planet_events::PlanetEvent;
use crate::planet_events::PlanetEventData;
use crate::planet_interface::PublicCommands;

verus! {

/// The state of one planet: how many events shaped it, and its population.
#[derive(Clone, Copy, Debug, PartialEq, Eq, Structural)]
pub struct PlanetData {
    pub generation: u64,
    pub pop: u64,
}

impl Default for PlanetData {
    /// The zero state of a never-seen planet.
    fn default() -> (s: Self)
        ensures
            s == (PlanetData { generation: 0, pop: 0 }),
    {
        PlanetData { generation: 0, pop: 0 }
    }
}

impl AggregateState for PlanetData {
    open spec fn sp_generation(&self) -> u64 {
        self.generation
    }

    open spec fn sp_zero() -> Self {
        PlanetData { generation: 0, pop: 0 }
    }

    proof fn lemma_zero_generation() {
    }

    fn generation(&self) -> u64 {
        self.generation
    }
}

/// The planet's state transition: each event advances the generation by one
/// and reshapes the population. An event that no state can absorb — a
/// counter that would leave `u64`, or a decrease below zero — is an
/// application failure, never a panic.
pub open spec fn planet_apply_event(s: PlanetData, e: PlanetEvent) -> Result<PlanetData, Error> {
    if s.generation == u64::MAX {
        Err(Error { kind: Kind::ApplicationFailure })
    } else {
        match e.data {
            PlanetEventData::PopulationCreate { pop } => Ok(
                PlanetData { generation: (s.generation + 1) as u64, pop },
            ),
            PlanetEventData::PopulationIncrease { pop } => if s.pop + pop <= u64::MAX {
                Ok(PlanetData { generation: (s.generation + 1) as u64, pop: (s.pop + pop) as u64 })
            } else {
                Err(Error { kind: Kind::ApplicationFailure })
            },
            PlanetEventData::PopulationDecrease { pop } => if pop <= s.pop {
                Ok(PlanetData { generation: (s.generation + 1) as u64, pop: (s.pop - pop) as u64 })
            } else {
                Err(Error { kind: Kind::ApplicationFailure })
            },
        }
    }
}

/// The planet's decision function: every command yields exactly one event
/// payload. A population decrease is clamped at the current population, so
/// the population never goes negative.
pub open spec fn planet_decide(s: PlanetData, c: PlanetCommand) -> Result<
    Seq<PlanetEventData>,
    Error,
> {
    match c.data {
        PlanetCommandData::Private(PrivateCommands::Census) => Ok(
            seq![PlanetEventData::PopulationIncrease { pop: 12 }],
        ),
        PlanetCommandData::Private(PrivateCommands::Create) => Ok(
            seq![PlanetEventData::PopulationCreate { pop: 500 }],
        ),
        PlanetCommandData::Public(PublicCommands::ChangePopulation { pop_change }) => Ok(
            seq![
                if pop_change > 0 {
                    PlanetEventData::PopulationIncrease { pop: pop_change as u64 }
                } else {
                    let magnitude = (-(pop_change as int)) as u64;
                    if magnitude > s.pop {
                        PlanetEventData::PopulationDecrease { pop: s.pop }
                    } else {
                        PlanetEventData::PopulationDecrease { pop: magnitude }
                    }
                }
            ],
        ),
    }
}

/// Clamping boundary: a population decrease whose magnitude exceeds the
/// current population decides exactly one decrease event of the current
/// population, and applying that event brings the population to exactly
/// zero — never below.
pub proof fn lemma_decrease_clamped(s: PlanetData, c: PlanetCommand, e: PlanetEvent)
    requires
        c.data matches PlanetCommandData::Public(
            PublicCommands::ChangePopulation { pop_change },
        ) && pop_change <= 0 && -(pop_change as int) > s.pop,
        s.generation < u64::MAX,
        planet_decide(s, c) matches Ok(payloads) && e.data == payloads[0],
    ensures
        planet_decide(s, c) matches Ok(payloads) && payloads.len() == 1,
        e.data == (PlanetEventData::PopulationDecrease { pop: s.pop }),
        planet_apply_event(s, e) matches Ok(s2) && s2.pop == 0,
{
}

/// The events committed for one entity: the value attached to the first
/// entry of `s` that carries `id`, or the empty stream.
pub open spec fn sp_find_stream(s: Seq<(u128, Vec<PlanetEvent>)>, id: u128) -> Seq<PlanetEvent>
    decreases s.len(),
{
    if s.len() == 0 {
        Seq::empty()
    } else if s[0].0 == id {
        s[0].1@
    } else {
        sp_find_stream(s.skip(1), id)
    }
}

proof fn lemma_find_first(s: Seq<(u128, Vec<PlanetEvent>)>, id: u128, i: int)
    requires
        0 <= i < s.len(),
        s[i].0 == id,
        forall|j: int| 0 <= j < i ==> s[j].0 != id,
    ensures
        sp_find_stream(s, id) == s[i].1@,
    decreases i,
{
    if i > 0 {
        assert(s.skip(1)[i - 1] == s[i]);
        lemma_find_first(s.skip(1), id, i - 1);
    }
}

proof fn lemma_find_none(s: Seq<(u128, Vec<PlanetEvent>)>, id: u128)
    requires
        forall|j: int| 0 <= j < s.len() ==> s[j].0 != id,
    ensures
        sp_find_stream(s, id) == Seq::<PlanetEvent>::empty(),
    decreases s.len(),
{
    if s.len() > 0 {
        assert(forall|j: int| 0 <= j < s.skip(1).len() ==> s.skip(1)[j] == s[j + 1]);
        lemma_find_none(s.skip(1), id);
    }
}

proof fn lemma_find_update(
    s: Seq<(u128, Vec<PlanetEvent>)>,
    id: u128,
    i: int,
    entry: (u128, Vec<PlanetEvent>),
)
    requires
        0 <= i < s.len(),
        s[i].0 == id,
        forall|j: int| 0 <= j < i ==> s[j].0 != id,
        entry.0 == id,
    ensures
        sp_find_stream(s.update(i, entry), id) == entry.1@,
        forall|o: u128| o != id ==> sp_find_stream(s.update(i, entry), o) == sp_find_stream(s, o),
    decreases i,
{
    let s2 = s.update(i, entry);
    if i == 0 {
        assert(s2[0] == entry);
        assert(s2.skip(1) =~= s.skip(1));
        assert forall|o: u128| o != id implies sp_find_stream(s2, o) == sp_find_stream(s, o) by {
            assert(s2[0].0 == id);
            assert(s[0].0 == id);
        }
    } else {
        assert(s2[0] == s[0]);
        assert(s2.skip(1) =~= s.skip(1).update(i - 1, entry));
        assert(s.skip(1)[i - 1] == s[i]);
        assert(forall|j: int| 0 <= j < i - 1 ==> s.skip(1)[j] == s[j + 1]);
        lemma_find_update(s.skip(1), id, i - 1, entry);
        assert(sp_find_stream(s2, id) == entry.1@);
        assert forall|o: u128| o != id implies sp_find_stream(s2, o) == sp_find_stream(s, o) by {
            if s[0].0 != o {
                assert(sp_find_stream(s2, o) == sp_find_stream(s2.skip(1), o));
                assert(sp_find_stream(s, o) == sp_find_stream(s.skip(1), o));
            }
        }
    }
}

proof fn lemma_find_push(s: Seq<(u128, Vec<PlanetEvent>)>, entry: (u128, Vec<PlanetEvent>))
    requires
        forall|j: int| 0 <= j < s.len() ==> s[j].0 != entry.0,
    ensures
        sp_find_stream(s.push(entry), entry.0) == entry.1@,
        forall|o: u128|
            o != entry.0 ==> sp_find_stream(s.push(entry), o) == sp_find_stream(s, o),
    decreases s.len(),
{
    let s2 = s.push(entry);
    if s.len() == 0 {
        assert(s2[0] == entry);
        assert(s2.skip(1) =~= Seq::<(u128, Vec<PlanetEvent>)>::empty());
        assert forall|o: u128|
            o != entry.0 implies sp_find_stream(s2, o) == sp_find_stream(s, o) by {
            assert(sp_find_stream(s2, o) == sp_find_stream(s2.skip(1), o));
        }
    } else {
        assert(s2[0] == s[0]);
        assert(s2.skip(1) =~= s.skip(1).push(entry));
        assert(forall|j: int| 0 <= j < s.skip(1).len() ==> s.skip(1)[j] == s[j + 1]);
        lemma_find_push(s.skip(1), entry);
        assert(sp_find_stream(s2, entry.0) == entry.1@);
        assert forall|o: u128|
            o != entry.0 implies sp_find_stream(s2, o) == sp_find_stream(s, o) by {
            if s[0].0 != o {
                assert(sp_find_stream(s2, o) == sp_find_stream(s2.skip(1), o));
                assert(sp_find_stream(s, o) == sp_find_stream(s.skip(1), o));
            }
        }
    }
}

/// The planet aggregate over an in-memory append-only log: one entry per
/// entity, holding the entity's events in append order.
pub struct Planet {
    streams: Vec<(u128, Vec<PlanetEvent>)>,
}

impl Planet {
    /// A planet aggregate over an empty log.
    pub fn new() -> (p: Planet)
        ensures
            forall|id: u128| p.stream_of(id) == Seq::<PlanetEvent>::empty(),
    {
        let p = Planet { streams: Vec::new() };
        proof {
            assert forall|id: u128| p.stream_of(id) == Seq::<PlanetEvent>::empty() by {
                assert(p.streams@.len() == 0);
            }
        }
        p
    }

    /// The index of the entry that holds `subject`'s events, if any.
    fn find_index(&self, subject: u128) -> (r: Option<usize>)
        ensures
            r matches Some(i) ==> {
                &&& i < self.streams@.len()
                &&& self.streams@[i as int].0 == subject
                &&& forall|j: int| 0 <= j < i ==> self.streams@[j].0 != subject
                &&& sp_find_stream(self.streams@, subject) == self.streams@[i as int].1@
            },
            r is None ==> {
                &&& forall|j: int| 0 <= j < self.streams@.len() ==> self.streams@[j].0 != subject
                &&& sp_find_stream(self.streams@, subject) == Seq::<PlanetEvent>::empty()
            },
    {
        let mut i: usize = 0;
        while i < self.streams.len()
            invariant
                i <= self.streams@.len(),
                forall|j: int| 0 <= j < i ==> self.streams@[j].0 != subject,
            decreases self.streams@.len() - i,
        {
            if self.streams[i].0 == subject {
                proof {
                    lemma_find_first(self.streams@, subject, i as int);
                }
                return Some(i);
            }
            i = i + 1;
        }
        proof {
            lemma_find_none(self.streams@, subject);
        }
        None
    }
}

impl StateMachine for Planet {
    type Event = PlanetEvent;

    type Command = PlanetCommand;

    type State = PlanetData;

    open spec fn sp_apply_event(s: PlanetData, e: PlanetEvent) -> Result<PlanetData, Error> {
        planet_apply_event(s, e)
    }

    open spec fn sp_decide(s: PlanetData, c: PlanetCommand) -> Result<Seq<PlanetEventData>, Error> {
        planet_decide(s, c)
    }

    proof fn lemma_apply_event_generation(s: PlanetData, e: PlanetEvent) {
    }
}

impl Aggregate for Planet {
    closed spec fn stream_of(&self, aggregate_id: u128) -> Seq<PlanetEvent> {
        sp_find_stream(self.streams@, aggregate_id)
    }

    fn load_state(&self, subject: u128) -> (s: PlanetData)
        ensures
            s == <PlanetData as AggregateState>::sp_zero(),
    {
        let s = PlanetData::default();
        proof {
            assert(s.sp_generation() == 0);
            assert(s == <PlanetData as AggregateState>::sp_zero());
            let empty = Seq::<PlanetEvent>::empty();
            assert(self.stream_of(subject).take(0) =~= empty);
            assert(crate::aggregate::sp_apply_events::<Planet>(s, empty) == Ok::<
                PlanetData,
                Error,
            >(s));
        }
        s
    }

    fn save_state(&self, state: PlanetData) -> (r: Result<(), Error>)
        ensures
            r is Ok,
    {
        Ok(())
    }

    #[verifier::loop_isolation(false)]
    fn load_events(&self, subject: u128, generation: u64) -> (evts: Vec<PlanetEvent>) {
        let mut out: Vec<PlanetEvent> = Vec::new();
        match self.find_index(subject) {
            Some(i) => {
                let n = self.streams[i].1.len();
                assert(generation <= n);
                let mut k: usize = generation as usize;
                while k < n
                    invariant
                        generation <= k <= n,
                        out@ == self.streams@[i as int].1@.subrange(generation as int, k as int),
                    decreases n - k,
                {
                    out.push(self.streams[i].1[k]);
                    k = k + 1;
                }
                proof {
                    assert(out@ =~= self.stream_of(subject).skip(generation as int));
                }
                out
            },
            None => {
                proof {
                    assert(out@ =~= self.stream_of(subject).skip(generation as int));
                }
                out
            },
        }
    }

    #[verifier::loop_isolation(false)]
    fn save_events(&mut self, events: Vec<PlanetEvent>, expected_generation: u64) -> (r: Result<
        (),
        Error,
    >)
        ensures
            events@.len() == 0 ==> r is Ok,
            events@.len() > 0 && expected_generation == old(self).stream_of(
                events@[0].sp_metadata().aggregate_id,
            ).len() ==> r is Ok,
            r matches Err(e) ==> e == (Error { kind: Kind::StoreFailure { conflict: true } }),
    {
        if events.len() == 0 {
            return Ok(());
        }
        let subject = events[0].metadata.aggregate_id;
        match self.find_index(subject) {
            Some(i) => {
                let current = self.streams[i].1.len();
                if expected_generation != current as u64 {
                    return Err(Error { kind: Kind::StoreFailure { conflict: true } });
                }
                let ghost streams0 = self.streams@;
                let mut entry = self.streams.remove(i);
                let ghost oldvec = entry.1@;
                let mut k: usize = 0;
                while k < events.len()
                    invariant
                        k <= events@.len(),
                        entry.0 == subject,
                        entry.1@ == oldvec + events@.take(k as int),
                    decreases events@.len() - k,
                {
                    entry.1.push(events[k]);
                    proof {
                        assert(entry.1@ =~= oldvec + events@.take(k as int + 1));
                    }
                    k = k + 1;
                }
                proof {
                    assert(entry.1@ =~= oldvec + events@);
                }
                self.streams.insert(i, entry);
                proof {
                    assert(self.streams@ =~= streams0.update(i as int, entry));
                    lemma_find_update(streams0, subject, i as int, entry);
                }
                Ok(())
            },
            None => {
                if expected_generation != 0 {
                    return Err(Error { kind: Kind::StoreFailure { conflict: true } });
                }
                let ghost streams0 = self.streams@;
                let mut fresh: Vec<PlanetEvent> = Vec::new();
                let mut k: usize = 0;
                while k < events.len()
                    invariant
                        k <= events@.len(),
                        fresh@ == events@.take(k as int),
                    decreases events@.len() - k,
                {
                    fresh.push(events[k]);
                    proof {
                        assert(fresh@ =~= events@.take(k as int + 1));
                    }
                    k = k + 1;
                }
                proof {
                    assert(fresh@ =~= events@);
                }
                let ghost entry_ghost = (subject, fresh);
                self.streams.push((subject, fresh));
                proof {
                    assert(forall|j: int| 0 <= j < streams0.len() ==> streams0[j].0 != subject);
                    lemma_find_push(streams0, entry_ghost);
                    assert(self.stream_of(subject) =~= old(self).stream_of(subject) + events@);
                }
                Ok(())
            },
        }
    }

    fn apply_event(state: &PlanetData, evt: &PlanetEvent) -> (r: Result<PlanetData, Error>) {
        if state.generation == u64::MAX {
            return Err(Error { kind: Kind::ApplicationFailure });
        }
        match evt.data {
            PlanetEventData::PopulationCreate { pop } => Ok(
                PlanetData { generation: state.generation + 1, pop },
            ),
            PlanetEventData::PopulationIncrease { pop } => {
                if pop <= u64::MAX - state.pop {
                    Ok(PlanetData { generation: state.generation + 1, pop: state.pop + pop })
                } else {
                    Err(Error { kind: Kind::ApplicationFailure })
                }
            },
            PlanetEventData::PopulationDecrease { pop } => {
                if pop <= state.pop {
                    Ok(PlanetData { generation: state.generation + 1, pop: state.pop - pop })
                } else {
                    Err(Error { kind: Kind::ApplicationFailure })
                }
            },
        }
    }

    fn apply_command(state: &PlanetData, cmd: &PlanetCommand) -> (r: Result<
        Vec<PlanetEvent>,
        Error,
    >) {
        let data: PlanetEventData = match cmd.data {
            PlanetCommandData::Private(PrivateCommands::Census) => {
                PlanetEventData::PopulationIncrease { pop: 12 }
            },
            PlanetCommandData::Private(PrivateCommands::Create) => {
                PlanetEventData::PopulationCreate { pop: 500 }
            },
            PlanetCommandData::Public(PublicCommands::ChangePopulation { pop_change }) => {
                if pop_change > 0 {
                    PlanetEventData::PopulationIncrease { pop: pop_change as u64 }
                } else {
                    let magnitude: u64 = (-(pop_change as i128)) as u64;
                    if magnitude > state.pop {
                        PlanetEventData::PopulationDecrease { pop: state.pop }
                    } else {
                        PlanetEventData::PopulationDecrease { pop: magnitude }
                    }
                }
            },
        };
        let event = PlanetEvent::new(Metadata::new_for_event(cmd.get_metadata()), data);
        let out: Vec<PlanetEvent> = vec![event];
        proof {
            let payloads = planet_decide(*state, *cmd)->Ok_0;
            assert(out@ =~= seq![event]);
            assert(out@[0].sp_payload() == payloads[0]);
        }
        Ok(out)
    }
}

} // verus!
