//! Aggregates, their events, and the context that applies and replays them.
use vstd::prelude::*;

use crate::common::error::{ApplyError, ApplyErrorDetail, AggregateNotFound, AggregateAlreadyExists, AggregateVersionConflict, RehydrateError, detail_of};
use crate::external::ulid_to_string;
use crate::external::ulid_text;

verus! {

/// A lookup key of an aggregate or a view; `unique` says whether at most one
/// record can carry it.
pub trait Key {
    spec fn spec_unique(&self) -> bool;

    fn unique(&self) -> (r: bool)
        ensures
            r == self.spec_unique(),
    ;
}

impl Key for () {
    open spec fn spec_unique(&self) -> bool {
        false
    }

    fn unique(&self) -> (r: bool) {
        false
    }
}

/// An event of an aggregate, with the name under which it is stored.
pub trait Event: Sized {
    spec fn spec_kind(&self) -> Seq<char>;

    fn kind(&self) -> (r: &'static str)
        ensures
            r@ == self.spec_kind(),
    ;
}

/// An event-sourced entity identified by a ULID (held as its 128-bit value).
pub trait Aggregate: Sized + View {
    type Event: Event;

    type Key: Key;

    spec fn model_id(m: Self::V) -> u128;

    spec fn spec_ty() -> Seq<char>;

    fn id(&self) -> (r: &u128)
        ensures
            *r == Self::model_id(self@),
    ;

    /// The full type name of the aggregate.
    fn ty() -> (r: &'static str)
        ensures
            r@ == Self::spec_ty(),
    ;
}

/// The model of an optional aggregate.
pub open spec fn model_of<A: View>(a: Option<A>) -> Option<A::V> {
    match a {
        Some(x) => Some(x@),
        None => None,
    }
}

/// An aggregate that changes by applying its events one at a time.
pub trait Apply: Aggregate {
    type Error: ApplyError;

    /// What applying `event` to `state` gives: the new state, or the refusal.
    spec fn next(state: Option<Self::V>, event: Self::Event) -> Result<
        Option<Self::V>,
        Self::Error,
    >;

    /// Applies `event`; a refused event leaves the aggregate as it was.
    fn apply(aggregate: &mut Option<Self>, event: &Self::Event) -> (r: Result<(), Self::Error>)
        ensures
            match Self::next(model_of(*old(aggregate)), *event) {
                Ok(s) => r is Ok && model_of(*final(aggregate)) == s,
                Err(e) => r == Err::<(), Self::Error>(e) && *final(aggregate) == *old(aggregate),
            },
    ;
}

/// How a run of events ends: all applied, or stopped by the event at an index.
pub enum Outcome<S, E> {
    Done(S),
    Stopped(S, nat, E),
}

/// The state reached by a run, whether it finished or stopped.
pub open spec fn outcome_state<S, E>(o: Outcome<S, E>) -> S {
    match o {
        Outcome::Done(s) => s,
        Outcome::Stopped(s, _, _) => s,
    }
}

/// How many events of a run of `n` were applied.
pub open spec fn outcome_count<S, E>(o: Outcome<S, E>, n: nat) -> nat {
    match o {
        Outcome::Done(_) => n,
        Outcome::Stopped(_, k, _) => k,
    }
}

/// Applies `events` in order from `start`, stopping at the first refused one.
pub open spec fn replay<A: Apply>(start: Option<A::V>, events: Seq<A::Event>) -> Outcome<
    Option<A::V>,
    A::Error,
>
    decreases events.len(),
{
    if events.len() == 0 {
        Outcome::Done(start)
    } else {
        match replay::<A>(start, events.drop_last()) {
            Outcome::Done(s) => match A::next(s, events.last()) {
                Ok(t) => Outcome::Done(t),
                Err(e) => Outcome::Stopped(s, (events.len() - 1) as nat, e),
            },
            stopped => stopped,
        }
    }
}

/// One event together with the version of the aggregate right after it.
#[derive(Debug)]
pub struct Envelope<A: Aggregate> {
    event: A::Event,
    version: u64,
}

impl<A: Aggregate> Envelope<A> {
    pub closed spec fn spec_event(&self) -> A::Event {
        self.event
    }

    pub closed spec fn spec_version(&self) -> u64 {
        self.version
    }

    pub fn new(event: A::Event, version: u64) -> (r: Self)
        ensures
            r.spec_event() == event,
            r.spec_version() == version,
    {
        Envelope { event, version }
    }

    pub fn version(&self) -> (r: u64)
        ensures
            r == self.spec_version(),
    {
        self.version
    }

    pub fn event(self) -> (r: A::Event)
        ensures
            r == self.spec_event(),
    {
        self.event
    }
}


impl AggregateNotFound {
    /// The aggregate type `A` has nothing under `id`.
    pub fn new<A: Aggregate>(id: &u128) -> (r: Self)
        ensures
            r.aggregate@ == A::spec_ty(),
            r.id@ == ulid_text(*id),
    {
        AggregateNotFound { aggregate: A::ty().to_owned(), id: ulid_to_string(*id) }
    }
}

impl AggregateAlreadyExists {
    /// An aggregate of type `A` already has `value` in `field`.
    pub fn new<A: Aggregate>(field: &str, value: &str) -> (r: Self)
        ensures
            r.aggregate@ == A::spec_ty(),
            r.field@ == field@,
            r.value@ == value@,
    {
        AggregateAlreadyExists {
            aggregate: A::ty().to_owned(),
            field: field.to_owned(),
            value: value.to_owned(),
        }
    }
}

impl AggregateVersionConflict {
    /// An aggregate of type `A` expected version `expected` next but stood at `actual`.
    pub fn new<A: Aggregate>(expected: u64, actual: u64) -> (r: Self)
        ensures
            r.aggregate@ == A::spec_ty(),
            r.expected == expected,
            r.version == actual,
    {
        AggregateVersionConflict { aggregate: A::ty().to_owned(), expected, version: actual }
    }
}

/// The result of replaying stored envelopes: all applied, a version out of
/// sequence at an index, or an event refused at an index.
pub enum Rebuild<S, E> {
    Done(S),
    Conflict(S, nat),
    Rejected(S, nat, E),
}

/// The state a rebuild reached, however it ended.
pub open spec fn rebuild_state<S, E>(o: Rebuild<S, E>) -> S {
    match o {
        Rebuild::Done(s) => s,
        Rebuild::Conflict(s, _) => s,
        Rebuild::Rejected(s, _, _) => s,
    }
}

/// How many envelopes of a run of `n` were applied.
pub open spec fn rebuild_count<S, E>(o: Rebuild<S, E>, n: nat) -> nat {
    match o {
        Rebuild::Done(_) => n,
        Rebuild::Conflict(_, k) => k,
        Rebuild::Rejected(_, k, _) => k,
    }
}

/// Replays `envs` from `start` at `version`: the envelope at index `k` must
/// carry version `version + k + 1`, and its event must be accepted.
pub open spec fn rebuild<A: Apply>(start: Option<A::V>, version: int, envs: Seq<Envelope<A>>) -> Rebuild<
    Option<A::V>,
    A::Error,
>
    decreases envs.len(),
{
    if envs.len() == 0 {
        Rebuild::Done(start)
    } else {
        let k = envs.len() - 1;
        match rebuild::<A>(start, version, envs.drop_last()) {
            Rebuild::Done(s) => if envs.last().spec_version() != version + k + 1 {
                Rebuild::Conflict(s, k as nat)
            } else {
                match A::next(s, envs.last().spec_event()) {
                    Ok(t) => Rebuild::Done(t),
                    Err(e) => Rebuild::Rejected(s, k as nat, e),
                }
            },
            other => other,
        }
    }
}

/// The error `rehydrate` reports for a run that did not finish, the context
/// having started at `version`: a conflict names the version expected and the
/// one reached; a refusal carries the aggregate's type and the reason.
pub open spec fn rebuild_error<A: Apply>(run: Rebuild<Option<A::V>, A::Error>, version: int, e: RehydrateError) -> bool {
    match run {
        Rebuild::Done(_) => false,
        Rebuild::Conflict(_, c) => e matches RehydrateError::Conflict(x) && x.aggregate@ == A::spec_ty()
            && x.expected == version + c + 1 && x.version == version + c,
        Rebuild::Rejected(_, _, f) => e matches RehydrateError::Apply(d) && d.failure == f.spec_failure() && d.message@ == f.spec_message()
            && d.aggregate@ == A::Error::spec_aggregate_type(),
    }
}

/// An aggregate being worked on: its id, its current state, the envelopes
/// recorded since it was loaded, and its version.
pub struct Context<A: Aggregate> {
    stream: u128,
    aggregate: Option<A>,
    events: Vec<Envelope<A>>,
    version: u64,
}

impl<A: Aggregate> Context<A> {
    pub closed spec fn spec_stream(&self) -> u128 {
        self.stream
    }

    pub closed spec fn state(&self) -> Option<A::V> {
        model_of(self.aggregate)
    }

    pub closed spec fn pending(&self) -> Seq<Envelope<A>> {
        self.events@
    }

    pub closed spec fn spec_version(&self) -> u64 {
        self.version
    }
}

proof fn lemma_replay_prefix<A: Apply>(start: Option<A::V>, events: Seq<A::Event>, i: int)
    requires
        0 <= i < events.len(),
    ensures
        events.take(i + 1).drop_last() == events.take(i),
        events.take(i + 1).last() == events[i],
        events.take(i + 1).len() == i + 1,
{
    assert(events.take(i + 1).drop_last() =~= events.take(i));
}

proof fn lemma_replay_stopped_stays<A: Apply>(start: Option<A::V>, events: Seq<A::Event>, i: int)
    requires
        0 <= i <= events.len(),
        replay::<A>(start, events.take(i)) is Stopped,
    ensures
        replay::<A>(start, events) == replay::<A>(start, events.take(i)),
    decreases events.len() - i,
{
    if i == events.len() {
        assert(events.take(i) =~= events);
    } else {
        lemma_replay_prefix::<A>(start, events, i);
        lemma_replay_stopped_stays::<A>(start, events, i + 1);
    }
}

proof fn lemma_rebuild_prefix<A: Apply>(start: Option<A::V>, version: int, envs: Seq<Envelope<A>>, i: int)
    requires
        0 <= i <= envs.len(),
        !(rebuild::<A>(start, version, envs.take(i)) is Done),
    ensures
        rebuild::<A>(start, version, envs) == rebuild::<A>(start, version, envs.take(i)),
    decreases envs.len() - i,
{
    if i == envs.len() {
        assert(envs.take(i) =~= envs);
    } else {
        assert(envs.take(i + 1).drop_last() =~= envs.take(i));
        lemma_rebuild_prefix::<A>(start, version, envs, i + 1);
    }
}

impl<A: Apply> Context<A> {
    /// A context for `id` with no aggregate, no events and version 0.
    pub fn empty(id: u128) -> (r: Self)
        ensures
            r.spec_stream() == id,
            r.state() is None,
            r.pending().len() == 0,
            r.spec_version() == 0,
    {
        Context { stream: id, aggregate: None, events: Vec::new(), version: 0 }
    }

    pub fn id(&self) -> (r: &u128)
        ensures
            *r == self.spec_stream(),
    {
        &self.stream
    }

    /// The version reached: the number of events applied since version 0.
    pub fn version(&self) -> (r: u64)
        ensures
            r == self.spec_version(),
    {
        self.version
    }

    pub fn as_aggregate(&self) -> (r: Option<&A>)
        ensures
            match r {
                Some(a) => self.state() == Some(a@),
                None => self.state() is None,
            },
    {
        self.aggregate.as_ref()
    }

    pub fn to_aggregate(self) -> (r: Option<A>)
        ensures
            model_of(r) == self.state(),
    {
        self.aggregate
    }

    /// Applies `events` in order, recording each applied one in an envelope
    /// that carries the next version. At the first refused event the refusal
    /// is returned and the events before it stay applied and recorded.
    pub fn apply(&mut self, events: Vec<A::Event>) -> (r: Result<(), A::Error>)
        requires
            old(self).spec_version() + events@.len() <= u64::MAX,
        ensures
            ({
                let run = replay::<A>(old(self).state(), events@);
                let k = outcome_count(run, events@.len());
                let n0 = old(self).pending().len();
                &&& final(self).spec_stream() == old(self).spec_stream()
                &&& final(self).state() == outcome_state(run)
                &&& final(self).spec_version() == old(self).spec_version() + k
                &&& final(self).pending().len() == n0 + k
                &&& forall|j: int| 0 <= j < n0 ==> final(self).pending()[j] == old(self).pending()[j]
                &&& forall|j: int| 0 <= j < k ==> {
                    &&& (#[trigger] final(self).pending()[n0 + j]).spec_event() == events@[j]
                    &&& final(self).pending()[n0 + j].spec_version() == old(self).spec_version() + j + 1
                }
                &&& match run {
                    Outcome::Done(_) => r is Ok,
                    Outcome::Stopped(_, _, e) => r == Err::<(), A::Error>(e),
                }
            }),
    {
        let ghost all = events@;
        let ghost start = self.state();
        let ghost v0 = self.version;
        let ghost p0 = self.events@;
        let mut rest = events;
        let _n = rest.len();
        let mut i: usize = 0;
        let mut result: Result<(), A::Error> = Ok(());
        proof {
            assert(all.take(0) =~= Seq::<A::Event>::empty());
            assert(all.skip(0) =~= all);
        }
        while result.is_ok() && rest.len() > 0
            invariant
                i <= all.len(),
                all.len() <= usize::MAX,
                result is Ok ==> rest@ == all.skip(i as int),
                result is Ok ==> replay::<A>(start, all.take(i as int)) == Outcome::<Option<A::V>, A::Error>::Done(model_of(self.aggregate)),
                result matches Err(e) ==> replay::<A>(start, all) == Outcome::<Option<A::V>, A::Error>::Stopped(model_of(self.aggregate), i as nat, e),
                self.version == v0 + i,
                v0 + all.len() <= u64::MAX,
                self.events@.len() == p0.len() + i,
                forall|j: int| 0 <= j < p0.len() ==> self.events@[j] == p0[j],
                forall|j: int| 0 <= j < i ==> {
                    &&& (#[trigger] self.events@[p0.len() + j]).spec_event() == all[j]
                    &&& self.events@[p0.len() + j].spec_version() == v0 + j + 1
                },
                self.stream == old(self).stream,
            decreases rest.len(), if result is Ok { 1int } else { 0int },
        {
            let event = rest.remove(0);
            let ghost s0 = model_of(self.aggregate);
            proof {
                assert(event == all[i as int]);
                assert(rest@ =~= all.skip(i + 1));
                lemma_replay_prefix::<A>(start, all, i as int);
            }
            match A::apply(&mut self.aggregate, &event) {
                Ok(()) => {
                    self.version = self.version + 1;
                    self.events.push(Envelope::new(event, self.version));
                    i = i + 1;
                },
                Err(e) => {
                    proof {
                        assert(A::next(s0, all[i as int]) == Err::<Option<A::V>, A::Error>(e));
                        assert(replay::<A>(start, all.take(i + 1)) == Outcome::<Option<A::V>, A::Error>::Stopped(s0, i as nat, e));
                        lemma_replay_stopped_stays::<A>(start, all, i + 1);
                    }
                    result = Err(e);
                },
            }
        }
        proof {
            if result is Ok {
                assert(all.take(all.len() as int) =~= all);
            }
        }
        result
    }

    /// Replays stored envelopes: each must carry the version that follows the
    /// context's, and its event is applied (and recorded) as `apply` does.
    /// A version out of sequence gives `Conflict`; a refused event gives `Apply`.
    pub fn rehydrate(&mut self, envelopes: Vec<Envelope<A>>) -> (r: Result<(), RehydrateError>)
        requires
            old(self).spec_version() + envelopes@.len() <= u64::MAX,
        ensures
            ({
                let run = rebuild::<A>(old(self).state(), old(self).spec_version() as int, envelopes@);
                let k = rebuild_count(run, envelopes@.len());
                let n0 = old(self).pending().len();
                &&& final(self).spec_stream() == old(self).spec_stream()
                &&& final(self).state() == rebuild_state(run)
                &&& final(self).spec_version() == old(self).spec_version() + k
                &&& final(self).pending() == old(self).pending() + envelopes@.take(k as int)
                &&& match run {
                    Rebuild::Done(_) => r is Ok,
                    _ => r matches Err(e) && rebuild_error::<A>(run, old(self).spec_version() as int, e),
                }
            }),
    {
        let ghost all = envelopes@;
        let ghost start = self.state();
        let ghost v0 = self.version;
        let ghost p0 = self.events@;
        let mut rest = envelopes;
        let _n = rest.len();
        let mut i: usize = 0;
        let mut result: Result<(), RehydrateError> = Ok(());
        proof {
            assert(all.take(0) =~= Seq::<Envelope<A>>::empty());
            assert(all.skip(0) =~= all);
            assert(p0 + all.take(0) =~= p0);
        }
        while result.is_ok() && rest.len() > 0
            invariant
                i <= all.len(),
                all.len() <= usize::MAX,
                result is Ok ==> rest@ == all.skip(i as int),
                result is Ok ==> rebuild::<A>(start, v0 as int, all.take(i as int)) == Rebuild::<Option<A::V>, A::Error>::Done(self.state()),
                !(result is Ok) ==> ({
                    let run = rebuild::<A>(start, v0 as int, all);
                    &&& rebuild_state(run) == self.state()
                    &&& rebuild_count(run, all.len()) == i
                    &&& result matches Err(e) && rebuild_error::<A>(run, v0 as int, e)
                }),
                self.version == v0 + i,
                v0 + all.len() <= u64::MAX,
                self.events@ == p0 + all.take(i as int),
                self.stream == old(self).stream,
            decreases rest.len(), if result is Ok { 1int } else { 0int },
        {
            let envelope = rest.remove(0);
            let ghost env = envelope;
            proof {
                assert(envelope == all[i as int]);
                assert(rest@ =~= all.skip(i + 1));
                assert(all.take(i + 1).drop_last() =~= all.take(i as int));
                assert(all.take(i + 1).last() == all[i as int]);
            }
            let expected = self.version + 1;
            if envelope.version() != expected {
                proof {
                    assert(rebuild::<A>(start, v0 as int, all.take(i + 1)) == Rebuild::<Option<A::V>, A::Error>::Conflict(self.state(), i as nat));
                    lemma_rebuild_prefix::<A>(start, v0 as int, all, i + 1);
                }
                result = Err(RehydrateError::Conflict(AggregateVersionConflict::new::<A>(expected, self.version)));
            } else {
                let ghost s0 = self.state();
                let mut batch: Vec<A::Event> = Vec::new();
                batch.push(envelope.event());
                proof {
                    assert(batch@ =~= seq![env.spec_event()]);
                    law_replay_single::<A>(s0, env.spec_event());
                    match A::next(s0, env.spec_event()) {
                        Ok(t) => {
                            assert(rebuild::<A>(start, v0 as int, all.take(i + 1)) == Rebuild::<Option<A::V>, A::Error>::Done(t));
                        },
                        Err(e) => {
                            assert(rebuild::<A>(start, v0 as int, all.take(i + 1)) == Rebuild::<Option<A::V>, A::Error>::Rejected(s0, i as nat, e));
                        },
                    }
                }
                match self.apply(batch) {
                    Ok(()) => {
                        proof {
                            let last = self.pending()[p0.len() + i + 0];
                            assert(last.spec_event() == env.spec_event());
                            assert(last.spec_version() == env.spec_version());
                            assert(last == env);
                            assert(self.events@ =~= p0 + all.take(i + 1));
                        }
                        i = i + 1;
                    },
                    Err(e) => {
                        proof {
                            lemma_rebuild_prefix::<A>(start, v0 as int, all, i + 1);
                        }
                        result = Err(RehydrateError::Apply(detail_of(&e)));
                    },
                }
            }
        }
        proof {
            if result is Ok {
                assert(all.take(all.len() as int) =~= all);
            }
        }
        result
    }
}


/// An aggregate saved together with the version it had.
pub struct SnapShot<A: Aggregate> {
    aggregate: A,
    version: u64,
}

impl<A: Aggregate> SnapShot<A> {
    pub closed spec fn spec_aggregate(&self) -> A::V {
        self.aggregate@
    }

    pub closed spec fn spec_version(&self) -> u64 {
        self.version
    }

    pub fn new(aggregate: A, version: u64) -> (r: Self)
        ensures
            r.spec_aggregate() == aggregate@,
            r.spec_version() == version,
    {
        SnapShot { aggregate, version }
    }

    pub fn id(&self) -> (r: &u128)
        ensures
            *r == A::model_id(self.spec_aggregate()),
    {
        self.aggregate.id()
    }

    pub fn to_aggregate(self) -> (r: A)
        ensures
            r@ == self.spec_aggregate(),
    {
        self.aggregate
    }

    pub fn version(&self) -> (r: u64)
        ensures
            r == self.spec_version(),
    {
        self.version
    }
}

impl<A: Apply> Context<A> {
    /// A context that starts from a snapshot: its aggregate and version, no
    /// recorded envelopes.
    pub fn from_snapshot(snapshot: SnapShot<A>) -> (r: Self)
        ensures
            r.spec_stream() == A::model_id(snapshot.spec_aggregate()),
            r.state() == Some(snapshot.spec_aggregate()),
            r.pending().len() == 0,
            r.spec_version() == snapshot.spec_version(),
    {
        let stream = *snapshot.id();
        let version = snapshot.version();
        let aggregate = snapshot.to_aggregate();
        Context { stream, aggregate: Some(aggregate), events: Vec::new(), version }
    }

    /// Hands out the recorded envelopes, leaving none behind.
    pub fn take_pending(&mut self) -> (r: Vec<Envelope<A>>)
        ensures
            r@ == old(self).pending(),
            final(self).pending().len() == 0,
            final(self).spec_stream() == old(self).spec_stream(),
            final(self).state() == old(self).state(),
            final(self).spec_version() == old(self).spec_version(),
    {
        let mut out: Vec<Envelope<A>> = Vec::new();
        std::mem::swap(&mut out, &mut self.events);
        out
    }
}

/// `after` is `before` with `event` applied and recorded as the next version.
pub open spec fn recorded_one<A: Aggregate>(before: Context<A>, after: Context<A>, event: A::Event) -> bool {
    &&& after.spec_stream() == before.spec_stream()
    &&& after.spec_version() == before.spec_version() + 1
    &&& after.pending().len() == before.pending().len() + 1
    &&& after.pending().drop_last() == before.pending()
    &&& after.pending().last().spec_event() == event
    &&& after.pending().last().spec_version() == after.spec_version()
}

impl<A: Apply> Context<A> {
    /// Applies and records one event; a refused event changes nothing.
    pub(crate) fn apply_event(&mut self, event: A::Event) -> (r: Result<(), A::Error>)
        requires
            old(self).spec_version() < u64::MAX,
        ensures
            match A::next(old(self).state(), event) {
                Ok(s) => r is Ok && final(self).state() == s && recorded_one(*old(self), *final(self), event),
                Err(e) => r == Err::<(), A::Error>(e) && final(self).state() == old(self).state()
                    && final(self).spec_version() == old(self).spec_version() && final(self).pending()
                    == old(self).pending() && final(self).spec_stream() == old(self).spec_stream(),
            },
    {
        let ghost before = *self;
        let mut batch: Vec<A::Event> = Vec::new();
        batch.push(event);
        proof {
            assert(batch@ =~= seq![event]);
            law_replay_single::<A>(before.state(), event);
        }
        let r = self.apply(batch);
        proof {
            if r is Ok {
                assert(self.pending().drop_last() =~= before.pending());
                assert(self.pending()[before.pending().len() as int + 0] == self.pending().last());
            } else {
                assert(self.pending() =~= before.pending());
            }
        }
        r
    }
}

/// A run of one event is that event's step: its new state, or a stop at
/// index 0 with the refusal and the state unchanged.
pub proof fn law_replay_single<A: Apply>(start: Option<A::V>, event: A::Event)
    ensures
        replay::<A>(start, seq![event]) == match A::next(start, event) {
            Ok(t) => Outcome::<Option<A::V>, A::Error>::Done(t),
            Err(e) => Outcome::<Option<A::V>, A::Error>::Stopped(start, 0, e),
        },
{
    let one = seq![event];
    assert(one.drop_last() =~= Seq::<A::Event>::empty());
    assert(one.last() == event);
    assert(replay::<A>(start, one.drop_last()) == Outcome::<Option<A::V>, A::Error>::Done(start));
}

/// A stop index moved `n` places later.
pub open spec fn shift_outcome<S, E>(o: Outcome<S, E>, n: nat) -> Outcome<S, E> {
    match o {
        Outcome::Done(s) => Outcome::Done(s),
        Outcome::Stopped(s, k, e) => Outcome::Stopped(s, k + n, e),
    }
}

proof fn lemma_replay_stopped_prefix<A: Apply>(start: Option<A::V>, events: Seq<A::Event>)
    requires
        replay::<A>(start, events) is Stopped,
    ensures
        ({
            let run = replay::<A>(start, events);
            let k = outcome_count(run, events.len());
            &&& k < events.len()
            &&& replay::<A>(start, events.take(k as int)) == Outcome::<Option<A::V>, A::Error>::Done(outcome_state(run))
        }),
    decreases events.len(),
{
    let init = events.drop_last();
    match replay::<A>(start, init) {
        Outcome::Done(s) => {
            assert(events.take(events.len() - 1) =~= init);
        },
        Outcome::Stopped(s, k, e) => {
            lemma_replay_stopped_prefix::<A>(start, init);
            assert(init.take(k as int) =~= events.take(k as int));
        },
    }
}

/// Applying two batches one after the other is applying their concatenation:
/// the second batch starts from where the first ended, and a batch that stops
/// early stops the whole run at the same event.
pub proof fn law_replay_concat<A: Apply>(start: Option<A::V>, a: Seq<A::Event>, b: Seq<A::Event>)
    ensures
        replay::<A>(start, a + b) == match replay::<A>(start, a) {
            Outcome::Done(s) => shift_outcome(replay::<A>(s, b), a.len()),
            stopped => stopped,
        },
    decreases b.len(),
{
    if b.len() == 0 {
        assert(a + b =~= a);
    } else {
        law_replay_concat::<A>(start, a, b.drop_last());
        assert((a + b).drop_last() =~= a + b.drop_last());
        assert((a + b).last() == b.last());
    }
}

/// Replaying the envelopes that `apply` recorded rebuilds what `apply` built:
/// starting from the same state and version, `rehydrate` applies every one of
/// them (no version conflict, no refusal) and reaches the same state. This
/// holds for a batch that stopped early too, with the envelopes it did record.
pub proof fn law_recorded_events_rebuild<A: Apply>(
    start: Option<A::V>,
    version: int,
    events: Seq<A::Event>,
    recorded: Seq<Envelope<A>>,
)
    requires
        recorded.len() == outcome_count(replay::<A>(start, events), events.len()),
        forall|j: int|
            0 <= j < recorded.len() ==> (#[trigger] recorded[j]).spec_event() == events[j]
                && recorded[j].spec_version() == version + j + 1,
    ensures
        rebuild::<A>(start, version, recorded) == Rebuild::<Option<A::V>, A::Error>::Done(
            outcome_state(replay::<A>(start, events)),
        ),
{
    let run = replay::<A>(start, events);
    let k = outcome_count(run, events.len());
    if run is Stopped {
        lemma_replay_stopped_prefix::<A>(start, events);
    } else {
        assert(events.take(k as int) =~= events);
    }
    lemma_rebuild_done::<A>(start, version, events.take(k as int), recorded);
}

proof fn lemma_rebuild_done<A: Apply>(
    start: Option<A::V>,
    version: int,
    events: Seq<A::Event>,
    recorded: Seq<Envelope<A>>,
)
    requires
        replay::<A>(start, events) is Done,
        recorded.len() == events.len(),
        forall|j: int|
            0 <= j < recorded.len() ==> (#[trigger] recorded[j]).spec_event() == events[j]
                && recorded[j].spec_version() == version + j + 1,
    ensures
        rebuild::<A>(start, version, recorded) == Rebuild::<Option<A::V>, A::Error>::Done(
            outcome_state(replay::<A>(start, events)),
        ),
    decreases events.len(),
{
    if events.len() > 0 {
        let init = events.drop_last();
        let rinit = recorded.drop_last();
        if replay::<A>(start, init) is Stopped {
            assert(replay::<A>(start, events) is Stopped);
        }
        assert forall|j: int| 0 <= j < rinit.len() implies (#[trigger] rinit[j]).spec_event() == init[j]
            && rinit[j].spec_version() == version + j + 1 by {
            assert(rinit[j] == recorded[j]);
        }
        lemma_rebuild_done::<A>(start, version, init, rinit);
        assert(recorded.last() == recorded[recorded.len() - 1]);
    }
}

/// A rebuild's stop index moved `n` places later.
pub open spec fn shift_rebuild<S, E>(o: Rebuild<S, E>, n: nat) -> Rebuild<S, E> {
    match o {
        Rebuild::Done(s) => Rebuild::Done(s),
        Rebuild::Conflict(s, k) => Rebuild::Conflict(s, k + n),
        Rebuild::Rejected(s, k, e) => Rebuild::Rejected(s, k + n, e),
    }
}

/// Replaying two runs of envelopes one after the other is replaying their
/// concatenation: the second run starts from the state and the version the
/// first reached, and a first run that stops stops the whole at the same place.
pub proof fn law_rebuild_concat<A: Apply>(start: Option<A::V>, version: int, a: Seq<Envelope<A>>, b: Seq<Envelope<A>>)
    ensures
        rebuild::<A>(start, version, a + b) == match rebuild::<A>(start, version, a) {
            Rebuild::Done(s) => shift_rebuild(rebuild::<A>(s, version + a.len(), b), a.len()),
            other => other,
        },
    decreases b.len(),
{
    if b.len() == 0 {
        assert(a + b =~= a);
    } else {
        law_rebuild_concat::<A>(start, version, a, b.drop_last());
        assert((a + b).drop_last() =~= a + b.drop_last());
        assert((a + b).last() == b.last());
    }
}

/// Starting from a snapshot gives what replaying the whole stream gives: if
/// the first `k` envelopes of `stream` rebuild the snapshot's state `snap`,
/// then replaying the rest from `snap` at version `k` reaches the same state,
/// succeeds exactly when the full replay does, and reports the same error.
pub proof fn law_snapshot_rebuild<A: Apply>(stream: Seq<Envelope<A>>, k: int, snap: Option<A::V>)
    requires
        0 <= k <= stream.len(),
        rebuild::<A>(None, 0, stream.take(k)) == Rebuild::<Option<A::V>, A::Error>::Done(snap),
    ensures
        rebuild::<A>(None, 0, stream) == shift_rebuild(rebuild::<A>(snap, k, stream.skip(k)), k as nat),
        rebuild_state(rebuild::<A>(None, 0, stream)) == rebuild_state(rebuild::<A>(snap, k, stream.skip(k))),
        (rebuild::<A>(None, 0, stream) is Done) == (rebuild::<A>(snap, k, stream.skip(k)) is Done),
        forall|e: RehydrateError| rebuild_error::<A>(rebuild::<A>(None, 0, stream), 0, e) == rebuild_error::<A>(
            rebuild::<A>(snap, k, stream.skip(k)),
            k,
            e,
        ),
{
    assert(stream.take(k) + stream.skip(k) =~= stream);
    law_rebuild_concat::<A>(None, 0, stream.take(k), stream.skip(k));
}

} // verus!
