//! The steps that load, replay and commit a context, without the store calls.
use vstd::prelude::*;

use crate::common::aggregate::{Apply, Context, Envelope, SnapShot, rebuild, rebuild_error, rebuild_state};
use crate::common::error::{AggregateFetcherError, EventFetcherError, RehydrateError, SnapShotFetcherError};

verus! {

impl<A: Apply> Context<A> {
    /// Hands the context to a committer of its recorded envelopes.
    pub fn commit(self) -> (r: EventCommiter<A>)
        ensures
            r.spec_context() == self,
    {
        EventCommiter::new(self)
    }

    /// A request for the events of stream `id` from `version` on.
    pub fn events(id: u128, version: u64) -> (r: Result<EventFetcher<A>, EventFetcherError>)
        ensures
            r matches Ok(f) && f.spec_id() == id && f.spec_version() == version,
    {
        Ok(EventFetcher::new(id, version))
    }

    /// A rebuilder of aggregate `id` from its whole stream.
    pub fn fetch(id: u128) -> (r: AggregateFetcher<A>)
        ensures
            r.spec_id() == id,
    {
        AggregateFetcher::new(id)
    }
}

/// The recorded envelopes of a context, ready to be written.
pub struct EventCommiter<A: Apply> {
    context: Context<A>,
}

impl<A: Apply> EventCommiter<A> {
    pub closed spec fn spec_context(&self) -> Context<A> {
        self.context
    }

    pub fn new(context: Context<A>) -> (r: Self)
        ensures
            r.spec_context() == context,
    {
        EventCommiter { context }
    }

    /// The stream id and the envelopes to write to it; the envelopes leave the
    /// context, so a second call hands out none.
    pub fn batch(&mut self) -> (r: (u128, Vec<Envelope<A>>))
        ensures
            r.0 == old(self).spec_context().spec_stream(),
            r.1@ == old(self).spec_context().pending(),
            final(self).spec_context().pending().len() == 0,
            final(self).spec_context().spec_stream() == old(self).spec_context().spec_stream(),
    {
        let events = self.context.take_pending();
        let id = *self.context.id();
        (id, events)
    }
}

/// A request for the events of one stream from a version on.
pub struct EventFetcher<A: Apply> {
    id: u128,
    version: u64,
    _marker: std::marker::PhantomData<A>,
}

impl<A: Apply> EventFetcher<A> {
    pub closed spec fn spec_id(&self) -> u128 {
        self.id
    }

    pub closed spec fn spec_version(&self) -> u64 {
        self.version
    }

    pub fn new(id: u128, version: u64) -> (r: Self)
        ensures
            r.spec_id() == id,
            r.spec_version() == version,
    {
        EventFetcher { id, version, _marker: std::marker::PhantomData }
    }

    pub fn id(&self) -> (r: u128)
        ensures
            r == self.spec_id(),
    {
        self.id
    }

    pub fn version(&self) -> (r: u64)
        ensures
            r == self.spec_version(),
    {
        self.version
    }
}

/// Rebuilds an aggregate by replaying its whole stream into an empty context.
pub struct AggregateFetcher<A: Apply> {
    id: u128,
    _marker: std::marker::PhantomData<A>,
}

impl<A: Apply> AggregateFetcher<A> {
    pub closed spec fn spec_id(&self) -> u128 {
        self.id
    }

    pub fn new(id: u128) -> (r: Self)
        ensures
            r.spec_id() == id,
    {
        AggregateFetcher { id, _marker: std::marker::PhantomData }
    }

    pub fn id(&self) -> (r: u128)
        ensures
            r == self.spec_id(),
    {
        self.id
    }

    /// The stream is read from its start.
    pub fn from_version(&self) -> (r: u64)
        ensures
            r == 0,
    {
        0
    }

    /// Replays `envelopes` (the whole stream) into an empty context for the id.
    pub fn rebuild(&self, envelopes: Vec<Envelope<A>>) -> (r: Result<Context<A>, AggregateFetcherError>)
        ensures
            ({
                let run = rebuild::<A>(None, 0, envelopes@);
                match r {
                    Ok(ctx) => run is Done && ctx.spec_stream() == self.spec_id() && ctx.state()
                        == rebuild_state(run) && ctx.spec_version() == envelopes@.len() && ctx.pending()
                        == envelopes@,
                    Err(AggregateFetcherError::Rehydrate(e)) => !(run is Done) && rebuild_error::<A>(run, 0, e),
                    Err(_) => false,
                }
            }),
    {
        let _n = envelopes.len();
        let mut ctx = Context::<A>::empty(self.id);
        let ghost n = envelopes@.len();
        let ghost all = envelopes@;
        match ctx.rehydrate(envelopes) {
            Ok(()) => {
                proof {
                    assert(all.take(n as int) =~= all);
                    assert(Seq::<Envelope<A>>::empty() + all =~= all);
                }
                Ok(ctx)
            },
            Err(e) => Err(AggregateFetcherError::Rehydrate(e)),
        }
    }
}

/// Rebuilds an aggregate from its latest snapshot, if any, and the events after it.
pub struct SnapShotFetcher<A: Apply> {
    id: u128,
    _marker: std::marker::PhantomData<A>,
}

impl<A: Apply> SnapShotFetcher<A> {
    pub closed spec fn spec_id(&self) -> u128 {
        self.id
    }

    pub fn new(id: u128) -> (r: Self)
        ensures
            r.spec_id() == id,
    {
        SnapShotFetcher { id, _marker: std::marker::PhantomData }
    }

    /// The context to replay into: the snapshot's, or an empty one for the id.
    pub fn start(&self, snapshot: Option<SnapShot<A>>) -> (r: Context<A>)
        ensures
            match snapshot {
                Some(s) => r.state() == Some(s.spec_aggregate()) && r.spec_version() == s.spec_version()
                    && r.spec_stream() == A::model_id(s.spec_aggregate()),
                None => r.state() is None && r.spec_version() == 0 && r.spec_stream() == self.spec_id(),
            },
            r.pending().len() == 0,
    {
        match snapshot {
            Some(snap) => Context::<A>::from_snapshot(snap),
            None => Context::<A>::empty(self.id),
        }
    }

    /// Replays the events read after the starting version into the context.
    pub fn finish(&self, ctx: Context<A>, envelopes: Vec<Envelope<A>>) -> (r: Result<Context<A>, SnapShotFetcherError>)
        requires
            ctx.spec_version() + envelopes@.len() <= u64::MAX,
        ensures
            ({
                let run = rebuild::<A>(ctx.state(), ctx.spec_version() as int, envelopes@);
                match r {
                    Ok(c) => run is Done && c.spec_stream() == ctx.spec_stream() && c.state()
                        == rebuild_state(run) && c.spec_version() == ctx.spec_version() + envelopes@.len()
                        && c.pending() == ctx.pending() + envelopes@,
                    Err(SnapShotFetcherError::Rehydrate(e)) => !(run is Done) && rebuild_error::<A>(
                        run,
                        ctx.spec_version() as int,
                        e,
                    ),
                    Err(_) => false,
                }
            }),
    {
        let mut ctx = ctx;
        let ghost all = envelopes@;
        match ctx.rehydrate(envelopes) {
            Ok(()) => {
                proof {
                    assert(all.take(all.len() as int) =~= all);
                }
                Ok(ctx)
            },
            Err(e) => Err(SnapShotFetcherError::Rehydrate(e)),
        }
    }
}

} // verus!
