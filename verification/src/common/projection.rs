//! Read models kept up to date from events.
use vstd::prelude::*;

use crate::common::aggregate::{Aggregate, Apply, Envelope, Key, model_of};
use crate::common::error::{ApplyError, ApplyErrorDetail, detail_of};

verus! {

/// A read model identified by a ULID.
pub trait Projection {
    spec fn spec_id(&self) -> u128;

    fn id(&self) -> (r: &u128)
        ensures
            *r == self.spec_id(),
    ;
}

/// A read model with lookup keys of its own.
pub trait MultiProjection: Projection {
    type Key: Key;
}

/// A read model that is the aggregate itself.
pub struct InlineProjection<A: Aggregate> {
    aggregate: A,
}

impl<A: Aggregate> InlineProjection<A> {
    pub closed spec fn spec_aggregate(&self) -> A::V {
        self.aggregate@
    }

    pub fn new(aggregate: A) -> (r: Self)
        ensures
            r.spec_aggregate() == aggregate@,
    {
        InlineProjection { aggregate }
    }
}

impl<A: Aggregate> Projection for InlineProjection<A> {
    closed spec fn spec_id(&self) -> u128 {
        A::model_id(self.aggregate@)
    }

    fn id(&self) -> (r: &u128) {
        self.aggregate.id()
    }
}

/// A store of inline projections failed.
#[derive(Debug)]
pub enum InlineProjectionStoreError {
    Internal(String),
}

/// Keeping an inline projection up to date failed.
#[derive(Debug)]
pub enum InlineProjectorError {
    Apply(ApplyErrorDetail),
    Internal(String),
    Store(InlineProjectionStoreError),
}

impl InlineProjectionStoreError {
    /// The text of the underlying failure.
    pub open spec fn text(&self) -> Seq<char> {
        match self {
            InlineProjectionStoreError::Internal(m) => m@,
        }
    }

    /// The text of the error.
    pub fn message(&self) -> (r: String)
        ensures
            r@ == self.text(),
    {
        match self {
            InlineProjectionStoreError::Internal(m) => m.clone(),
        }
    }
}

impl InlineProjectorError {
    /// `Inline Projector Error:` before a refusal or a failure, `Inline
    /// Prjector Store Error:` before a store's failure.
    pub open spec fn text(&self) -> Seq<char> {
        match self {
            InlineProjectorError::Apply(d) => "Inline Projector Error:"@ + d.message@,
            InlineProjectorError::Internal(m) => "Inline Projector Error:"@ + m@,
            InlineProjectorError::Store(e) => "Inline Prjector Store Error:"@ + e.text(),
        }
    }

    /// The text of the error.
    pub fn message(&self) -> (r: String)
        ensures
            r@ == self.text(),
    {
        match self {
            InlineProjectorError::Apply(d) => {
                let mut m = "Inline Projector Error:".to_owned();
                m.append(d.message);
                m
            },
            InlineProjectorError::Internal(t) => {
                let mut m = "Inline Projector Error:".to_owned();
                m.append(t.as_str());
                m
            },
            InlineProjectorError::Store(e) => {
                let mut m = "Inline Prjector Store Error:".to_owned();
                let t = e.message();
                m.append(t.as_str());
                m
            },
        }
    }
}

/// What to do with the stored copy of an aggregate after one event.
pub enum ProjectAction<A> {
    Save(A),
    Delete(u128),
}

/// Applies one stored event to the projected copy of aggregate `id`: an
/// aggregate that remains is saved, one that is gone is deleted, and a
/// refused event is reported.
pub fn project_step<A: Apply>(id: u128, current: Option<A>, envelope: Envelope<A>) -> (r: Result<
    ProjectAction<A>,
    InlineProjectorError,
>)
    ensures
        match A::next(model_of(current), envelope.spec_event()) {
            Ok(Some(m)) => r matches Ok(ProjectAction::Save(a)) && a@ == m,
            Ok(None) => r matches Ok(ProjectAction::Delete(i)) && i == id,
            Err(e) => r matches Err(InlineProjectorError::Apply(d)) && d.failure == e.spec_failure() && d.message@ == e.spec_message()
                && d.aggregate@ == A::Error::spec_aggregate_type(),
        },
{
    let mut aggregate = current;
    let event = envelope.event();
    match A::apply(&mut aggregate, &event) {
        Ok(()) => match aggregate {
            Some(a) => Ok(ProjectAction::Save(a)),
            None => Ok(ProjectAction::Delete(id)),
        },
        Err(e) => Err(InlineProjectorError::Apply(detail_of(&e))),
    }
}

} // verus!
