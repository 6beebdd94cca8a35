//! Errors raised while applying, replaying, reading and writing events.
use vstd::prelude::*;

use crate::text::{decimal, push_decimal};

verus! {

/// Why an event could not be applied to an aggregate.
#[derive(Debug, Clone, Copy, PartialEq, Eq, Structural)]
pub enum ApplyFailure {
    /// A creating event met an aggregate that already exists.
    MustBeNone,
    /// A changing event met an aggregate that does not exist.
    CannotBeNone,
    /// An author-only change came from someone who is not the author.
    AuthorMismatch,
}

/// What any aggregate's apply error says: the aggregate's type, the reason,
/// and the text the aggregate gives for it.
#[derive(Debug, Clone, Copy)]
pub struct ApplyErrorDetail {
    pub aggregate: &'static str,
    pub failure: ApplyFailure,
    pub message: &'static str,
}

impl ApplyErrorDetail {
    /// The text of the refusal, such as `Post must be none`.
    pub fn message(&self) -> (r: &'static str)
        ensures
            r == self.message,
    {
        self.message
    }
}

/// The error of one aggregate's `apply`.
pub trait ApplyError: Sized {
    spec fn spec_failure(&self) -> ApplyFailure;

    spec fn spec_aggregate_type() -> Seq<char>;

    /// The reason the event was refused.
    fn failure(&self) -> (r: ApplyFailure)
        ensures
            r == self.spec_failure(),
    ;

    /// The type name of the aggregate that refused the event.
    fn aggregate_type(&self) -> (r: &'static str)
        ensures
            r@ == Self::spec_aggregate_type(),
    ;

    spec fn spec_message(&self) -> Seq<char>;

    /// The text of the refusal, such as `Tag must be none`.
    fn message(&self) -> (r: &'static str)
        ensures
            r@ == self.spec_message(),
    ;
}

/// The type-independent record of an apply error.
pub fn detail_of<E: ApplyError>(e: &E) -> (r: ApplyErrorDetail)
    ensures
        r.failure == e.spec_failure(),
        r.aggregate@ == E::spec_aggregate_type(),
        r.message@ == e.spec_message(),
{
    ApplyErrorDetail { aggregate: e.aggregate_type(), failure: e.failure(), message: e.message() }
}

/// No aggregate with the given id exists.
#[derive(Debug)]
pub struct AggregateNotFound {
    pub aggregate: String,
    pub id: String,
}

/// An aggregate with the given field value already exists.
#[derive(Debug)]
pub struct AggregateAlreadyExists {
    pub aggregate: String,
    pub field: String,
    pub value: String,
}

/// A stored event did not carry the version that was expected next.
#[derive(Debug)]
pub struct AggregateVersionConflict {
    pub aggregate: String,
    pub expected: u64,
    pub version: u64,
}

/// Replaying stored events into a context failed.
#[derive(Debug)]
pub enum RehydrateError {
    Conflict(AggregateVersionConflict),
    Apply(ApplyErrorDetail),
}

/// Reading an event stream failed.
#[derive(Debug)]
pub enum EventReaderError {
    Internal(String),
}

/// Writing events failed.
#[derive(Debug)]
pub enum EventWriterError {
    Conflict(AggregateVersionConflict),
    Internal(String),
}

/// Opening an event stream failed.
#[derive(Debug)]
pub enum EventFetcherError {
    Reader(EventReaderError),
    Internal(String),
}

/// Committing the pending events of a context failed.
#[derive(Debug)]
pub enum EventCommiterError {
    Writer(EventWriterError),
    ContextInvalid,
    Internal(String),
}

/// Rebuilding an aggregate from its stream failed.
#[derive(Debug)]
pub enum AggregateFetcherError {
    Reader(EventReaderError),
    Rehydrate(RehydrateError),
    Internal(String),
}

/// A snapshot store failed.
#[derive(Debug)]
pub enum SnapShotError {
    Internal(String),
}

/// Rebuilding an aggregate from a snapshot and the events after it failed.
#[derive(Debug)]
pub enum SnapShotFetcherError {
    SnapShot(SnapShotError),
    Internal(String),
    Reader(EventReaderError),
    Rehydrate(RehydrateError),
}

impl AggregateNotFound {
    /// `aggregate <type>(id:<id>) not found`.
    pub open spec fn text(&self) -> Seq<char> {
        "aggregate "@ + self.aggregate@ + "(id:"@ + self.id@ + ") not found"@
    }

    /// The text of the error.
    pub fn message(&self) -> (r: String)
        ensures
            r@ == self.text(),
    {
        let mut m = "aggregate ".to_owned();
        m.append(self.aggregate.as_str());
        m.append("(id:");
        m.append(self.id.as_str());
        m.append(") not found");
        m
    }
}

impl AggregateAlreadyExists {
    /// `aggregate <type> <field>:<value> already exists`.
    pub open spec fn text(&self) -> Seq<char> {
        "aggregate "@ + self.aggregate@ + " "@ + self.field@ + ":"@ + self.value@ + " already exists"@
    }

    /// The text of the error.
    pub fn message(&self) -> (r: String)
        ensures
            r@ == self.text(),
    {
        let mut m = "aggregate ".to_owned();
        m.append(self.aggregate.as_str());
        m.append(" ");
        m.append(self.field.as_str());
        m.append(":");
        m.append(self.value.as_str());
        m.append(" already exists");
        m
    }
}

impl AggregateVersionConflict {
    /// `aggregate version conflict, expected:<n> actual:<n>`.
    pub open spec fn text(&self) -> Seq<char> {
        "aggregate version conflict, expected:"@ + decimal(self.expected as nat) + " actual:"@ + decimal(
            self.version as nat,
        )
    }

    /// The text of the error.
    pub fn message(&self) -> (r: String)
        ensures
            r@ == self.text(),
    {
        let mut m = "aggregate version conflict, expected:".to_owned();
        push_decimal(&mut m, self.expected);
        m.append(" actual:");
        push_decimal(&mut m, self.version);
        m
    }
}

impl RehydrateError {
    /// A conflict's text, or the refusal's text.
    pub open spec fn text(&self) -> Seq<char> {
        match self {
            RehydrateError::Conflict(c) => c.text(),
            RehydrateError::Apply(d) => d.message@,
        }
    }

    /// The text of the error.
    pub fn message(&self) -> (r: String)
        ensures
            r@ == self.text(),
    {
        match self {
            RehydrateError::Conflict(c) => c.message(),
            RehydrateError::Apply(d) => d.message.to_owned(),
        }
    }
}

impl EventReaderError {
    /// The text of the underlying failure.
    pub open spec fn text(&self) -> Seq<char> {
        match self {
            EventReaderError::Internal(m) => m@,
        }
    }

    /// The text of the error.
    pub fn message(&self) -> (r: String)
        ensures
            r@ == self.text(),
    {
        match self {
            EventReaderError::Internal(m) => m.clone(),
        }
    }
}

impl EventWriterError {
    /// A conflict's text, or the underlying failure's.
    pub open spec fn text(&self) -> Seq<char> {
        match self {
            EventWriterError::Conflict(c) => c.text(),
            EventWriterError::Internal(m) => m@,
        }
    }

    /// The text of the error.
    pub fn message(&self) -> (r: String)
        ensures
            r@ == self.text(),
    {
        match self {
            EventWriterError::Conflict(c) => c.message(),
            EventWriterError::Internal(m) => m.clone(),
        }
    }
}

impl EventFetcherError {
    /// The text of the reader's failure, or the underlying failure's.
    pub open spec fn text(&self) -> Seq<char> {
        match self {
            EventFetcherError::Reader(e) => e.text(),
            EventFetcherError::Internal(m) => m@,
        }
    }

    /// The text of the error.
    pub fn message(&self) -> (r: String)
        ensures
            r@ == self.text(),
    {
        match self {
            EventFetcherError::Reader(e) => e.message(),
            EventFetcherError::Internal(m) => m.clone(),
        }
    }
}

impl EventCommiterError {
    /// The writer's text, `aggregate context is invalid`, or the underlying failure's.
    pub open spec fn text(&self) -> Seq<char> {
        match self {
            EventCommiterError::Writer(e) => e.text(),
            EventCommiterError::ContextInvalid => "aggregate context is invalid"@,
            EventCommiterError::Internal(m) => m@,
        }
    }

    /// The text of the error.
    pub fn message(&self) -> (r: String)
        ensures
            r@ == self.text(),
    {
        match self {
            EventCommiterError::Writer(e) => e.message(),
            EventCommiterError::ContextInvalid => "aggregate context is invalid".to_owned(),
            EventCommiterError::Internal(m) => m.clone(),
        }
    }
}

impl AggregateFetcherError {
    /// The text of the reader's or the replay's failure, or the underlying one's.
    pub open spec fn text(&self) -> Seq<char> {
        match self {
            AggregateFetcherError::Reader(e) => e.text(),
            AggregateFetcherError::Rehydrate(e) => e.text(),
            AggregateFetcherError::Internal(m) => m@,
        }
    }

    /// The text of the error.
    pub fn message(&self) -> (r: String)
        ensures
            r@ == self.text(),
    {
        match self {
            AggregateFetcherError::Reader(e) => e.message(),
            AggregateFetcherError::Rehydrate(e) => e.message(),
            AggregateFetcherError::Internal(m) => m.clone(),
        }
    }
}

impl SnapShotError {
    /// The text of the underlying failure.
    pub open spec fn text(&self) -> Seq<char> {
        match self {
            SnapShotError::Internal(m) => m@,
        }
    }

    /// The text of the error.
    pub fn message(&self) -> (r: String)
        ensures
            r@ == self.text(),
    {
        match self {
            SnapShotError::Internal(m) => m.clone(),
        }
    }
}

impl SnapShotFetcherError {
    /// The text of whichever step failed.
    pub open spec fn text(&self) -> Seq<char> {
        match self {
            SnapShotFetcherError::SnapShot(e) => e.text(),
            SnapShotFetcherError::Internal(m) => m@,
            SnapShotFetcherError::Reader(e) => e.text(),
            SnapShotFetcherError::Rehydrate(e) => e.text(),
        }
    }

    /// The text of the error.
    pub fn message(&self) -> (r: String)
        ensures
            r@ == self.text(),
    {
        match self {
            SnapShotFetcherError::SnapShot(e) => e.message(),
            SnapShotFetcherError::Internal(m) => m.clone(),
            SnapShotFetcherError::Reader(e) => e.message(),
            SnapShotFetcherError::Rehydrate(e) => e.message(),
        }
    }
}

} // verus!
