//! Tags: named labels for posts.
use vstd::prelude::*;

use crate::common::aggregate::{Aggregate, Apply, Event as AggregateEvent, Key};
use crate::common::error::{ApplyError, ApplyFailure};

verus! {

/// The unique keys under which a tag can be looked up.
pub enum TagKey {
    Name(String),
}

impl Key for TagKey {
    open spec fn spec_unique(&self) -> bool {
        true
    }

    fn unique(&self) -> (r: bool) {
        match self {
            TagKey::Name(..) => true,
        }
    }
}

/// What can happen to a tag.
pub enum Event {
    Created { id: u128, name: String, description: String },
    Updated { name: String, description: String },
    Deleted,
}

impl AggregateEvent for Event {
    open spec fn spec_kind(&self) -> Seq<char> {
        match self {
            Event::Created { .. } => "TAG.CREATED"@,
            Event::Updated { .. } => "TAG.UPDATED"@,
            Event::Deleted => "TAG.DELETED"@,
        }
    }

    fn kind(&self) -> (r: &'static str) {
        match self {
            Event::Created { .. } => "TAG.CREATED",
            Event::Updated { .. } => "TAG.UPDATED",
            Event::Deleted => "TAG.DELETED",
        }
    }
}

/// A tag.
pub struct Tag {
    pub id: u128,
    pub name: String,
    pub description: String,
}

/// What a tag holds.
pub struct TagModel {
    pub id: u128,
    pub name: Seq<char>,
    pub description: Seq<char>,
}

impl View for Tag {
    type V = TagModel;

    open spec fn view(&self) -> TagModel {
        TagModel { id: self.id, name: self.name@, description: self.description@ }
    }
}

impl Aggregate for Tag {
    type Event = Event;

    type Key = TagKey;

    open spec fn model_id(m: TagModel) -> u128 {
        m.id
    }

    open spec fn spec_ty() -> Seq<char> {
        "jimo_domain::aggregate::tag::Tag"@
    }

    fn id(&self) -> (r: &u128) {
        &self.id
    }

    fn ty() -> (r: &'static str) {
        "jimo_domain::aggregate::tag::Tag"
    }
}

/// A tag event that could not be applied.
#[derive(Debug, PartialEq, Eq, Structural)]
pub enum TagApplyError {
    Internal(ApplyFailure),
}

impl ApplyError for TagApplyError {
    open spec fn spec_failure(&self) -> ApplyFailure {
        match self {
            TagApplyError::Internal(f) => *f,
        }
    }

    open spec fn spec_aggregate_type() -> Seq<char> {
        Tag::spec_ty()
    }

    fn failure(&self) -> (r: ApplyFailure) {
        match self {
            TagApplyError::Internal(f) => *f,
        }
    }

    fn aggregate_type(&self) -> (r: &'static str) {
        Tag::ty()
    }

    open spec fn spec_message(&self) -> Seq<char> {
        match self.spec_failure() {
            ApplyFailure::MustBeNone => "Tag must be none"@,
            ApplyFailure::CannotBeNone => "Tag can't be none"@,
            ApplyFailure::AuthorMismatch => "author does not match"@,
        }
    }

    fn message(&self) -> (r: &'static str) {
        match self.failure() {
            ApplyFailure::MustBeNone => "Tag must be none",
            ApplyFailure::CannotBeNone => "Tag can't be none",
            ApplyFailure::AuthorMismatch => "author does not match",
        }
    }
}

impl Apply for Tag {
    type Error = TagApplyError;

    /// `Created` needs no tag yet and makes one; `Updated` replaces the name
    /// and description of an existing tag; `Deleted` leaves none.
    open spec fn next(state: Option<TagModel>, event: Event) -> Result<Option<TagModel>, TagApplyError> {
        match event {
            Event::Created { id, name, description } => if state is Some {
                Err(TagApplyError::Internal(ApplyFailure::MustBeNone))
            } else {
                Ok(Some(TagModel { id, name: name@, description: description@ }))
            },
            Event::Updated { name, description } => match state {
                Some(t) => Ok(Some(TagModel { name: name@, description: description@, ..t })),
                None => Err(TagApplyError::Internal(ApplyFailure::CannotBeNone)),
            },
            Event::Deleted => Ok(None),
        }
    }

    fn apply(aggregate: &mut Option<Self>, event: &Event) -> (r: Result<(), TagApplyError>) {
        match event {
            Event::Created { id, name, description } => {
                if aggregate.is_some() {
                    return Err(TagApplyError::Internal(ApplyFailure::MustBeNone));
                }
                *aggregate = Some(Tag { id: *id, name: name.clone(), description: description.clone() });
            },
            Event::Updated { name, description } => {
                match aggregate {
                    Some(t) => {
                        t.name = name.clone();
                        t.description = description.clone();
                    },
                    None => {
                        return Err(TagApplyError::Internal(ApplyFailure::CannotBeNone));
                    },
                }
            },
            Event::Deleted => {
                aggregate.take();
            },
        }
        Ok(())
    }
}


/// Once a tag exists, no accepted event changes its id.
pub proof fn law_tag_id_stable(m: TagModel, event: Event)
    ensures
        Tag::next(Some(m), event) matches Ok(Some(m2)) ==> m2.id == m.id,
{
}

/// Only `Created` brings a tag into being; nothing else accepted on an absent
/// tag leaves one behind.
pub proof fn law_tag_only_creation_creates(event: Event)
    ensures
        Tag::next(None, event) matches Ok(Some(_)) ==> event is Created,
{
}

/// `Deleted` leaves no tag, whatever was there.
pub proof fn law_tag_deleted_clears(state: Option<TagModel>)
    ensures
        Tag::next(state, Event::Deleted) == Ok::<Option<TagModel>, <Tag as Apply>::Error>(None),
{
}

/// Creating a tag on nothing gives one with exactly the event's id, name and
/// description; on an existing tag it is refused.
pub proof fn law_tag_created_fields(state: Option<TagModel>, id: u128, name: String, description: String)
    ensures
        ({
            let r = Tag::next(state, Event::Created { id, name, description });
            &&& state is None ==> (r matches Ok(Some(t)) && t.id == id && t.name == name@ && t.description == description@)
            &&& state is Some ==> r == Err::<Option<TagModel>, TagApplyError>(TagApplyError::Internal(ApplyFailure::MustBeNone))
        }),
{
}

/// An update of an existing tag replaces its name and description by the
/// event's and keeps its id; an update of nothing is refused.
pub proof fn law_tag_updated_fields(state: Option<TagModel>, name: String, description: String)
    ensures
        ({
            let r = Tag::next(state, Event::Updated { name, description });
            &&& state matches Some(t) ==> (r matches Ok(Some(t2)) && t2.id == t.id && t2.name == name@
                && t2.description == description@)
            &&& state is None ==> r == Err::<Option<TagModel>, TagApplyError>(TagApplyError::Internal(ApplyFailure::CannotBeNone))
        }),
{
}

} // verus!
