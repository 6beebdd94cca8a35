//! Taxonomies: named categories placed at a path in a hierarchy.
use vstd::prelude::*;

use std::path::PathBuf;

use crate::common::aggregate::{Aggregate, Apply, Event as AggregateEvent, Key};
use crate::common::error::{ApplyError, ApplyFailure};
use crate::external::clone_path;

verus! {

/// The unique keys under which a taxonomy can be looked up.
pub enum TaxonomyKey {
    Name(String),
    Path(PathBuf),
}

impl Key for TaxonomyKey {
    open spec fn spec_unique(&self) -> bool {
        true
    }

    fn unique(&self) -> (r: bool) {
        match self {
            TaxonomyKey::Name(..) => true,
            TaxonomyKey::Path(..) => true,
        }
    }
}

/// What can happen to a taxonomy.
pub enum Event {
    Created { id: u128, name: String, description: String, path: PathBuf },
    Updated { name: Option<String>, description: Option<String> },
    Deleted,
}

impl AggregateEvent for Event {
    open spec fn spec_kind(&self) -> Seq<char> {
        match self {
            Event::Created { .. } => "TAXONOMY.CREATED"@,
            Event::Updated { .. } => "TAXONOMY.UPDATED"@,
            Event::Deleted => "TAXONOMY.DELETED"@,
        }
    }

    fn kind(&self) -> (r: &'static str) {
        match self {
            Event::Created { .. } => "TAXONOMY.CREATED",
            Event::Updated { .. } => "TAXONOMY.UPDATED",
            Event::Deleted => "TAXONOMY.DELETED",
        }
    }
}

/// A taxonomy.
pub struct Taxonomy {
    pub id: u128,
    pub name: String,
    pub description: String,
    pub path: PathBuf,
}

/// What a taxonomy holds.
pub struct TaxonomyModel {
    pub id: u128,
    pub name: Seq<char>,
    pub description: Seq<char>,
    pub path: PathBuf,
}

impl View for Taxonomy {
    type V = TaxonomyModel;

    open spec fn view(&self) -> TaxonomyModel {
        TaxonomyModel { id: self.id, name: self.name@, description: self.description@, path: self.path }
    }
}

impl Aggregate for Taxonomy {
    type Event = Event;

    type Key = TaxonomyKey;

    open spec fn model_id(m: TaxonomyModel) -> u128 {
        m.id
    }

    open spec fn spec_ty() -> Seq<char> {
        "jimo_domain::aggregate::taxonomy::Taxonomy"@
    }

    fn id(&self) -> (r: &u128) {
        &self.id
    }

    fn ty() -> (r: &'static str) {
        "jimo_domain::aggregate::taxonomy::Taxonomy"
    }
}

/// A taxonomy event that could not be applied.
#[derive(Debug, PartialEq, Eq, Structural)]
pub enum TaxonomyApplyError {
    Internal(ApplyFailure),
}

impl ApplyError for TaxonomyApplyError {
    open spec fn spec_failure(&self) -> ApplyFailure {
        match self {
            TaxonomyApplyError::Internal(f) => *f,
        }
    }

    open spec fn spec_aggregate_type() -> Seq<char> {
        Taxonomy::spec_ty()
    }

    fn failure(&self) -> (r: ApplyFailure) {
        match self {
            TaxonomyApplyError::Internal(f) => *f,
        }
    }

    fn aggregate_type(&self) -> (r: &'static str) {
        Taxonomy::ty()
    }

    open spec fn spec_message(&self) -> Seq<char> {
        match self.spec_failure() {
            ApplyFailure::MustBeNone => "Taxonomy must be none"@,
            ApplyFailure::CannotBeNone => "Taxonomy can't be none"@,
            ApplyFailure::AuthorMismatch => "author does not match"@,
        }
    }

    fn message(&self) -> (r: &'static str) {
        match self.failure() {
            ApplyFailure::MustBeNone => "Taxonomy must be none",
            ApplyFailure::CannotBeNone => "Taxonomy can't be none",
            ApplyFailure::AuthorMismatch => "author does not match",
        }
    }
}

/// `value` when it is given, `current` otherwise.
pub open spec fn or_keep(value: Option<String>, current: Seq<char>) -> Seq<char> {
    match value {
        Some(v) => v@,
        None => current,
    }
}

impl Apply for Taxonomy {
    type Error = TaxonomyApplyError;

    /// `Created` needs no taxonomy yet and makes one; `Updated` replaces the
    /// name and the description of an existing taxonomy where they are given;
    /// `Deleted` leaves none.
    open spec fn next(state: Option<TaxonomyModel>, event: Event) -> Result<Option<TaxonomyModel>, TaxonomyApplyError> {
        match event {
            Event::Created { id, name, description, path } => if state is Some {
                Err(TaxonomyApplyError::Internal(ApplyFailure::MustBeNone))
            } else {
                Ok(Some(TaxonomyModel { id, name: name@, description: description@, path }))
            },
            Event::Updated { name, description } => match state {
                Some(t) => Ok(
                    Some(
                        TaxonomyModel {
                            name: or_keep(name, t.name),
                            description: or_keep(description, t.description),
                            ..t
                        },
                    ),
                ),
                None => Err(TaxonomyApplyError::Internal(ApplyFailure::CannotBeNone)),
            },
            Event::Deleted => Ok(None),
        }
    }

    fn apply(aggregate: &mut Option<Self>, event: &Event) -> (r: Result<(), TaxonomyApplyError>) {
        match event {
            Event::Created { id, name, description, path } => {
                if aggregate.is_some() {
                    return Err(TaxonomyApplyError::Internal(ApplyFailure::MustBeNone));
                }
                *aggregate = Some(
                    Taxonomy {
                        id: *id,
                        name: name.clone(),
                        description: description.clone(),
                        path: clone_path(path),
                    },
                );
            },
            Event::Updated { name, description } => {
                match aggregate {
                    Some(t) => {
                        if let Some(n) = name {
                            t.name = n.clone();
                        }
                        if let Some(d) = description {
                            t.description = d.clone();
                        }
                    },
                    None => {
                        return Err(TaxonomyApplyError::Internal(ApplyFailure::CannotBeNone));
                    },
                }
            },
            Event::Deleted => {
                aggregate.take();
            },
        }
        Ok(())
    }
}


/// Once a taxonomy exists, no accepted event changes its id.
pub proof fn law_taxonomy_id_stable(m: TaxonomyModel, event: Event)
    ensures
        Taxonomy::next(Some(m), event) matches Ok(Some(m2)) ==> m2.id == m.id,
{
}

/// Only `Created` brings a taxonomy into being; nothing else accepted on an absent
/// taxonomy leaves one behind.
pub proof fn law_taxonomy_only_creation_creates(event: Event)
    ensures
        Taxonomy::next(None, event) matches Ok(Some(_)) ==> event is Created,
{
}

/// `Deleted` leaves no taxonomy, whatever was there.
pub proof fn law_taxonomy_deleted_clears(state: Option<TaxonomyModel>)
    ensures
        Taxonomy::next(state, Event::Deleted) == Ok::<Option<TaxonomyModel>, <Taxonomy as Apply>::Error>(None),
{
}

/// Creating a taxonomy on nothing gives one with exactly the event's id, name,
/// description and path; on an existing taxonomy it is refused.
pub proof fn law_taxonomy_created_fields(state: Option<TaxonomyModel>, id: u128, name: String, description: String, path: PathBuf)
    ensures
        ({
            let r = Taxonomy::next(state, Event::Created { id, name, description, path });
            &&& state is None ==> (r matches Ok(Some(t)) && t.id == id && t.name == name@ && t.description
                == description@ && t.path == path)
            &&& state is Some ==> r == Err::<Option<TaxonomyModel>, TaxonomyApplyError>(
                TaxonomyApplyError::Internal(ApplyFailure::MustBeNone),
            )
        }),
{
}

/// An update sets the name to the given one, if one is given, and the
/// description likewise; what is not given stays, and the id and path never
/// change. A taxonomy that does not exist cannot be updated.
pub proof fn law_taxonomy_updated_fields(state: Option<TaxonomyModel>, name: Option<String>, description: Option<String>)
    ensures
        ({
            let r = Taxonomy::next(state, Event::Updated { name, description });
            &&& state matches Some(t) ==> (r matches Ok(Some(t2)) && t2.id == t.id && t2.path == t.path && match name {
                Some(n) => t2.name == n@,
                None => t2.name == t.name,
            } && match description {
                Some(d) => t2.description == d@,
                None => t2.description == t.description,
            })
            &&& state is None ==> r == Err::<Option<TaxonomyModel>, TaxonomyApplyError>(
                TaxonomyApplyError::Internal(ApplyFailure::CannotBeNone),
            )
        }),
{
}

} // verus!
