//! Permissions: a named, described permission code.
use vstd::prelude::*;

use crate::common::aggregate::{Aggregate, Apply, Event as AggregateEvent, Key};
use crate::common::error::{ApplyError, ApplyFailure};
use crate::external::new_ulid;
use crate::perm_code::PermCode;

verus! {

/// The unique keys under which a permission can be looked up.
pub enum PermUniqueKey {
    Name(String),
    Code(PermCode),
}

impl Key for PermUniqueKey {
    open spec fn spec_unique(&self) -> bool {
        true
    }

    fn unique(&self) -> (r: bool) {
        match self {
            PermUniqueKey::Name(..) => true,
            PermUniqueKey::Code(..) => true,
        }
    }
}

/// What can happen to a permission.
pub enum Event {
    Created { id: u128, name: String, description: String, code: PermCode },
    Deleted,
}

impl AggregateEvent for Event {
    open spec fn spec_kind(&self) -> Seq<char> {
        match self {
            Event::Created { .. } => "PERM.CREATED"@,
            Event::Deleted => "PERM.DELETED"@,
        }
    }

    fn kind(&self) -> (r: &'static str) {
        match self {
            Event::Created { .. } => "PERM.CREATED",
            Event::Deleted => "PERM.DELETED",
        }
    }
}

/// A permission.
pub struct Perm {
    pub id: u128,
    pub name: String,
    pub description: String,
    pub code: PermCode,
}

/// What a permission holds.
pub struct PermModel {
    pub id: u128,
    pub name: Seq<char>,
    pub description: Seq<char>,
    pub code: Seq<char>,
}

impl View for Perm {
    type V = PermModel;

    open spec fn view(&self) -> PermModel {
        PermModel { id: self.id, name: self.name@, description: self.description@, code: self.code@ }
    }
}

impl Default for Perm {
    /// A fresh id and empty name, description and code.
    fn default() -> (r: Self)
        ensures
            r@.name.len() == 0,
            r@.description.len() == 0,
            r@.code.len() == 0,
    {
        Perm {
            id: new_ulid(),
            name: String::new(),
            description: String::new(),
            code: PermCode::empty(),
        }
    }
}

impl Aggregate for Perm {
    type Event = Event;

    type Key = PermUniqueKey;

    open spec fn model_id(m: PermModel) -> u128 {
        m.id
    }

    open spec fn spec_ty() -> Seq<char> {
        "jimo_domain::aggregate::perm::Perm"@
    }

    fn id(&self) -> (r: &u128) {
        &self.id
    }

    fn ty() -> (r: &'static str) {
        "jimo_domain::aggregate::perm::Perm"
    }
}

/// A permission event that could not be applied.
#[derive(Debug, PartialEq, Eq, Structural)]
pub enum PermApplyError {
    Internal(ApplyFailure),
}

impl ApplyError for PermApplyError {
    open spec fn spec_failure(&self) -> ApplyFailure {
        match self {
            PermApplyError::Internal(f) => *f,
        }
    }

    open spec fn spec_aggregate_type() -> Seq<char> {
        Perm::spec_ty()
    }

    fn failure(&self) -> (r: ApplyFailure) {
        match self {
            PermApplyError::Internal(f) => *f,
        }
    }

    fn aggregate_type(&self) -> (r: &'static str) {
        Perm::ty()
    }

    open spec fn spec_message(&self) -> Seq<char> {
        match self.spec_failure() {
            ApplyFailure::MustBeNone => "Perm must be none"@,
            ApplyFailure::CannotBeNone => "Perm can't be none"@,
            ApplyFailure::AuthorMismatch => "author does not match"@,
        }
    }

    fn message(&self) -> (r: &'static str) {
        match self.failure() {
            ApplyFailure::MustBeNone => "Perm must be none",
            ApplyFailure::CannotBeNone => "Perm can't be none",
            ApplyFailure::AuthorMismatch => "author does not match",
        }
    }
}

impl Apply for Perm {
    type Error = PermApplyError;

    /// `Created` needs no permission yet and makes one; `Deleted` always leaves none.
    open spec fn next(state: Option<PermModel>, event: Event) -> Result<Option<PermModel>, PermApplyError> {
        match event {
            Event::Created { id, name, description, code } => if state is Some {
                Err(PermApplyError::Internal(ApplyFailure::MustBeNone))
            } else {
                Ok(Some(PermModel { id, name: name@, description: description@, code: code@ }))
            },
            Event::Deleted => Ok(None),
        }
    }

    fn apply(aggregate: &mut Option<Self>, event: &Event) -> (r: Result<(), PermApplyError>) {
        match event {
            Event::Created { id, name, description, code } => {
                if aggregate.is_some() {
                    return Err(PermApplyError::Internal(ApplyFailure::MustBeNone));
                }
                let perm = Perm {
                    id: *id,
                    name: name.clone(),
                    description: description.clone(),
                    code: code.clone(),
                };
                *aggregate = Some(perm);
            },
            Event::Deleted => {
                aggregate.take();
            },
        }
        Ok(())
    }
}


/// Once a perm exists, no accepted event changes its id.
pub proof fn law_perm_id_stable(m: PermModel, event: Event)
    ensures
        Perm::next(Some(m), event) matches Ok(Some(m2)) ==> m2.id == m.id,
{
}

/// Only `Created` brings a perm into being; nothing else accepted on an absent
/// perm leaves one behind.
pub proof fn law_perm_only_creation_creates(event: Event)
    ensures
        Perm::next(None, event) matches Ok(Some(_)) ==> event is Created,
{
}

/// `Deleted` leaves no perm, whatever was there.
pub proof fn law_perm_deleted_clears(state: Option<PermModel>)
    ensures
        Perm::next(state, Event::Deleted) == Ok::<Option<PermModel>, <Perm as Apply>::Error>(None),
{
}

/// Creating a permission on nothing gives one with exactly the event's id,
/// name, description and code; on an existing permission it is refused.
pub proof fn law_perm_created_fields(state: Option<PermModel>, id: u128, name: String, description: String, code: PermCode)
    ensures
        ({
            let r = Perm::next(state, Event::Created { id, name, description, code });
            &&& state is None ==> (r matches Ok(Some(p)) && p.id == id && p.name == name@ && p.description
                == description@ && p.code == code@)
            &&& state is Some ==> r == Err::<Option<PermModel>, PermApplyError>(PermApplyError::Internal(ApplyFailure::MustBeNone))
        }),
{
}

} // verus!
