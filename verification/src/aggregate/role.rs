//! Roles: named groups of permissions, optionally under a parent role.
use vstd::prelude::*;

use std::collections::HashSet;

use crate::common::aggregate::{Aggregate, Apply, Event as AggregateEvent, Key};
use crate::common::error::{ApplyError, ApplyFailure};
use crate::common::id_set::{extend_ids, remove_ids};

verus! {

/// The unique keys under which a role can be looked up.
pub enum RoleKey {
    Name(String),
}

impl Key for RoleKey {
    open spec fn spec_unique(&self) -> bool {
        true
    }

    fn unique(&self) -> (r: bool) {
        match self {
            RoleKey::Name(..) => true,
        }
    }
}

/// What can happen to a role.
pub enum Event {
    Created { id: u128, name: String, description: String, parent: Option<u128> },
    Deleted,
    AssignedPerms(HashSet<u128>),
    RemovedRoles(HashSet<u128>),
}

impl AggregateEvent for Event {
    open spec fn spec_kind(&self) -> Seq<char> {
        match self {
            Event::Created { .. } => "ROLE.CREATED"@,
            Event::Deleted => "ROLE.DELETED"@,
            Event::AssignedPerms(_) => "ROLE.ASSIGNED_PERMS"@,
            Event::RemovedRoles(_) => "ROLE.REMOVED_PERMS"@,
        }
    }

    fn kind(&self) -> (r: &'static str) {
        match self {
            Event::Created { .. } => "ROLE.CREATED",
            Event::Deleted => "ROLE.DELETED",
            Event::AssignedPerms(_) => "ROLE.ASSIGNED_PERMS",
            Event::RemovedRoles(_) => "ROLE.REMOVED_PERMS",
        }
    }
}

/// A role.
pub struct Role {
    pub id: u128,
    pub name: String,
    pub description: String,
    pub perms: HashSet<u128>,
    pub parent: Option<u128>,
}

/// What a role holds.
pub struct RoleModel {
    pub id: u128,
    pub name: Seq<char>,
    pub description: Seq<char>,
    pub perms: Set<u128>,
    pub parent: Option<u128>,
}

impl View for Role {
    type V = RoleModel;

    open spec fn view(&self) -> RoleModel {
        RoleModel {
            id: self.id,
            name: self.name@,
            description: self.description@,
            perms: self.perms@,
            parent: self.parent,
        }
    }
}

impl Default for Role {
    /// Id 0, no name, description, permissions or parent.
    fn default() -> (r: Self)
        ensures
            r@ == (RoleModel {
                id: 0,
                name: Seq::empty(),
                description: Seq::empty(),
                perms: Set::empty(),
                parent: None,
            }),
    {
        Role { id: 0, name: String::new(), description: String::new(), perms: HashSet::new(), parent: None }
    }
}

impl Aggregate for Role {
    type Event = Event;

    type Key = RoleKey;

    open spec fn model_id(m: RoleModel) -> u128 {
        m.id
    }

    open spec fn spec_ty() -> Seq<char> {
        "jimo_domain::aggregate::role::Role"@
    }

    fn id(&self) -> (r: &u128) {
        &self.id
    }

    fn ty() -> (r: &'static str) {
        "jimo_domain::aggregate::role::Role"
    }
}

/// A role event that could not be applied.
#[derive(Debug, PartialEq, Eq, Structural)]
pub enum RoleApplyError {
    Internal(ApplyFailure),
}

impl ApplyError for RoleApplyError {
    open spec fn spec_failure(&self) -> ApplyFailure {
        match self {
            RoleApplyError::Internal(f) => *f,
        }
    }

    open spec fn spec_aggregate_type() -> Seq<char> {
        Role::spec_ty()
    }

    fn failure(&self) -> (r: ApplyFailure) {
        match self {
            RoleApplyError::Internal(f) => *f,
        }
    }

    fn aggregate_type(&self) -> (r: &'static str) {
        Role::ty()
    }

    open spec fn spec_message(&self) -> Seq<char> {
        match self.spec_failure() {
            ApplyFailure::MustBeNone => "Role must be none"@,
            ApplyFailure::CannotBeNone => "Role can't be none"@,
            ApplyFailure::AuthorMismatch => "author does not match"@,
        }
    }

    fn message(&self) -> (r: &'static str) {
        match self.failure() {
            ApplyFailure::MustBeNone => "Role must be none",
            ApplyFailure::CannotBeNone => "Role can't be none",
            ApplyFailure::AuthorMismatch => "author does not match",
        }
    }
}

impl Apply for Role {
    type Error = RoleApplyError;

    /// `Created` needs no role yet and makes one without permissions;
    /// `Deleted` leaves none; `AssignedPerms` adds permissions to an existing
    /// role and `RemovedRoles` takes them away from it.
    open spec fn next(state: Option<RoleModel>, event: Event) -> Result<Option<RoleModel>, RoleApplyError> {
        match event {
            Event::Created { id, name, description, parent } => if state is Some {
                Err(RoleApplyError::Internal(ApplyFailure::MustBeNone))
            } else {
                Ok(
                    Some(
                        RoleModel {
                            id,
                            name: name@,
                            description: description@,
                            perms: Set::empty(),
                            parent,
                        },
                    ),
                )
            },
            Event::Deleted => Ok(None),
            Event::AssignedPerms(perms) => match state {
                Some(r) => Ok(Some(RoleModel { perms: r.perms.union(perms@), ..r })),
                None => Err(RoleApplyError::Internal(ApplyFailure::CannotBeNone)),
            },
            Event::RemovedRoles(perms) => match state {
                Some(r) => Ok(Some(RoleModel { perms: r.perms.difference(perms@), ..r })),
                None => Err(RoleApplyError::Internal(ApplyFailure::CannotBeNone)),
            },
        }
    }

    fn apply(aggregate: &mut Option<Self>, event: &Event) -> (r: Result<(), RoleApplyError>) {
        match event {
            Event::Created { id, name, description, parent } => {
                if aggregate.is_some() {
                    return Err(RoleApplyError::Internal(ApplyFailure::MustBeNone));
                }
                let role = Role {
                    id: *id,
                    name: name.clone(),
                    description: description.clone(),
                    parent: *parent,
                    perms: HashSet::new(),
                };
                *aggregate = Some(role);
            },
            Event::Deleted => {
                aggregate.take();
            },
            Event::AssignedPerms(perms) => {
                match aggregate {
                    Some(r) => extend_ids(&mut r.perms, perms),
                    None => {
                        return Err(RoleApplyError::Internal(ApplyFailure::CannotBeNone));
                    },
                }
            },
            Event::RemovedRoles(perms) => {
                match aggregate {
                    Some(r) => remove_ids(&mut r.perms, perms),
                    None => {
                        return Err(RoleApplyError::Internal(ApplyFailure::CannotBeNone));
                    },
                }
            },
        }
        Ok(())
    }
}


/// Once a role exists, no accepted event changes its id.
pub proof fn law_role_id_stable(m: RoleModel, event: Event)
    ensures
        Role::next(Some(m), event) matches Ok(Some(m2)) ==> m2.id == m.id,
{
}

/// Only `Created` brings a role into being; nothing else accepted on an absent
/// role leaves one behind.
pub proof fn law_role_only_creation_creates(event: Event)
    ensures
        Role::next(None, event) matches Ok(Some(_)) ==> event is Created,
{
}

/// `Deleted` leaves no role, whatever was there.
pub proof fn law_role_deleted_clears(state: Option<RoleModel>)
    ensures
        Role::next(state, Event::Deleted) == Ok::<Option<RoleModel>, <Role as Apply>::Error>(None),
{
}

/// Creating a role on nothing gives a role with exactly the event's id, name,
/// description and parent, and no permissions; on an existing role it is refused.
pub proof fn law_role_created_fields(state: Option<RoleModel>, id: u128, name: String, description: String, parent: Option<u128>)
    ensures
        ({
            let r = Role::next(state, Event::Created { id, name, description, parent });
            &&& state is None ==> (r matches Ok(Some(m)) && m.id == id && m.name == name@ && m.description
                == description@ && m.parent == parent && m.perms.is_empty())
            &&& state is Some ==> r == Err::<Option<RoleModel>, RoleApplyError>(RoleApplyError::Internal(ApplyFailure::MustBeNone))
        }),
{
}

/// Assigning permissions keeps every permission the role held and adds the
/// given ones, and nothing else; the rest of the role is unchanged.
pub proof fn law_role_assigned_perms(state: Option<RoleModel>, perms: HashSet<u128>)
    ensures
        ({
            let r = Role::next(state, Event::AssignedPerms(perms));
            &&& state matches Some(m) ==> (r matches Ok(Some(m2)) && m2.id == m.id && m2.name == m.name
                && m2.description == m.description && m2.parent == m.parent && forall|x: u128|
                #[trigger] m2.perms.contains(x) <==> (m.perms.contains(x) || perms@.contains(x)))
            &&& state is None ==> r == Err::<Option<RoleModel>, RoleApplyError>(RoleApplyError::Internal(ApplyFailure::CannotBeNone))
        }),
{
}

/// Removing permissions keeps exactly those the role held that are not among
/// the given ones; the rest of the role is unchanged.
pub proof fn law_role_removed_perms(state: Option<RoleModel>, perms: HashSet<u128>)
    ensures
        ({
            let r = Role::next(state, Event::RemovedRoles(perms));
            &&& state matches Some(m) ==> (r matches Ok(Some(m2)) && m2.id == m.id && m2.name == m.name
                && m2.description == m.description && m2.parent == m.parent && forall|x: u128|
                #[trigger] m2.perms.contains(x) <==> (m.perms.contains(x) && !perms@.contains(x)))
            &&& state is None ==> r == Err::<Option<RoleModel>, RoleApplyError>(RoleApplyError::Internal(ApplyFailure::CannotBeNone))
        }),
{
}

} // verus!
