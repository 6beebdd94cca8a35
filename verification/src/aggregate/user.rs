//! Users: accounts registered by email, holding a set of roles.
use vstd::prelude::*;

use std::collections::HashSet;

use crate::common::aggregate::{Aggregate, Apply, Event as AggregateEvent, Key};
use crate::common::error::{ApplyError, ApplyFailure};
use crate::common::id_set::{extend_ids, remove_ids};
use crate::external::{clone_opt_string, opt_text};

verus! {

/// What can happen to a user.
pub enum Event {
    RegisteredByEmail { id: u128, username: String, email: String, phc: Option<String> },
    Deleted,
    AssignedRoles(HashSet<u128>),
    RemovedRoles(HashSet<u128>),
}

impl AggregateEvent for Event {
    open spec fn spec_kind(&self) -> Seq<char> {
        match self {
            Event::RegisteredByEmail { .. } => "USER.REGISTERED_BY_EMAIL"@,
            Event::Deleted => "USER.DELETED"@,
            Event::AssignedRoles(_) => "USER.ASSIGNED_ROLES"@,
            Event::RemovedRoles(_) => "USER.REMOVED_ROLES"@,
        }
    }

    fn kind(&self) -> (r: &'static str) {
        match self {
            Event::RegisteredByEmail { .. } => "USER.REGISTERED_BY_EMAIL",
            Event::Deleted => "USER.DELETED",
            Event::AssignedRoles(_) => "USER.ASSIGNED_ROLES",
            Event::RemovedRoles(_) => "USER.REMOVED_ROLES",
        }
    }
}

/// A user account.
pub struct User {
    pub id: u128,
    pub username: String,
    pub email: Option<String>,
    pub phc: Option<String>,
    pub roles: HashSet<u128>,
}

/// What a user account holds.
pub struct UserModel {
    pub id: u128,
    pub username: Seq<char>,
    pub email: Option<Seq<char>>,
    pub phc: Option<Seq<char>>,
    pub roles: Set<u128>,
}

impl View for User {
    type V = UserModel;

    open spec fn view(&self) -> UserModel {
        UserModel {
            id: self.id,
            username: self.username@,
            email: opt_text(self.email),
            phc: opt_text(self.phc),
            roles: self.roles@,
        }
    }
}

impl Default for User {
    /// Id 0, no username, email, password hash or roles.
    fn default() -> (r: Self)
        ensures
            r@ == (UserModel { id: 0, username: Seq::empty(), email: None, phc: None, roles: Set::empty() }),
    {
        User { id: 0, username: String::new(), email: None, phc: None, roles: HashSet::new() }
    }
}

/// The unique keys under which a user can be looked up.
pub enum UserKey {
    Username(String),
    Email(String),
}

impl Key for UserKey {
    open spec fn spec_unique(&self) -> bool {
        true
    }

    fn unique(&self) -> (r: bool) {
        match self {
            UserKey::Username(..) => true,
            UserKey::Email(..) => true,
        }
    }
}

impl Aggregate for User {
    type Event = Event;

    type Key = UserKey;

    open spec fn model_id(m: UserModel) -> u128 {
        m.id
    }

    open spec fn spec_ty() -> Seq<char> {
        "jimo_domain::aggregate::user::User"@
    }

    fn id(&self) -> (r: &u128) {
        &self.id
    }

    fn ty() -> (r: &'static str) {
        "jimo_domain::aggregate::user::User"
    }
}

/// A user event that could not be applied.
#[derive(Debug, PartialEq, Eq, Structural)]
pub enum UserApplyError {
    Internal(ApplyFailure),
}

impl ApplyError for UserApplyError {
    open spec fn spec_failure(&self) -> ApplyFailure {
        match self {
            UserApplyError::Internal(f) => *f,
        }
    }

    open spec fn spec_aggregate_type() -> Seq<char> {
        User::spec_ty()
    }

    fn failure(&self) -> (r: ApplyFailure) {
        match self {
            UserApplyError::Internal(f) => *f,
        }
    }

    fn aggregate_type(&self) -> (r: &'static str) {
        User::ty()
    }

    open spec fn spec_message(&self) -> Seq<char> {
        match self.spec_failure() {
            ApplyFailure::MustBeNone => "User must be none"@,
            ApplyFailure::CannotBeNone => "User can't be none"@,
            ApplyFailure::AuthorMismatch => "author does not match"@,
        }
    }

    fn message(&self) -> (r: &'static str) {
        match self.failure() {
            ApplyFailure::MustBeNone => "User must be none",
            ApplyFailure::CannotBeNone => "User can't be none",
            ApplyFailure::AuthorMismatch => "author does not match",
        }
    }
}

impl Apply for User {
    type Error = UserApplyError;

    /// `RegisteredByEmail` needs no user yet and makes one with that email and
    /// no roles; `Deleted` leaves none; `AssignedRoles` adds roles to an
    /// existing user and `RemovedRoles` takes them away.
    open spec fn next(state: Option<UserModel>, event: Event) -> Result<Option<UserModel>, UserApplyError> {
        match event {
            Event::RegisteredByEmail { id, username, email, phc } => if state is Some {
                Err(UserApplyError::Internal(ApplyFailure::MustBeNone))
            } else {
                Ok(
                    Some(
                        UserModel {
                            id,
                            username: username@,
                            email: Some(email@),
                            phc: opt_text(phc),
                            roles: Set::empty(),
                        },
                    ),
                )
            },
            Event::Deleted => Ok(None),
            Event::AssignedRoles(roles) => match state {
                Some(u) => Ok(Some(UserModel { roles: u.roles.union(roles@), ..u })),
                None => Err(UserApplyError::Internal(ApplyFailure::CannotBeNone)),
            },
            Event::RemovedRoles(roles) => match state {
                Some(u) => Ok(Some(UserModel { roles: u.roles.difference(roles@), ..u })),
                None => Err(UserApplyError::Internal(ApplyFailure::CannotBeNone)),
            },
        }
    }

    fn apply(aggregate: &mut Option<Self>, event: &Event) -> (r: Result<(), UserApplyError>) {
        match event {
            Event::RegisteredByEmail { id, username, email, phc } => {
                if aggregate.is_some() {
                    return Err(UserApplyError::Internal(ApplyFailure::MustBeNone));
                }
                let user = User {
                    id: *id,
                    username: username.clone(),
                    email: Some(email.clone()),
                    phc: clone_opt_string(phc),
                    roles: HashSet::new(),
                };
                *aggregate = Some(user);
            },
            Event::Deleted => {
                aggregate.take();
            },
            Event::AssignedRoles(roles) => {
                match aggregate {
                    Some(u) => extend_ids(&mut u.roles, roles),
                    None => {
                        return Err(UserApplyError::Internal(ApplyFailure::CannotBeNone));
                    },
                }
            },
            Event::RemovedRoles(roles) => {
                match aggregate {
                    Some(u) => remove_ids(&mut u.roles, roles),
                    None => {
                        return Err(UserApplyError::Internal(ApplyFailure::CannotBeNone));
                    },
                }
            },
        }
        Ok(())
    }
}


/// Once a user exists, no accepted event changes its id.
pub proof fn law_user_id_stable(m: UserModel, event: Event)
    ensures
        User::next(Some(m), event) matches Ok(Some(m2)) ==> m2.id == m.id,
{
}

/// Only `RegisteredByEmail` brings a user into being; nothing else accepted on an absent
/// user leaves one behind.
pub proof fn law_user_only_creation_creates(event: Event)
    ensures
        User::next(None, event) matches Ok(Some(_)) ==> event is RegisteredByEmail,
{
}

/// `Deleted` leaves no user, whatever was there.
pub proof fn law_user_deleted_clears(state: Option<UserModel>)
    ensures
        User::next(state, Event::Deleted) == Ok::<Option<UserModel>, <User as Apply>::Error>(None),
{
}

/// Registering on nothing gives a user with exactly the event's id, username,
/// email and password hash, and no roles; on an existing user it is refused.
pub proof fn law_user_registered_fields(state: Option<UserModel>, id: u128, username: String, email: String, phc: Option<String>)
    ensures
        ({
            let r = User::next(state, Event::RegisteredByEmail { id, username, email, phc });
            &&& state is None ==> (r matches Ok(Some(u)) && u.id == id && u.username == username@
                && u.email == Some(email@) && u.roles.is_empty() && match phc {
                Some(p) => u.phc == Some(p@),
                None => u.phc is None,
            })
            &&& state is Some ==> r == Err::<Option<UserModel>, UserApplyError>(UserApplyError::Internal(ApplyFailure::MustBeNone))
        }),
{
}

/// Assigning roles keeps every role the user held and adds the given ones,
/// and nothing else; the rest of the user is unchanged. A user that does not
/// exist cannot be given roles.
pub proof fn law_user_assigned_roles(state: Option<UserModel>, roles: HashSet<u128>)
    ensures
        ({
            let r = User::next(state, Event::AssignedRoles(roles));
            &&& state matches Some(u) ==> (r matches Ok(Some(u2)) && u2.id == u.id && u2.username == u.username
                && u2.email == u.email && u2.phc == u.phc && forall|x: u128|
                #[trigger] u2.roles.contains(x) <==> (u.roles.contains(x) || roles@.contains(x)))
            &&& state is None ==> r == Err::<Option<UserModel>, UserApplyError>(UserApplyError::Internal(ApplyFailure::CannotBeNone))
        }),
{
}

/// Removing roles keeps exactly the roles the user held that are not among
/// the given ones; the rest of the user is unchanged. A user that does not
/// exist cannot lose roles.
pub proof fn law_user_removed_roles(state: Option<UserModel>, roles: HashSet<u128>)
    ensures
        ({
            let r = User::next(state, Event::RemovedRoles(roles));
            &&& state matches Some(u) ==> (r matches Ok(Some(u2)) && u2.id == u.id && u2.username == u.username
                && u2.email == u.email && u2.phc == u.phc && forall|x: u128|
                #[trigger] u2.roles.contains(x) <==> (u.roles.contains(x) && !roles@.contains(x)))
            &&& state is None ==> r == Err::<Option<UserModel>, UserApplyError>(UserApplyError::Internal(ApplyFailure::CannotBeNone))
        }),
{
}

} // verus!
