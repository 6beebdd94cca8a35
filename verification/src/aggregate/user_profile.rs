//! User profiles: the public face of a user, keyed by the user's id.
use vstd::prelude::*;

use crate::common::aggregate::{Aggregate, Apply, Event as AggregateEvent, Key};
use crate::common::error::{ApplyError, ApplyFailure};
use crate::external::clone_opt_url;

verus! {

/// Profiles have no lookup key besides their id; this key matches nothing unique.
pub struct UserProfileKey;

impl Key for UserProfileKey {
    open spec fn spec_unique(&self) -> bool {
        false
    }

    fn unique(&self) -> (r: bool) {
        false
    }
}

/// What can happen to a profile.
pub enum Event {
    Created { uid: u128, nickname: String, avatar: Option<url::Url> },
    Deleted,
}

impl AggregateEvent for Event {
    open spec fn spec_kind(&self) -> Seq<char> {
        match self {
            Event::Created { .. } => "USER_PROFILE.CREATED"@,
            Event::Deleted => "USER_PROFILE.DELETED"@,
        }
    }

    fn kind(&self) -> (r: &'static str) {
        match self {
            Event::Created { .. } => "USER_PROFILE.CREATED",
            Event::Deleted => "USER_PROFILE.DELETED",
        }
    }
}

/// A user profile.
pub struct UserProfile {
    pub uid: u128,
    pub nickname: String,
    pub avatar: Option<url::Url>,
}

/// What a profile holds.
pub struct UserProfileModel {
    pub uid: u128,
    pub nickname: Seq<char>,
    pub avatar: Option<url::Url>,
}

impl View for UserProfile {
    type V = UserProfileModel;

    open spec fn view(&self) -> UserProfileModel {
        UserProfileModel { uid: self.uid, nickname: self.nickname@, avatar: self.avatar }
    }
}

impl Aggregate for UserProfile {
    type Event = Event;

    type Key = UserProfileKey;

    open spec fn model_id(m: UserProfileModel) -> u128 {
        m.uid
    }

    open spec fn spec_ty() -> Seq<char> {
        "jimo_domain::aggregate::user_profile::UserProfile"@
    }

    fn id(&self) -> (r: &u128) {
        &self.uid
    }

    fn ty() -> (r: &'static str) {
        "jimo_domain::aggregate::user_profile::UserProfile"
    }
}

/// A profile event that could not be applied.
#[derive(Debug, PartialEq, Eq, Structural)]
pub enum UserProfileError {
    Internal(ApplyFailure),
}

impl ApplyError for UserProfileError {
    open spec fn spec_failure(&self) -> ApplyFailure {
        match self {
            UserProfileError::Internal(f) => *f,
        }
    }

    open spec fn spec_aggregate_type() -> Seq<char> {
        UserProfile::spec_ty()
    }

    fn failure(&self) -> (r: ApplyFailure) {
        match self {
            UserProfileError::Internal(f) => *f,
        }
    }

    fn aggregate_type(&self) -> (r: &'static str) {
        UserProfile::ty()
    }

    open spec fn spec_message(&self) -> Seq<char> {
        match self.spec_failure() {
            ApplyFailure::MustBeNone => "UserProfile must none"@,
            ApplyFailure::CannotBeNone => "UserProfile can't be none"@,
            ApplyFailure::AuthorMismatch => "author does not match"@,
        }
    }

    fn message(&self) -> (r: &'static str) {
        match self.failure() {
            ApplyFailure::MustBeNone => "UserProfile must none",
            ApplyFailure::CannotBeNone => "UserProfile can't be none",
            ApplyFailure::AuthorMismatch => "author does not match",
        }
    }
}

impl Apply for UserProfile {
    type Error = UserProfileError;

    /// `Created` needs no profile yet and makes one; `Deleted` leaves none.
    open spec fn next(state: Option<UserProfileModel>, event: Event) -> Result<Option<UserProfileModel>, UserProfileError> {
        match event {
            Event::Created { uid, nickname, avatar } => if state is Some {
                Err(UserProfileError::Internal(ApplyFailure::MustBeNone))
            } else {
                Ok(Some(UserProfileModel { uid, nickname: nickname@, avatar }))
            },
            Event::Deleted => Ok(None),
        }
    }

    fn apply(aggregate: &mut Option<Self>, event: &Event) -> (r: Result<(), UserProfileError>) {
        match event {
            Event::Created { uid, nickname, avatar } => {
                if aggregate.is_some() {
                    return Err(UserProfileError::Internal(ApplyFailure::MustBeNone));
                }
                *aggregate = Some(
                    UserProfile { uid: *uid, nickname: nickname.clone(), avatar: clone_opt_url(avatar) },
                );
            },
            Event::Deleted => {
                aggregate.take();
            },
        }
        Ok(())
    }
}


/// Once a profile exists, no accepted event changes its id.
pub proof fn law_user_profile_id_stable(m: UserProfileModel, event: Event)
    ensures
        UserProfile::next(Some(m), event) matches Ok(Some(m2)) ==> m2.uid == m.uid,
{
}

/// Only `Created` brings a profile into being; nothing else accepted on an absent
/// profile leaves one behind.
pub proof fn law_user_profile_only_creation_creates(event: Event)
    ensures
        UserProfile::next(None, event) matches Ok(Some(_)) ==> event is Created,
{
}

/// `Deleted` leaves no profile, whatever was there.
pub proof fn law_user_profile_deleted_clears(state: Option<UserProfileModel>)
    ensures
        UserProfile::next(state, Event::Deleted) == Ok::<Option<UserProfileModel>, <UserProfile as Apply>::Error>(None),
{
}

/// Creating a profile on nothing gives one with exactly the event's user id,
/// nickname and avatar; on an existing profile it is refused.
pub proof fn law_user_profile_created_fields(state: Option<UserProfileModel>, uid: u128, nickname: String, avatar: Option<url::Url>)
    ensures
        ({
            let r = UserProfile::next(state, Event::Created { uid, nickname, avatar });
            &&& state is None ==> (r matches Ok(Some(p)) && p.uid == uid && p.nickname == nickname@ && p.avatar == avatar)
            &&& state is Some ==> r == Err::<Option<UserProfileModel>, UserProfileError>(
                UserProfileError::Internal(ApplyFailure::MustBeNone),
            )
        }),
{
}

} // verus!
