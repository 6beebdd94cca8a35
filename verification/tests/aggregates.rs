use std::collections::HashSet;
use std::path::PathBuf;

use jimo::aggregate::perm::{Event as PermEvent, Perm, PermUniqueKey};
use jimo::aggregate::post::{Event as PostEvent, Post, PostKey};
use jimo::aggregate::role::{Event as RoleEvent, Role, RoleKey};
use jimo::aggregate::tag::{Event as TagEvent, Tag, TagKey};
use jimo::aggregate::taxonomy::{Event as TaxonomyEvent, Taxonomy, TaxonomyKey};
use jimo::aggregate::user::{Event as UserEvent, User, UserKey};
use jimo::aggregate::user_profile::{Event as ProfileEvent, UserProfile, UserProfileKey};
use jimo::aggregate::{PermApplyError, PostApplyError, RoleApplyError, TagApplyError, TaxonomyApplyError, UserApplyError, UserProfileError};
use jimo::common::aggregate::{Aggregate, Apply, Event, Key};
use jimo::common::error::{ApplyError, ApplyFailure};
use jimo::perm_code::PermCode;

fn ids(v: &[u128]) -> HashSet<u128> {
    v.iter().copied().collect()
}

fn perm_created(id: u128) -> PermEvent {
    PermEvent::Created {
        id,
        name: "edit".to_string(),
        description: "edit posts".to_string(),
        code: PermCode::try_from_str("POST.EDIT").unwrap(),
    }
}

#[test]
fn perm_created_then_deleted() {
    let mut p: Option<Perm> = None;
    Perm::apply(&mut p, &perm_created(7)).unwrap();
    let perm = p.as_ref().unwrap();
    assert_eq!(*perm.id(), 7);
    assert_eq!(perm.name, "edit");
    assert_eq!(perm.code.as_str(), "POST.EDIT");
    Perm::apply(&mut p, &PermEvent::Deleted).unwrap();
    assert!(p.is_none());
}

#[test]
fn perm_created_twice_is_refused() {
    let mut p: Option<Perm> = None;
    Perm::apply(&mut p, &perm_created(7)).unwrap();
    let err = Perm::apply(&mut p, &perm_created(8)).unwrap_err();
    assert_eq!(err, PermApplyError::Internal(ApplyFailure::MustBeNone));
    assert_eq!(err.failure(), ApplyFailure::MustBeNone);
    assert_eq!(err.aggregate_type(), "jimo_domain::aggregate::perm::Perm");
    assert_eq!(*p.unwrap().id(), 7);
}

#[test]
fn deleted_on_nothing_is_accepted() {
    let mut p: Option<Perm> = None;
    Perm::apply(&mut p, &PermEvent::Deleted).unwrap();
    assert!(p.is_none());
}

#[test]
fn event_kinds() {
    assert_eq!(perm_created(1).kind(), "PERM.CREATED");
    assert_eq!(PermEvent::Deleted.kind(), "PERM.DELETED");
    assert_eq!(PostEvent::Deleted.kind(), "POST.DELETED");
    assert_eq!(PostEvent::DeletedByAuthor { author: 1 }.kind(), "POST.DELETED_BY_AUTHOR");
    assert_eq!(RoleEvent::AssignedPerms(HashSet::new()).kind(), "ROLE.ASSIGNED_PERMS");
    assert_eq!(RoleEvent::RemovedRoles(HashSet::new()).kind(), "ROLE.REMOVED_PERMS");
    assert_eq!(TagEvent::Deleted.kind(), "TAG.DELETED");
    assert_eq!(TaxonomyEvent::Updated { name: None, description: None }.kind(), "TAXONOMY.UPDATED");
    assert_eq!(UserEvent::AssignedRoles(HashSet::new()).kind(), "USER.ASSIGNED_ROLES");
    assert_eq!(ProfileEvent::Deleted.kind(), "USER_PROFILE.DELETED");
}

#[test]
fn keys_uniqueness() {
    assert!(PermUniqueKey::Name("a".into()).unique());
    assert!(PermUniqueKey::Code(PermCode::empty()).unique());
    assert!(PostKey::Title("t".into()).unique());
    assert!(RoleKey::Name("r".into()).unique());
    assert!(TagKey::Name("t".into()).unique());
    assert!(TaxonomyKey::Path(PathBuf::from("/a")).unique());
    assert!(UserKey::Email("e".into()).unique());
    assert!(!UserProfileKey.unique());
    assert!(!().unique());
}

#[test]
fn aggregate_type_names() {
    assert_eq!(Post::ty(), "jimo_domain::aggregate::post::Post");
    assert_eq!(Role::ty(), "jimo_domain::aggregate::role::Role");
    assert_eq!(User::ty(), "jimo_domain::aggregate::user::User");
    assert_eq!(Tag::ty(), "jimo_domain::aggregate::tag::Tag");
    assert_eq!(Taxonomy::ty(), "jimo_domain::aggregate::taxonomy::Taxonomy");
    assert_eq!(UserProfile::ty(), "jimo_domain::aggregate::user_profile::UserProfile");
}

fn post_created(id: u128, author: u128) -> PostEvent {
    PostEvent::Created {
        id,
        title: "Hello".to_string(),
        author,
        taxonomy: vec![3, 4],
        hero: Some(url::Url::parse("https://example.com/a.png").unwrap()),
        format: Some("md".to_string()),
        content: "body".to_string(),
    }
}

#[test]
fn post_created_copies_fields() {
    let mut p: Option<Post> = None;
    Post::apply(&mut p, &post_created(1, 9)).unwrap();
    let post = p.unwrap();
    assert_eq!(post.id, 1);
    assert_eq!(post.title, "Hello");
    assert_eq!(post.author, 9);
    assert!(post.tag.is_empty());
    assert_eq!(post.taxonomy, vec![3, 4]);
    assert_eq!(post.hero.unwrap().as_str(), "https://example.com/a.png");
    assert_eq!(post.format.as_deref(), Some("md"));
    assert_eq!(post.content, "body");
}

#[test]
fn post_update_needs_a_post() {
    let mut p: Option<Post> = None;
    let ev = PostEvent::Updated { title: "T".into(), hero: None, taxonomy: vec![], format: None, content: "c".into() };
    assert_eq!(Post::apply(&mut p, &ev).unwrap_err(), PostApplyError::Internal(ApplyFailure::CannotBeNone));
    Post::apply(&mut p, &post_created(1, 9)).unwrap();
    Post::apply(&mut p, &ev).unwrap();
    let post = p.unwrap();
    assert_eq!(post.title, "T");
    assert!(post.hero.is_none());
    assert!(post.taxonomy.is_empty());
    assert_eq!(post.author, 9);
}

#[test]
fn post_author_only_changes() {
    let mut p: Option<Post> = None;
    Post::apply(&mut p, &post_created(1, 9)).unwrap();
    let by = |author| PostEvent::UpdatedByAuthor {
        author,
        title: "New".into(),
        hero: None,
        taxonomy: vec![5],
        format: None,
        content: "x".into(),
    };
    assert_eq!(Post::apply(&mut p, &by(8)).unwrap_err(), PostApplyError::Internal(ApplyFailure::AuthorMismatch));
    assert_eq!(p.as_ref().unwrap().title, "Hello");
    Post::apply(&mut p, &by(9)).unwrap();
    assert_eq!(p.as_ref().unwrap().title, "New");
    assert_eq!(
        Post::apply(&mut p, &PostEvent::DeletedByAuthor { author: 8 }).unwrap_err(),
        PostApplyError::Internal(ApplyFailure::AuthorMismatch)
    );
    assert!(p.is_some());
    Post::apply(&mut p, &PostEvent::DeletedByAuthor { author: 9 }).unwrap();
    assert!(p.is_none());
    Post::apply(&mut p, &PostEvent::DeletedByAuthor { author: 8 }).unwrap();
    assert!(p.is_none());
}

#[test]
fn post_updated_by_author_on_nothing() {
    let mut p: Option<Post> = None;
    let ev = PostEvent::UpdatedByAuthor { author: 1, title: "a".into(), hero: None, taxonomy: vec![], format: None, content: "b".into() };
    assert_eq!(Post::apply(&mut p, &ev).unwrap_err(), PostApplyError::Internal(ApplyFailure::CannotBeNone));
}

#[test]
fn role_permissions_are_added_and_removed() {
    let mut r: Option<Role> = None;
    assert_eq!(
        Role::apply(&mut r, &RoleEvent::AssignedPerms(ids(&[1]))).unwrap_err(),
        RoleApplyError::Internal(ApplyFailure::CannotBeNone)
    );
    Role::apply(&mut r, &RoleEvent::Created { id: 5, name: "admin".into(), description: "all".into(), parent: Some(2) }).unwrap();
    assert!(r.as_ref().unwrap().perms.is_empty());
    assert_eq!(r.as_ref().unwrap().parent, Some(2));
    Role::apply(&mut r, &RoleEvent::AssignedPerms(ids(&[1, 2, 3]))).unwrap();
    Role::apply(&mut r, &RoleEvent::AssignedPerms(ids(&[3, 4]))).unwrap();
    assert_eq!(r.as_ref().unwrap().perms, ids(&[1, 2, 3, 4]));
    Role::apply(&mut r, &RoleEvent::RemovedRoles(ids(&[2, 4, 9]))).unwrap();
    assert_eq!(r.as_ref().unwrap().perms, ids(&[1, 3]));
    Role::apply(&mut r, &RoleEvent::Deleted).unwrap();
    assert_eq!(
        Role::apply(&mut r, &RoleEvent::RemovedRoles(ids(&[1]))).unwrap_err(),
        RoleApplyError::Internal(ApplyFailure::CannotBeNone)
    );
}

#[test]
fn role_default_is_empty() {
    let r = Role::default();
    assert_eq!(r.id, 0);
    assert!(r.name.is_empty());
    assert!(r.perms.is_empty());
    assert!(r.parent.is_none());
}

#[test]
fn user_registration_and_roles() {
    let mut u: Option<User> = None;
    let reg = UserEvent::RegisteredByEmail { id: 3, username: "ann".into(), email: "ann@x.io".into(), phc: Some("$h".into()) };
    User::apply(&mut u, &reg).unwrap();
    assert_eq!(User::apply(&mut u, &reg).unwrap_err(), UserApplyError::Internal(ApplyFailure::MustBeNone));
    User::apply(&mut u, &UserEvent::AssignedRoles(ids(&[10, 11]))).unwrap();
    User::apply(&mut u, &UserEvent::RemovedRoles(ids(&[10]))).unwrap();
    let user = u.unwrap();
    assert_eq!(user.username, "ann");
    assert_eq!(user.email.as_deref(), Some("ann@x.io"));
    assert_eq!(user.phc.as_deref(), Some("$h"));
    assert_eq!(user.roles, ids(&[11]));
    let d = User::default();
    assert!(d.email.is_none() && d.roles.is_empty());
}

#[test]
fn tag_updates() {
    let mut t: Option<Tag> = None;
    let up = TagEvent::Updated { name: "n".into(), description: "d".into() };
    assert_eq!(Tag::apply(&mut t, &up).unwrap_err(), TagApplyError::Internal(ApplyFailure::CannotBeNone));
    Tag::apply(&mut t, &TagEvent::Created { id: 1, name: "rust".into(), description: "lang".into() }).unwrap();
    Tag::apply(&mut t, &up).unwrap();
    let tag = t.unwrap();
    assert_eq!((tag.id, tag.name.as_str(), tag.description.as_str()), (1, "n", "d"));
}

#[test]
fn taxonomy_partial_update() {
    let mut t: Option<Taxonomy> = None;
    Taxonomy::apply(&mut t, &TaxonomyEvent::Created { id: 2, name: "news".into(), description: "all news".into(), path: PathBuf::from("/news") }).unwrap();
    Taxonomy::apply(&mut t, &TaxonomyEvent::Updated { name: Some("latest".into()), description: None }).unwrap();
    let tax = t.as_ref().unwrap();
    assert_eq!(tax.name, "latest");
    assert_eq!(tax.description, "all news");
    assert_eq!(tax.path, PathBuf::from("/news"));
    Taxonomy::apply(&mut t, &TaxonomyEvent::Deleted).unwrap();
    assert_eq!(
        Taxonomy::apply(&mut t, &TaxonomyEvent::Updated { name: None, description: None }).unwrap_err(),
        TaxonomyApplyError::Internal(ApplyFailure::CannotBeNone)
    );
}

#[test]
fn profile_created_once() {
    let mut p: Option<UserProfile> = None;
    let ev = ProfileEvent::Created { uid: 4, nickname: "Annie".into(), avatar: Some(url::Url::parse("https://example.com/me.png").unwrap()) };
    UserProfile::apply(&mut p, &ev).unwrap();
    assert_eq!(UserProfile::apply(&mut p, &ev).unwrap_err(), UserProfileError::Internal(ApplyFailure::MustBeNone));
    let profile = p.unwrap();
    assert_eq!(*profile.id(), 4);
    assert_eq!(profile.avatar.unwrap().as_str(), "https://example.com/me.png");
}
