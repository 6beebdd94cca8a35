use std::collections::HashSet;
use std::path::PathBuf;

use jimo::aggregate::perm::Perm;
use jimo::aggregate::post::{Event as PostEvent, Post};
use jimo::aggregate::role::{Event as RoleEvent, Role};
use jimo::aggregate::taxonomy::{Event as TaxonomyEvent, Taxonomy};
use jimo::aggregate::user::{Event as UserEvent, User};
use jimo::common::aggregate::Context;
use jimo::common::error::ApplyFailure;
use jimo::perm_code::PermCode;
use jimo::projection::{PostAuthor, PostTag, PostTaxonomy, PostView};
use jimo::usecase::iam::{
    self, AssignPermsToRole, AuthenticateError, CreatePerm, CreateRole, DeletePerm, DeleteRole, IAMError,
    RegisterWithEmail, RemovePermsFromRole, TokenGeneratorError,
};
use jimo::usecase::post::{self as posts, CreatePost, PostError, PostItem, UpdatePost};
use jimo::usecase::taxonomy::{self as taxonomies, CreateTaxonomy, TaxonomyError};

fn internal(e: IAMError) -> String {
    match e {
        IAMError::Internal(m) => m,
        other => panic!("unexpected {:?}", other),
    }
}

fn ids(v: &[u128]) -> HashSet<u128> {
    v.iter().copied().collect()
}

fn registration() -> RegisterWithEmail {
    RegisterWithEmail { username: "ann".into(), email: "ann@x.io".into(), password: "pw".into() }
}

#[test]
fn register_refuses_taken_username_then_email() {
    assert_eq!(internal(iam::register(&registration(), "$h", true, true).err().unwrap()), "user is already exists");
    assert_eq!(internal(iam::register(&registration(), "$h", false, true).err().unwrap()), "email is already exists");
    assert!(iam::check_register(false, false).is_ok());
}

#[test]
fn register_records_the_user() {
    let mut ctx = iam::register(&registration(), "$h", false, false).ok().unwrap();
    assert_eq!(ctx.version(), 1);
    let id = *ctx.id();
    let pending = ctx.take_pending();
    assert_eq!(pending.len(), 1);
    let user = ctx.to_aggregate().unwrap();
    assert_eq!(user.id, id);
    assert_eq!(user.username, "ann");
    assert_eq!(user.email.as_deref(), Some("ann@x.io"));
    assert_eq!(user.phc.as_deref(), Some("$h"));
    assert!(user.roles.is_empty());
}

#[test]
fn fresh_ids_differ() {
    let a = iam::register(&registration(), "$h", false, false).ok().unwrap();
    let b = iam::register(&registration(), "$h", false, false).ok().unwrap();
    assert_ne!(*a.id(), *b.id());
}

#[test]
fn login_steps() {
    assert_eq!(internal(iam::login_phc(&None).err().unwrap()), "User not exists");
    let mut u = User::default();
    assert_eq!(internal(iam::login_phc(&Some(User::default())).err().unwrap()), "phc not exists");
    u.phc = Some("$argon".into());
    assert_eq!(iam::login_phc(&Some(u)).ok().unwrap(), "$argon");
    assert!(iam::login_verdict(true).is_ok());
    assert_eq!(internal(iam::login_verdict(false).err().unwrap()), "password conflict");
    assert_eq!(iam::login_token(Ok("tok".into())).ok().unwrap(), "tok");
    assert_eq!(internal(iam::login_token(Err(TokenGeneratorError::Internal("x".into()))).err().unwrap()), "gen token failed");
}

fn user_ctx() -> Context<User> {
    let mut ctx = Context::<User>::empty(1);
    ctx.apply(vec![UserEvent::RegisteredByEmail { id: 1, username: "a".into(), email: "e".into(), phc: None }]).unwrap();
    ctx
}

#[test]
fn delete_user_records_deletion() {
    let ctx = iam::delete_user(user_ctx()).ok().unwrap();
    assert_eq!(ctx.version(), 2);
    assert!(ctx.as_aggregate().is_none());
    let ctx = iam::delete_user(Context::<User>::empty(5)).ok().unwrap();
    assert_eq!(ctx.version(), 1);
}

#[test]
fn check_perm_pieces() {
    assert!(matches!(iam::check_perm_user(None), Err(IAMError::Authenticate(AuthenticateError::InvalidCredentials))));
    assert_eq!(iam::check_perm_user(Some(User::default())).ok().unwrap().id, 0);
    let mut r1 = Role::default();
    r1.perms = ids(&[1, 2]);
    let mut r2 = Role::default();
    r2.perms = ids(&[2, 3]);
    let got: HashSet<u128> = iam::perm_ids_of(&vec![r1, r2]).into_iter().collect();
    assert_eq!(got, ids(&[1, 2, 3]));
    assert!(iam::perm_ids_of(&vec![]).is_empty());
    let mut r3 = Role::default();
    r3.perms = ids(&[5]);
    let mut r4 = Role::default();
    r4.perms = ids(&[5]);
    assert_eq!(iam::perm_ids_of(&vec![r3, r4]), vec![5, 5]);
    let perms = vec![
        Perm { id: 1, name: "a".into(), description: String::new(), code: PermCode::try_from_str("POST.EDIT").unwrap() },
        Perm { id: 2, name: "b".into(), description: String::new(), code: PermCode::try_from_str("POST.READ").unwrap() },
    ];
    assert_eq!(iam::check_perm_result(&perms, "POST.READ").ok(), Some(true));
    assert_eq!(iam::check_perm_result(&perms, "POST").ok(), Some(false));
    assert!(matches!(iam::check_perm_result(&perms, "post.read"), Err(IAMError::Authenticate(AuthenticateError::InvalidCredentials))));
    assert_eq!(iam::check_perm_result(&vec![], "A").ok(), Some(false));
}

#[test]
fn roles_lifecycle() {
    let ctx = iam::create_role(CreateRole { name: "admin".into(), description: "all".into(), parent: None }).ok().unwrap();
    assert_eq!(ctx.version(), 1);
    let id = *ctx.id();
    assert_eq!(ctx.as_aggregate().unwrap().id, id);
    let ctx = iam::assign_perms_to_role(ctx, AssignPermsToRole { role_id: id, perm_ids: ids(&[1, 2]) }).ok().unwrap();
    let ctx = iam::remove_perms_from_role(ctx, RemovePermsFromRole { role_id: id, perm_ids: ids(&[1]) }).ok().unwrap();
    assert_eq!(ctx.as_aggregate().unwrap().perms, ids(&[2]));
    let ctx = iam::delete_role(ctx, DeleteRole { role_id: id }).ok().unwrap();
    assert_eq!(ctx.version(), 4);
    assert!(ctx.as_aggregate().is_none());
    assert_eq!(internal(iam::delete_role(ctx, DeleteRole { role_id: id }).err().unwrap()), "role not found");
    let none = Context::<Role>::empty(3);
    assert_eq!(internal(iam::assign_perms_to_role(none, AssignPermsToRole { role_id: 3, perm_ids: ids(&[1]) }).err().unwrap()), "role not found");
    let none = Context::<Role>::empty(3);
    assert_eq!(internal(iam::remove_perms_from_role(none, RemovePermsFromRole { role_id: 3, perm_ids: ids(&[1]) }).err().unwrap()), "role not found");
    let _ = RoleEvent::Deleted;
}

#[test]
fn perms_lifecycle() {
    let err = iam::create_perm(CreatePerm { name: "x".into(), description: "y".into(), code: "bad code".into() }).err().unwrap();
    assert_eq!(internal(err), "invalid perm code: Invalid perm code: bad code");
    let ctx = iam::create_perm(CreatePerm { name: "edit".into(), description: "d".into(), code: "POST.EDIT".into() }).ok().unwrap();
    assert_eq!(ctx.as_aggregate().unwrap().code.as_str(), "POST.EDIT");
    let id = *ctx.id();
    let ctx = iam::delete_perm(ctx, DeletePerm { perm_id: id }).ok().unwrap();
    assert!(ctx.as_aggregate().is_none());
    assert_eq!(internal(iam::delete_perm(ctx, DeletePerm { perm_id: id }).err().unwrap()), "perm not found");
}

#[test]
fn iam_apply_wraps_details() {
    match IAMError::apply(jimo::aggregate::UserApplyError::Internal(ApplyFailure::CannotBeNone)) {
        IAMError::Apply(d) => {
            assert_eq!(d.failure, ApplyFailure::CannotBeNone);
            assert_eq!(d.aggregate, "jimo_domain::aggregate::user::User");
            assert_eq!(d.message(), "User can't be none");
        }
        other => panic!("unexpected {:?}", other),
    }
}

fn new_post() -> CreatePost {
    CreatePost {
        title: "Hello".into(),
        author: 9,
        taxonomy: vec![1],
        hero: Some(url::Url::parse("https://example.com/h.png").unwrap()),
        format: None,
        content: "c".into(),
    }
}

fn update(title: &str) -> UpdatePost {
    UpdatePost { id: 0, title: title.into(), taxonomy: vec![2], hero: None, format: Some("md".into()), content: "new".into() }
}

fn post_internal(e: PostError) -> String {
    match e {
        PostError::Internal(m) => m,
        other => panic!("unexpected {:?}", other),
    }
}

#[test]
fn create_post_checks_title() {
    assert_eq!(post_internal(posts::create_post(&new_post(), true).err().unwrap()), "title is already exists");
    let ctx = posts::create_post(&new_post(), false).ok().unwrap();
    let post = ctx.as_aggregate().unwrap();
    assert_eq!(post.title, "Hello");
    assert_eq!(post.author, 9);
    assert_eq!(post.hero.as_ref().unwrap().as_str(), "https://example.com/h.png");
    assert_eq!(post.id, *ctx.id());
}

#[test]
fn update_post_goes_ahead_only_for_a_changed_title_in_use() {
    let ctx = posts::create_post(&new_post(), false).ok().unwrap();
    assert_eq!(posts::update_post_title_changes(&ctx, &update("Hello")).ok(), Some(false));
    assert_eq!(posts::update_post_title_changes(&ctx, &update("Other")).ok(), Some(true));
    let ctx = posts::create_post(&new_post(), false).ok().unwrap();
    assert_eq!(post_internal(posts::update_post(ctx, update("Hello"), true).err().unwrap()), "title is already exists");
    let ctx = posts::create_post(&new_post(), false).ok().unwrap();
    assert_eq!(post_internal(posts::update_post(ctx, update("Other"), false).err().unwrap()), "title is already exists");
    let ctx = posts::create_post(&new_post(), false).ok().unwrap();
    let ctx = posts::update_post(ctx, update("Other"), true).ok().unwrap();
    assert_eq!(ctx.as_aggregate().unwrap().title, "Other");
    assert_eq!(ctx.as_aggregate().unwrap().content, "new");
    assert_eq!(ctx.version(), 2);
    let missing = Context::<Post>::empty(1);
    assert_eq!(post_internal(posts::update_post(missing, update("Other"), true).err().unwrap()), "post not exists");
}

#[test]
fn author_changes_to_posts() {
    let ctx = posts::create_post(&new_post(), false).ok().unwrap();
    match posts::user_update_post(ctx, update("T"), 8) {
        Err(PostError::Apply(d)) => {
            assert_eq!(d.failure, ApplyFailure::AuthorMismatch);
            assert_eq!(d.message, "author does not match");
        }
        _ => panic!("expected refusal"),
    }
    let ctx = posts::create_post(&new_post(), false).ok().unwrap();
    let ctx = posts::user_update_post(ctx, update("T"), 9).ok().unwrap();
    assert_eq!(ctx.as_aggregate().unwrap().title, "T");
    let ctx = posts::user_delete_post(ctx, 9).ok().unwrap();
    assert!(ctx.as_aggregate().is_none());
    let ctx = posts::delete_post(ctx).ok().unwrap();
    assert_eq!(ctx.version(), 4);
    let _ = PostEvent::Deleted;
}

#[test]
fn post_item_from_view() {
    let view = PostView {
        id: 1,
        title: "t".into(),
        author: PostAuthor { id: 2, username: "u".into(), nickname: "n".into() },
        tags: vec![PostTag { id: 3, name: "rust".into() }, PostTag { id: 4, name: "web".into() }],
        taxonomies: vec![PostTaxonomy { id: 5, name: "news".into(), path: PathBuf::from("/news") }],
        hero: None,
        format: Some("md".into()),
        content: "c".into(),
    };
    let item = PostItem::from_view(view);
    assert_eq!(item.author.username, "u");
    assert_eq!(item.tags.iter().map(|t| t.name.as_str()).collect::<Vec<_>>(), vec!["rust", "web"]);
    assert_eq!(item.taxonomies[0].path, PathBuf::from("/news"));
    assert_eq!(item.format.as_deref(), Some("md"));
}

fn tax_internal(e: TaxonomyError) -> String {
    match e {
        TaxonomyError::Internal(m) => m,
        other => panic!("unexpected {:?}", other),
    }
}

fn new_taxonomy() -> CreateTaxonomy {
    CreateTaxonomy { name: "rust".into(), description: "d".into(), path: PathBuf::from("/lang/rust") }
}

#[test]
fn taxonomies_lifecycle() {
    assert_eq!(taxonomies::parent_path(&new_taxonomy()), Some(PathBuf::from("/lang")));
    assert_eq!(taxonomies::parent_path(&CreateTaxonomy { name: "r".into(), description: "d".into(), path: PathBuf::from("/") }), None);
    assert_eq!(tax_internal(taxonomies::create_taxonomy(new_taxonomy(), true, true).err().unwrap()), "alreadyexists");
    assert_eq!(tax_internal(taxonomies::create_taxonomy(new_taxonomy(), false, false).err().unwrap()), "parent not exists");
    let ctx = taxonomies::create_taxonomy(new_taxonomy(), false, true).ok().unwrap();
    assert_eq!(ctx.as_aggregate().unwrap().path, PathBuf::from("/lang/rust"));
    let ctx = taxonomies::delete_taxonomy(ctx).ok().unwrap();
    assert!(ctx.as_aggregate().is_none());
    assert_eq!(tax_internal(taxonomies::delete_taxonomy(ctx).err().unwrap()), "taxonomy not found");
    let _ = TaxonomyEvent::Deleted;
    let _: Option<Taxonomy> = None;
}

#[test]
fn path_free_check() {
    assert!(taxonomies::check_path_free(false).is_ok());
    assert_eq!(tax_internal(taxonomies::check_path_free(true).err().unwrap()), "alreadyexists");
}

#[test]
fn login_payload_carries_id_and_roles() {
    let user = User {
        id: 42,
        username: "u".into(),
        email: None,
        phc: None,
        roles: [7u128, 9, 11].into_iter().collect(),
    };
    let (id, roles) = iam::login_payload(&user);
    assert_eq!(id, 42);
    assert_eq!(roles.len(), 3);
    assert_eq!(roles.into_iter().collect::<HashSet<u128>>(), [7u128, 9, 11].into_iter().collect());
    let lonely = User { id: 1, username: "v".into(), email: None, phc: None, roles: HashSet::new() };
    assert_eq!(iam::login_payload(&lonely), (1, vec![]));
}

#[test]
fn collect_ids_appends_after_what_was_there() {
    let set: HashSet<u128> = [3u128, 4].into_iter().collect();
    let mut out = vec![1u128, 2];
    jimo::common::id_set::collect_ids(&set, &mut out);
    assert_eq!(out.len(), 4);
    assert_eq!(&out[..2], &[1, 2]);
    assert_eq!(out[2..].iter().copied().collect::<HashSet<u128>>(), set);
}

#[test]
fn use_case_error_texts() {
    let e = IAMError::apply(jimo::aggregate::UserApplyError::Internal(ApplyFailure::MustBeNone));
    assert_eq!(e.message(), "IAM Error: User must be none");
    assert_eq!(IAMError::Authenticate(AuthenticateError::InvalidCredentials).message(), "invalid crendials");
    assert_eq!(IAMError::Hasher(iam::PasswordHasherError::Internal("bad".into())).message(), "IAM Error:bad");
    assert_eq!(IAMError::Internal("password conflict".into()).message(), "password conflict");
    let e = PostError::apply(jimo::aggregate::PostApplyError::Internal(ApplyFailure::AuthorMismatch));
    assert_eq!(e.message(), "Taxonomy Error: author does not match");
    let e = TaxonomyError::apply(jimo::aggregate::TaxonomyApplyError::Internal(ApplyFailure::MustBeNone));
    assert_eq!(e.message(), "Taxonomy Error: Taxonomy must be none");
    assert_eq!(TaxonomyError::Internal("alreadyexists".into()).message(), "alreadyexists");
}
