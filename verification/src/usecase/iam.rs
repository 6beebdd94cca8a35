//! Identity and access: users, roles and permissions.
use vstd::prelude::*;

use std::collections::HashSet;

use crate::aggregate::perm::{Event as PermEvent, Perm, PermModel};
use crate::aggregate::role::{Event as RoleEvent, Role, RoleModel};
use crate::aggregate::user::{Event as UserEvent, User, UserModel};
use crate::common::aggregate::{Apply, Context, recorded_one};
use crate::common::error::{
    AggregateFetcherError, ApplyError, ApplyErrorDetail, EventCommiterError, EventFetcherError, detail_of,
};
use crate::external::new_ulid;
use crate::perm_code::{PermCode, valid_dot_code};

verus! {

/// Registration by email and password.
pub struct RegisterWithEmail {
    pub username: String,
    pub email: String,
    pub password: String,
}

/// Login by email and password.
pub struct LoginWithEmail {
    pub email: String,
    pub password: String,
}

/// A new role.
pub struct CreateRole {
    pub name: String,
    pub description: String,
    pub parent: Option<u128>,
}

/// A role to delete.
pub struct DeleteRole {
    pub role_id: u128,
}

/// Permissions to grant to a role.
pub struct AssignPermsToRole {
    pub role_id: u128,
    pub perm_ids: HashSet<u128>,
}

/// Permissions to take from a role.
pub struct RemovePermsFromRole {
    pub role_id: u128,
    pub perm_ids: HashSet<u128>,
}

/// A new permission.
pub struct CreatePerm {
    pub name: String,
    pub description: String,
    pub code: String,
}

/// A permission to delete.
pub struct DeletePerm {
    pub perm_id: u128,
}

/// New name and description of a permission.
pub struct UpdatePerm {
    pub perm_id: u128,
    pub name: String,
    pub description: String,
}

/// Hashing or checking a password failed.
#[derive(Debug)]
pub enum PasswordHasherError {
    Internal(String),
}

/// Issuing a token failed.
#[derive(Debug)]
pub enum TokenGeneratorError {
    Internal(String),
}

/// The caller could not be authenticated.
#[derive(Debug)]
pub enum AuthenticateError {
    InvalidCredentials,
    Internal(String),
}

impl PasswordHasherError {
    /// The text of the underlying failure.
    pub open spec fn text(&self) -> Seq<char> {
        match self {
            PasswordHasherError::Internal(m) => m@,
        }
    }

    /// The text of the error.
    pub fn message(&self) -> (r: String)
        ensures
            r@ == self.text(),
    {
        match self {
            PasswordHasherError::Internal(m) => m.clone(),
        }
    }
}

impl TokenGeneratorError {
    /// The text of the underlying failure.
    pub open spec fn text(&self) -> Seq<char> {
        match self {
            TokenGeneratorError::Internal(m) => m@,
        }
    }

    /// The text of the error.
    pub fn message(&self) -> (r: String)
        ensures
            r@ == self.text(),
    {
        match self {
            TokenGeneratorError::Internal(m) => m.clone(),
        }
    }
}

impl AuthenticateError {
    /// `invalid crendials`, or the underlying failure's text.
    pub open spec fn text(&self) -> Seq<char> {
        match self {
            AuthenticateError::InvalidCredentials => "invalid crendials"@,
            AuthenticateError::Internal(m) => m@,
        }
    }

    /// The text of the error.
    pub fn message(&self) -> (r: String)
        ensures
            r@ == self.text(),
    {
        match self {
            AuthenticateError::InvalidCredentials => "invalid crendials".to_owned(),
            AuthenticateError::Internal(m) => m.clone(),
        }
    }
}

/// What an identity use case can fail with.
#[derive(Debug)]
pub enum IAMError {
    Hasher(PasswordHasherError),
    EventFetcher(EventFetcherError),
    Commiter(EventCommiterError),
    AggregateFetcher(AggregateFetcherError),
    Internal(String),
    Apply(ApplyErrorDetail),
    Authenticate(AuthenticateError),
}

impl IAMError {
    /// Wraps the apply error of any aggregate.
    pub fn apply<E: ApplyError>(e: E) -> (r: Self)
        ensures
            r matches IAMError::Apply(d) && d.failure == e.spec_failure() && d.message@ == e.spec_message() && d.aggregate@
                == E::spec_aggregate_type(),
            r.text() == "IAM Error: "@ + e.spec_message(),
    {
        IAMError::Apply(detail_of(&e))
    }

    /// The text of the error: a hasher failure and a refused event are
    /// prefixed with `IAM Error:`, the others give their own text.
    pub open spec fn text(&self) -> Seq<char> {
        match self {
            IAMError::Hasher(e) => "IAM Error:"@ + e.text(),
            IAMError::EventFetcher(e) => e.text(),
            IAMError::Commiter(e) => e.text(),
            IAMError::AggregateFetcher(e) => e.text(),
            IAMError::Internal(m) => m@,
            IAMError::Apply(d) => "IAM Error: "@ + d.message@,
            IAMError::Authenticate(e) => e.text(),
        }
    }

    /// The text of the error.
    pub fn message(&self) -> (r: String)
        ensures
            r@ == self.text(),
    {
        match self {
            IAMError::Hasher(e) => {
                let mut m = "IAM Error:".to_owned();
                let t = e.message();
                m.append(t.as_str());
                m
            },
            IAMError::EventFetcher(e) => e.message(),
            IAMError::Commiter(e) => e.message(),
            IAMError::AggregateFetcher(e) => e.message(),
            IAMError::Internal(m) => m.clone(),
            IAMError::Apply(d) => {
                let mut m = "IAM Error: ".to_owned();
                m.append(d.message);
                m
            },
            IAMError::Authenticate(e) => e.message(),
        }
    }
}

/// An `Internal` error that says `msg`.
pub open spec fn internal(r: Result<(), IAMError>, msg: Seq<char>) -> bool {
    r matches Err(IAMError::Internal(m)) && m@ == msg
}

/// The first check of a registration: the username and then the email must be free.
pub fn check_register(username_taken: bool, email_taken: bool) -> (r: Result<(), IAMError>)
    ensures
        username_taken ==> internal(r, "user is already exists"@),
        !username_taken && email_taken ==> internal(r, "email is already exists"@),
        !username_taken && !email_taken ==> r is Ok,
{
    if username_taken {
        return Err(IAMError::Internal("user is already exists".to_owned()));
    }
    if email_taken {
        return Err(IAMError::Internal("email is already exists".to_owned()));
    }
    Ok(())
}

/// Registers a user with a fresh id, the given name and email and the
/// password hash `phc`, once the username and the email are known to be free.
pub fn register(input: &RegisterWithEmail, phc: &str, username_taken: bool, email_taken: bool) -> (r: Result<
    Context<User>,
    IAMError,
>)
    ensures
        username_taken ==> (r matches Err(IAMError::Internal(m)) && m@ == "user is already exists"@),
        !username_taken && email_taken ==> (r matches Err(IAMError::Internal(m)) && m@
            == "email is already exists"@),
        !username_taken && !email_taken ==> (r matches Ok(ctx) && ctx.state() == Some(
            UserModel {
                id: ctx.spec_stream(),
                username: input.username@,
                email: Some(input.email@),
                phc: Some(phc@),
                roles: Set::empty(),
            },
        ) && ctx.spec_version() == 1 && ctx.pending().len() == 1 && ctx.pending()[0].spec_version() == 1
            && (ctx.pending()[0].spec_event() matches UserEvent::RegisteredByEmail { id, username, email, phc: p }
            && id == ctx.spec_stream() && username == input.username && email == input.email
            && (p matches Some(h) && h@ == phc@))),
{
    match check_register(username_taken, email_taken) {
        Ok(()) => {},
        Err(e) => {
            return Err(e);
        },
    }
    let id = new_ulid();
    let event = UserEvent::RegisteredByEmail {
        id,
        username: input.username.clone(),
        email: input.email.clone(),
        phc: Some(phc.to_owned()),
    };
    let mut user = Context::<User>::empty(id);
    match user.apply_event(event) {
        Ok(()) => Ok(user),
        Err(e) => Err(IAMError::apply(e)),
    }
}

/// The stored password hash of the user found by email.
pub fn login_phc(user: &Option<User>) -> (r: Result<String, IAMError>)
    ensures
        match user {
            None => r matches Err(IAMError::Internal(m)) && m@ == "User not exists"@,
            Some(u) => match u.phc {
                None => r matches Err(IAMError::Internal(m)) && m@ == "phc not exists"@,
                Some(p) => r matches Ok(s) && s@ == p@,
            },
        },
{
    match user {
        None => Err(IAMError::Internal("User not exists".to_owned())),
        Some(u) => match &u.phc {
            None => Err(IAMError::Internal("phc not exists".to_owned())),
            Some(p) => Ok(p.clone()),
        },
    }
}

/// A password that did not match the hash is refused.
pub fn login_verdict(verified: bool) -> (r: Result<(), IAMError>)
    ensures
        verified ==> r is Ok,
        !verified ==> internal(r, "password conflict"@),
{
    if verified {
        Ok(())
    } else {
        Err(IAMError::Internal("password conflict".to_owned()))
    }
}

/// What the login token is issued for: the user's id and the ids of its
/// roles, each role once, in the role set's iteration order.
pub fn login_payload(user: &User) -> (r: (u128, Vec<u128>))
    ensures
        r.0 == user@.id,
        r.1@.to_set() == user@.roles,
        r.1@.len() == user@.roles.len(),
        r.1@.no_duplicates(),
{
    let mut roles: Vec<u128> = Vec::new();
    crate::common::id_set::collect_ids(&user.roles, &mut roles);
    proof {
        assert(roles@.skip(0) =~= roles@);
    }
    (user.id, roles)
}

/// The issued token, or the failure to issue one.
pub fn login_token(token: Result<String, TokenGeneratorError>) -> (r: Result<String, IAMError>)
    ensures
        token matches Ok(t) ==> (r matches Ok(s) && s@ == t@),
        token is Err ==> (r matches Err(IAMError::Internal(m)) && m@ == "gen token failed"@),
{
    match token {
        Ok(t) => Ok(t),
        Err(_) => Err(IAMError::Internal("gen token failed".to_owned())),
    }
}

/// Records the deletion of a user.
pub fn delete_user(ctx: Context<User>) -> (r: Result<Context<User>, IAMError>)
    requires
        ctx.spec_version() < u64::MAX,
    ensures
        r matches Ok(c) && c.state() is None && recorded_one(ctx, c, UserEvent::Deleted),
{
    let mut ctx = ctx;
    match ctx.apply_event(UserEvent::Deleted) {
        Ok(()) => Ok(ctx),
        Err(e) => Err(IAMError::apply(e)),
    }
}

/// The user whose permission is checked must exist.
pub fn check_perm_user(user: Option<User>) -> (r: Result<User, IAMError>)
    ensures
        match user {
            Some(u) => r matches Ok(v) && v@ == u@,
            None => r matches Err(IAMError::Authenticate(AuthenticateError::InvalidCredentials)),
        },
{
    match user {
        Some(u) => Ok(u),
        None => Err(IAMError::Authenticate(AuthenticateError::InvalidCredentials)),
    }
}

/// The permission ids of all `roles`, role after role: each role gives its
/// ids once each, in its set's iteration order (an id held by two roles
/// appears twice).
pub fn perm_ids_of(roles: &Vec<Role>) -> (r: Vec<u128>)
    ensures
        exists|parts: Seq<Seq<u128>>| {
            &&& parts.len() == roles@.len()
            &&& forall|i: int| 0 <= i < parts.len() ==> (#[trigger] parts[i]).to_set() == roles@[i]@.perms
                && parts[i].no_duplicates() && parts[i].len() == roles@[i]@.perms.len()
            &&& r@ == parts.flatten()
        },
        forall|x: u128| r@.contains(x) <==> exists|i: int| 0 <= i < roles@.len() && (#[trigger] roles@[i])@.perms.contains(x),
{
    let mut out: Vec<u128> = Vec::new();
    let ghost mut parts: Seq<Seq<u128>> = Seq::empty();
    let mut i: usize = 0;
    while i < roles.len()
        invariant
            i <= roles@.len(),
            parts.len() == i,
            forall|j: int| 0 <= j < i ==> (#[trigger] parts[j]).to_set() == roles@[j]@.perms
                && parts[j].no_duplicates() && parts[j].len() == roles@[j]@.perms.len(),
            out@ == parts.flatten_alt(),
            forall|x: u128| out@.contains(x) <==> exists|j: int| 0 <= j < i && (#[trigger] roles@[j])@.perms.contains(x),
        decreases roles@.len() - i,
    {
        let ghost before = out@;
        crate::common::id_set::collect_ids(&roles[i].perms, &mut out);
        let ghost seg = out@.skip(before.len() as int);
        proof {
            assert(out@ =~= before + seg);
            let next = parts.push(seg);
            assert(next.drop_last() =~= parts);
            assert(next.flatten_alt() == parts.flatten_alt() + seg);
            assert forall|j: int| 0 <= j < i + 1 implies (#[trigger] next[j]).to_set() == roles@[j]@.perms
                && next[j].no_duplicates() && next[j].len() == roles@[j]@.perms.len() by {
                if j < i {
                    assert(next[j] == parts[j]);
                }
            }
            assert forall|x: u128| out@.contains(x) <==> exists|j: int| 0 <= j < i + 1 && (#[trigger] roles@[j])@.perms.contains(x) by {
                if out@.contains(x) {
                    let t = choose|t: int| 0 <= t < out@.len() && out@[t] == x;
                    if t < before.len() {
                        assert(before[t] == x);
                        assert(before.contains(x));
                    } else {
                        assert(seg[t - before.len()] == x);
                        assert(seg.to_set().contains(x));
                    }
                }
                if exists|j: int| 0 <= j < i + 1 && (#[trigger] roles@[j])@.perms.contains(x) {
                    let j = choose|j: int| 0 <= j < i + 1 && (#[trigger] roles@[j])@.perms.contains(x);
                    if j < i {
                        assert(before.contains(x));
                        let t = choose|t: int| 0 <= t < before.len() && before[t] == x;
                        assert(out@[t] == x);
                    } else {
                        assert(seg.to_set().contains(x));
                        let t = choose|t: int| 0 <= t < seg.len() && seg[t] == x;
                        assert(out@[before.len() + t] == x);
                    }
                }
            }
            parts = next;
        }
        i = i + 1;
    }
    proof {
        parts.lemma_flatten_and_flatten_alt_are_equivalent();
    }
    out
}

/// Whether one of `perms` carries `code`; a text that is not a valid code is
/// refused as invalid credentials.
pub fn check_perm_result(perms: &Vec<Perm>, code: &str) -> (r: Result<bool, IAMError>)
    ensures
        !valid_dot_code(code@) ==> r matches Err(IAMError::Authenticate(AuthenticateError::InvalidCredentials)),
        valid_dot_code(code@) ==> r == Ok::<bool, IAMError>(
            exists|i: int| 0 <= i < perms@.len() && (#[trigger] perms@[i])@.code == code@,
        ),
{
    let wanted = match PermCode::try_from_str(code) {
        Ok(c) => c,
        Err(_) => {
            return Err(IAMError::Authenticate(AuthenticateError::InvalidCredentials));
        },
    };
    let mut i: usize = 0;
    while i < perms.len()
        invariant
            i <= perms@.len(),
            forall|j: int| 0 <= j < i ==> (#[trigger] perms@[j])@.code != code@,
            wanted@ == code@,
            valid_dot_code(code@),
        decreases perms@.len() - i,
    {
        if perms[i].code == wanted {
            proof {
                assert(perms@[i as int]@.code == code@);
            }
            return Ok(true);
        }
        i = i + 1;
    }
    Ok(false)
}

/// Records a new role with a fresh id.
pub fn create_role(input: CreateRole) -> (r: Result<Context<Role>, IAMError>)
    ensures
        r matches Ok(ctx) && ctx.state() == Some(
            RoleModel {
                id: ctx.spec_stream(),
                name: input.name@,
                description: input.description@,
                perms: Set::empty(),
                parent: input.parent,
            },
        ) && ctx.spec_version() == 1 && ctx.pending().len() == 1 && ctx.pending()[0].spec_version() == 1
            && ctx.pending()[0].spec_event() == (RoleEvent::Created {
            id: ctx.spec_stream(),
            name: input.name,
            description: input.description,
            parent: input.parent,
        }),
{
    let id = new_ulid();
    let event = RoleEvent::Created { id, name: input.name, description: input.description, parent: input.parent };
    let mut role = Context::<Role>::empty(id);
    match role.apply_event(event) {
        Ok(()) => Ok(role),
        Err(e) => Err(IAMError::apply(e)),
    }
}

/// Records `event` on a role that must exist.
fn change_role(ctx: Context<Role>, event: RoleEvent) -> (r: Result<Context<Role>, IAMError>)
    requires
        ctx.spec_version() < u64::MAX,
        !(event is Created),
    ensures
        ctx.state() is None ==> (r matches Err(IAMError::Internal(m)) && m@ == "role not found"@),
        ctx.state() matches Some(s) ==> (r matches Ok(c) && Role::next(Some(s), event) matches Ok(t) && c.state() == t
            && recorded_one(ctx, c, event)),
{
    let mut ctx = ctx;
    if ctx.as_aggregate().is_none() {
        return Err(IAMError::Internal("role not found".to_owned()));
    }
    match ctx.apply_event(event) {
        Ok(()) => Ok(ctx),
        Err(e) => Err(IAMError::apply(e)),
    }
}

/// Records the deletion of a role that must exist.
pub fn delete_role(ctx: Context<Role>, input: DeleteRole) -> (r: Result<Context<Role>, IAMError>)
    requires
        ctx.spec_version() < u64::MAX,
    ensures
        ctx.state() is None ==> (r matches Err(IAMError::Internal(m)) && m@ == "role not found"@),
        ctx.state() is Some ==> (r matches Ok(c) && c.state() is None && recorded_one(ctx, c, RoleEvent::Deleted)),
{
    change_role(ctx, RoleEvent::Deleted)
}

/// Grants permissions to a role that must exist.
pub fn assign_perms_to_role(ctx: Context<Role>, input: AssignPermsToRole) -> (r: Result<Context<Role>, IAMError>)
    requires
        ctx.spec_version() < u64::MAX,
    ensures
        ctx.state() is None ==> (r matches Err(IAMError::Internal(m)) && m@ == "role not found"@),
        ctx.state() matches Some(s) ==> (r matches Ok(c) && c.state() == Some(
            RoleModel { perms: s.perms.union(input.perm_ids@), ..s },
        ) && recorded_one(ctx, c, RoleEvent::AssignedPerms(input.perm_ids))),
{
    change_role(ctx, RoleEvent::AssignedPerms(input.perm_ids))
}

/// Takes permissions from a role that must exist.
pub fn remove_perms_from_role(ctx: Context<Role>, input: RemovePermsFromRole) -> (r: Result<Context<Role>, IAMError>)
    requires
        ctx.spec_version() < u64::MAX,
    ensures
        ctx.state() is None ==> (r matches Err(IAMError::Internal(m)) && m@ == "role not found"@),
        ctx.state() matches Some(s) ==> (r matches Ok(c) && c.state() == Some(
            RoleModel { perms: s.perms.difference(input.perm_ids@), ..s },
        ) && recorded_one(ctx, c, RoleEvent::RemovedRoles(input.perm_ids))),
{
    change_role(ctx, RoleEvent::RemovedRoles(input.perm_ids))
}

/// Records a new permission with a fresh id; the code must be valid.
pub fn create_perm(input: CreatePerm) -> (r: Result<Context<Perm>, IAMError>)
    ensures
        !valid_dot_code(input.code@) ==> (r matches Err(IAMError::Internal(m)) && m@
            == "invalid perm code: "@ + "Invalid perm code: "@ + input.code@),
        valid_dot_code(input.code@) ==> (r matches Ok(ctx) && ctx.state() == Some(
            PermModel {
                id: ctx.spec_stream(),
                name: input.name@,
                description: input.description@,
                code: input.code@,
            },
        ) && ctx.spec_version() == 1 && ctx.pending().len() == 1 && ctx.pending()[0].spec_version() == 1
            && (ctx.pending()[0].spec_event() matches PermEvent::Created { id, name, description, code }
            && id == ctx.spec_stream() && name == input.name && description == input.description
            && code@ == input.code@)),
{
    let code = match PermCode::try_from_str(input.code.as_str()) {
        Ok(c) => c,
        Err(e) => {
            let mut m = "invalid perm code: ".to_owned();
            let detail = e.message();
            m.append(detail.as_str());
            proof {
                assert(m@ =~= "invalid perm code: "@ + "Invalid perm code: "@ + input.code@);
            }
            return Err(IAMError::Internal(m));
        },
    };
    let id = new_ulid();
    let event = PermEvent::Created { id, name: input.name, description: input.description, code };
    let mut perm = Context::<Perm>::empty(id);
    match perm.apply_event(event) {
        Ok(()) => Ok(perm),
        Err(e) => Err(IAMError::apply(e)),
    }
}

/// Records the deletion of a permission that must exist.
pub fn delete_perm(ctx: Context<Perm>, input: DeletePerm) -> (r: Result<Context<Perm>, IAMError>)
    requires
        ctx.spec_version() < u64::MAX,
    ensures
        ctx.state() is None ==> (r matches Err(IAMError::Internal(m)) && m@ == "perm not found"@),
        ctx.state() is Some ==> (r matches Ok(c) && c.state() is None && recorded_one(ctx, c, PermEvent::Deleted)),
{
    let mut ctx = ctx;
    if ctx.as_aggregate().is_none() {
        return Err(IAMError::Internal("perm not found".to_owned()));
    }
    match ctx.apply_event(PermEvent::Deleted) {
        Ok(()) => Ok(ctx),
        Err(e) => Err(IAMError::apply(e)),
    }
}

} // verus!
