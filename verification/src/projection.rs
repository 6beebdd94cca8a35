//! The read models of posts and users.
use vstd::prelude::*;

use std::path::PathBuf;

use crate::common::aggregate::Key;
use crate::common::projection::{MultiProjection, Projection};

verus! {

/// The author of a post as shown with it.
pub struct PostAuthor {
    pub id: u128,
    pub username: String,
    pub nickname: String,
}

/// A tag as shown with a post.
pub struct PostTag {
    pub id: u128,
    pub name: String,
}

/// A taxonomy as shown with a post.
pub struct PostTaxonomy {
    pub id: u128,
    pub name: String,
    pub path: PathBuf,
}

/// The unique keys of the post read model.
pub enum PostViewUniqueKey {
    Title(String),
}

impl Key for PostViewUniqueKey {
    open spec fn spec_unique(&self) -> bool {
        true
    }

    fn unique(&self) -> (r: bool) {
        match self {
            PostViewUniqueKey::Title(..) => true,
        }
    }
}

/// A post with its author, tags and taxonomies filled in.
pub struct PostView {
    pub id: u128,
    pub title: String,
    pub author: PostAuthor,
    pub tags: Vec<PostTag>,
    pub taxonomies: Vec<PostTaxonomy>,
    pub hero: Option<url::Url>,
    pub format: Option<String>,
    pub content: String,
}

impl Projection for PostView {
    open spec fn spec_id(&self) -> u128 {
        self.id
    }

    fn id(&self) -> (r: &u128) {
        &self.id
    }
}

impl MultiProjection for PostView {
    type Key = PostViewUniqueKey;
}

/// A user with the profile fields filled in.
pub struct UserView {
    pub id: u128,
    pub username: String,
    pub email: Option<String>,
    pub nickname: String,
    pub avatar: Option<String>,
}

impl Projection for UserView {
    open spec fn spec_id(&self) -> u128 {
        self.id
    }

    fn id(&self) -> (r: &u128) {
        &self.id
    }
}

/// The keys of the user read model; only nicknames may repeat.
pub enum UserViewKey {
    Username(String),
    Email(String),
    Nickname(String),
}

impl Key for UserViewKey {
    open spec fn spec_unique(&self) -> bool {
        !(self is Nickname)
    }

    fn unique(&self) -> (r: bool) {
        match self {
            UserViewKey::Email(..) => true,
            UserViewKey::Username(..) => true,
            UserViewKey::Nickname(..) => false,
        }
    }
}

impl MultiProjection for UserView {
    type Key = UserViewKey;
}

} // verus!
