//! Posts: titled content written by an author and filed under taxonomies.
use vstd::prelude::*;

use crate::common::aggregate::{Aggregate, Apply, Event as AggregateEvent, Key};
use crate::common::error::{ApplyError, ApplyFailure};
use crate::external::{clone_ids, clone_opt_string, clone_opt_url, opt_text};

verus! {

/// What can happen to a post.
pub enum Event {
    Created {
        id: u128,
        title: String,
        author: u128,
        taxonomy: Vec<u128>,
        hero: Option<url::Url>,
        format: Option<String>,
        content: String,
    },
    Deleted,
    Updated {
        title: String,
        hero: Option<url::Url>,
        taxonomy: Vec<u128>,
        format: Option<String>,
        content: String,
    },
    UpdatedByAuthor {
        author: u128,
        title: String,
        hero: Option<url::Url>,
        taxonomy: Vec<u128>,
        format: Option<String>,
        content: String,
    },
    DeletedByAuthor { author: u128 },
}

impl AggregateEvent for Event {
    open spec fn spec_kind(&self) -> Seq<char> {
        match self {
            Event::Created { .. } => "POST.CREATED"@,
            Event::Deleted => "POST.DELETED"@,
            Event::Updated { .. } => "POST.UPDATED"@,
            Event::UpdatedByAuthor { .. } => "POST.UPDATED_BY_AUTHOR"@,
            Event::DeletedByAuthor { .. } => "POST.DELETED_BY_AUTHOR"@,
        }
    }

    fn kind(&self) -> (r: &'static str) {
        match self {
            Event::Created { .. } => "POST.CREATED",
            Event::Deleted => "POST.DELETED",
            Event::Updated { .. } => "POST.UPDATED",
            Event::UpdatedByAuthor { .. } => "POST.UPDATED_BY_AUTHOR",
            Event::DeletedByAuthor { .. } => "POST.DELETED_BY_AUTHOR",
        }
    }
}

/// A post.
pub struct Post {
    pub id: u128,
    pub title: String,
    pub author: u128,
    pub tag: Vec<u128>,
    pub taxonomy: Vec<u128>,
    pub hero: Option<url::Url>,
    pub format: Option<String>,
    pub content: String,
}

/// What a post holds.
pub struct PostModel {
    pub id: u128,
    pub title: Seq<char>,
    pub author: u128,
    pub tag: Seq<u128>,
    pub taxonomy: Seq<u128>,
    pub hero: Option<url::Url>,
    pub format: Option<Seq<char>>,
    pub content: Seq<char>,
}

impl View for Post {
    type V = PostModel;

    open spec fn view(&self) -> PostModel {
        PostModel {
            id: self.id,
            title: self.title@,
            author: self.author,
            tag: self.tag@,
            taxonomy: self.taxonomy@,
            hero: self.hero,
            format: opt_text(self.format),
            content: self.content@,
        }
    }
}

/// The unique keys under which a post can be looked up.
pub enum PostKey {
    Title(String),
}

impl Key for PostKey {
    open spec fn spec_unique(&self) -> bool {
        true
    }

    fn unique(&self) -> (r: bool) {
        match self {
            PostKey::Title(..) => true,
        }
    }
}

impl Aggregate for Post {
    type Event = Event;

    type Key = PostKey;

    open spec fn model_id(m: PostModel) -> u128 {
        m.id
    }

    open spec fn spec_ty() -> Seq<char> {
        "jimo_domain::aggregate::post::Post"@
    }

    fn id(&self) -> (r: &u128) {
        &self.id
    }

    fn ty() -> (r: &'static str) {
        "jimo_domain::aggregate::post::Post"
    }
}

/// A post event that could not be applied.
#[derive(Debug, PartialEq, Eq, Structural)]
pub enum PostApplyError {
    Internal(ApplyFailure),
}

impl ApplyError for PostApplyError {
    open spec fn spec_failure(&self) -> ApplyFailure {
        match self {
            PostApplyError::Internal(f) => *f,
        }
    }

    open spec fn spec_aggregate_type() -> Seq<char> {
        Post::spec_ty()
    }

    fn failure(&self) -> (r: ApplyFailure) {
        match self {
            PostApplyError::Internal(f) => *f,
        }
    }

    fn aggregate_type(&self) -> (r: &'static str) {
        Post::ty()
    }

    open spec fn spec_message(&self) -> Seq<char> {
        match self.spec_failure() {
            ApplyFailure::MustBeNone => "Post must be none"@,
            ApplyFailure::CannotBeNone => "aggregate can't be none"@,
            ApplyFailure::AuthorMismatch => "author does not match"@,
        }
    }

    fn message(&self) -> (r: &'static str) {
        match self.failure() {
            ApplyFailure::MustBeNone => "Post must be none",
            ApplyFailure::CannotBeNone => "aggregate can't be none",
            ApplyFailure::AuthorMismatch => "author does not match",
        }
    }
}

/// A post with its title, hero, taxonomy, format and content replaced.
pub open spec fn edited(
    p: PostModel,
    title: Seq<char>,
    hero: Option<url::Url>,
    taxonomy: Seq<u128>,
    format: Option<Seq<char>>,
    content: Seq<char>,
) -> PostModel {
    PostModel { title, hero, taxonomy, format, content, ..p }
}

impl Apply for Post {
    type Error = PostApplyError;

    /// `Created` needs no post yet and makes one with no tags; `Deleted`
    /// leaves none; `Updated` needs a post and replaces its title, hero,
    /// taxonomy, format and content; `UpdatedByAuthor` does the same but only
    /// for the post's author; `DeletedByAuthor` leaves none unless a post of
    /// another author is there.
    open spec fn next(state: Option<PostModel>, event: Event) -> Result<Option<PostModel>, PostApplyError> {
        match event {
            Event::Created { id, title, author, taxonomy, hero, format, content } => if state is Some {
                Err(PostApplyError::Internal(ApplyFailure::MustBeNone))
            } else {
                Ok(
                    Some(
                        PostModel {
                            id,
                            title: title@,
                            author,
                            tag: Seq::empty(),
                            taxonomy: taxonomy@,
                            hero,
                            format: opt_text(format),
                            content: content@,
                        },
                    ),
                )
            },
            Event::Deleted => Ok(None),
            Event::Updated { title, hero, taxonomy, format, content } => match state {
                Some(p) => Ok(Some(edited(p, title@, hero, taxonomy@, opt_text(format), content@))),
                None => Err(PostApplyError::Internal(ApplyFailure::CannotBeNone)),
            },
            Event::UpdatedByAuthor { author, title, hero, taxonomy, format, content } => match state {
                Some(p) => if p.author != author {
                    Err(PostApplyError::Internal(ApplyFailure::AuthorMismatch))
                } else {
                    Ok(Some(edited(p, title@, hero, taxonomy@, opt_text(format), content@)))
                },
                None => Err(PostApplyError::Internal(ApplyFailure::CannotBeNone)),
            },
            Event::DeletedByAuthor { author } => match state {
                Some(p) => if p.author != author {
                    Err(PostApplyError::Internal(ApplyFailure::AuthorMismatch))
                } else {
                    Ok(None)
                },
                None => Ok(None),
            },
        }
    }

    fn apply(aggregate: &mut Option<Self>, event: &Event) -> (r: Result<(), PostApplyError>) {
        match event {
            Event::Created { id, title, author, taxonomy, hero, format, content } => {
                if aggregate.is_some() {
                    return Err(PostApplyError::Internal(ApplyFailure::MustBeNone));
                }
                let post = Post {
                    id: *id,
                    title: title.clone(),
                    author: *author,
                    tag: Vec::new(),
                    taxonomy: clone_ids(taxonomy),
                    hero: clone_opt_url(hero),
                    format: clone_opt_string(format),
                    content: content.clone(),
                };
                *aggregate = Some(post);
            },
            Event::Deleted => {
                aggregate.take();
            },
            Event::Updated { title, hero, taxonomy, format, content } => {
                match aggregate {
                    Some(p) => {
                        p.title = title.clone();
                        p.hero = clone_opt_url(hero);
                        p.format = clone_opt_string(format);
                        p.content = content.clone();
                        p.taxonomy = clone_ids(taxonomy);
                    },
                    None => {
                        return Err(PostApplyError::Internal(ApplyFailure::CannotBeNone));
                    },
                }
            },
            Event::UpdatedByAuthor { author, title, hero, taxonomy, format, content } => {
                match aggregate {
                    Some(p) => {
                        if p.author != *author {
                            return Err(PostApplyError::Internal(ApplyFailure::AuthorMismatch));
                        }
                        p.title = title.clone();
                        p.hero = clone_opt_url(hero);
                        p.format = clone_opt_string(format);
                        p.content = content.clone();
                        p.taxonomy = clone_ids(taxonomy);
                    },
                    None => {
                        return Err(PostApplyError::Internal(ApplyFailure::CannotBeNone));
                    },
                }
            },
            Event::DeletedByAuthor { author } => {
                match aggregate {
                    Some(p) => {
                        if p.author != *author {
                            return Err(PostApplyError::Internal(ApplyFailure::AuthorMismatch));
                        }
                    },
                    None => {},
                }
                aggregate.take();
            },
        }
        Ok(())
    }
}


/// Once a post exists, no accepted event changes its id.
pub proof fn law_post_id_stable(m: PostModel, event: Event)
    ensures
        Post::next(Some(m), event) matches Ok(Some(m2)) ==> m2.id == m.id,
{
}

/// Only `Created` brings a post into being; nothing else accepted on an absent
/// post leaves one behind.
pub proof fn law_post_only_creation_creates(event: Event)
    ensures
        Post::next(None, event) matches Ok(Some(_)) ==> event is Created,
{
}

/// `Deleted` leaves no post, whatever was there.
pub proof fn law_post_deleted_clears(state: Option<PostModel>)
    ensures
        Post::next(state, Event::Deleted) == Ok::<Option<PostModel>, <Post as Apply>::Error>(None),
{
}


/// No accepted event changes who wrote a post.
pub proof fn law_post_author_stable(m: PostModel, event: Event)
    ensures
        Post::next(Some(m), event) matches Ok(Some(m2)) ==> m2.author == m.author,
{
}

/// Author-only changes to an existing post are accepted only from its author;
/// from anyone else they are refused and change nothing.
pub proof fn law_post_author_only(m: PostModel, event: Event)
    ensures
        event matches Event::UpdatedByAuthor { author, .. } ==> (Post::next(Some(m), event) is Ok
            <==> author == m.author),
        event matches Event::DeletedByAuthor { author } ==> (Post::next(Some(m), event) is Ok <==> author
            == m.author),
        (event is UpdatedByAuthor || event is DeletedByAuthor) && Post::next(Some(m), event) is Err
            ==> Post::next(Some(m), event) == Err::<Option<PostModel>, PostApplyError>(
            PostApplyError::Internal(ApplyFailure::AuthorMismatch),
        ),
{
}

/// The text held for an optional format: the event's text, or none.
pub open spec fn format_held(held: Option<Seq<char>>, given: Option<String>) -> bool {
    match given {
        Some(f) => held == Some(f@),
        None => held is None,
    }
}

/// Creating a post on nothing gives a post that carries exactly the event's
/// id, title, author, taxonomy, hero, format and content, with no tags; on an
/// existing post it is refused and nothing is made.
pub proof fn law_post_created_fields(
    state: Option<PostModel>,
    id: u128,
    title: String,
    author: u128,
    taxonomy: Vec<u128>,
    hero: Option<url::Url>,
    format: Option<String>,
    content: String,
)
    ensures
        ({
            let r = Post::next(state, Event::Created { id, title, author, taxonomy, hero, format, content });
            &&& state is None ==> (r matches Ok(Some(m)) && m.id == id && m.title == title@ && m.author == author
                && m.tag.len() == 0 && m.taxonomy == taxonomy@ && m.hero == hero && format_held(m.format, format)
                && m.content == content@)
            &&& state is Some ==> r == Err::<Option<PostModel>, PostApplyError>(PostApplyError::Internal(ApplyFailure::MustBeNone))
        }),
{
}

/// An update of an existing post replaces its title, hero, taxonomy, format
/// and content by the event's and keeps its id, author and tags; an update of
/// nothing is refused.
pub proof fn law_post_updated_fields(
    state: Option<PostModel>,
    title: String,
    hero: Option<url::Url>,
    taxonomy: Vec<u128>,
    format: Option<String>,
    content: String,
)
    ensures
        ({
            let r = Post::next(state, Event::Updated { title, hero, taxonomy, format, content });
            &&& state matches Some(m) ==> (r matches Ok(Some(m2)) && m2.id == m.id && m2.author == m.author
                && m2.tag == m.tag && m2.title == title@ && m2.hero == hero && m2.taxonomy == taxonomy@
                && format_held(m2.format, format) && m2.content == content@)
            &&& state is None ==> r == Err::<Option<PostModel>, PostApplyError>(PostApplyError::Internal(ApplyFailure::CannotBeNone))
        }),
{
}

/// An update by the post's own author replaces its title, hero, taxonomy,
/// format and content by the event's and keeps its id, author and tags; by
/// anyone else it is refused, and an update of nothing is refused.
pub proof fn law_post_updated_by_author_fields(
    state: Option<PostModel>,
    author: u128,
    title: String,
    hero: Option<url::Url>,
    taxonomy: Vec<u128>,
    format: Option<String>,
    content: String,
)
    ensures
        ({
            let r = Post::next(state, Event::UpdatedByAuthor { author, title, hero, taxonomy, format, content });
            let m = state.unwrap();
            &&& (state is Some && m.author == author) ==> (r matches Ok(Some(m2)) && m2.id == m.id
                && m2.author == m.author && m2.tag == m.tag && m2.title == title@ && m2.hero == hero
                && m2.taxonomy == taxonomy@ && format_held(m2.format, format) && m2.content == content@)
            &&& (state is Some && m.author != author) ==> r == Err::<Option<PostModel>, PostApplyError>(
                PostApplyError::Internal(ApplyFailure::AuthorMismatch),
            )
            &&& state is None ==> r == Err::<Option<PostModel>, PostApplyError>(PostApplyError::Internal(ApplyFailure::CannotBeNone))
        }),
{
}

/// A deletion by the post's author, or of nothing, leaves no post; a deletion
/// by anyone else is refused.
pub proof fn law_post_deleted_by_author(state: Option<PostModel>, author: u128)
    ensures
        ({
            let r = Post::next(state, Event::DeletedByAuthor { author });
            let m = state.unwrap();
            &&& (state is None || m.author == author) ==> r == Ok::<Option<PostModel>, PostApplyError>(None)
            &&& (state is Some && m.author != author) ==> r == Err::<Option<PostModel>, PostApplyError>(
                PostApplyError::Internal(ApplyFailure::AuthorMismatch),
            )
        }),
{
}

} // verus!
