//! Writing and editing posts.
use vstd::prelude::*;

use std::path::PathBuf;

use crate::aggregate::post::{Event as PostEvent, Post, PostModel};
use crate::common::aggregate::{Apply, Context, recorded_one};
use crate::common::error::{AggregateFetcherError, ApplyError, ApplyErrorDetail, EventCommiterError, detail_of};
use crate::external::{clone_ids, clone_opt_string, clone_opt_url, opt_text};
use crate::projection::{PostAuthor, PostTag, PostTaxonomy, PostView};
use vstd::std_specs::convert::FromSpec;

verus! {

/// A new post.
pub struct CreatePost {
    pub title: String,
    pub author: u128,
    pub taxonomy: Vec<u128>,
    pub hero: Option<url::Url>,
    pub format: Option<String>,
    pub content: String,
}

/// New content for an existing post.
pub struct UpdatePost {
    pub id: u128,
    pub title: String,
    pub taxonomy: Vec<u128>,
    pub hero: Option<url::Url>,
    pub format: Option<String>,
    pub content: String,
}

/// The author of a post, as handed to clients.
pub struct PostAuthorItem {
    pub id: u128,
    pub username: String,
    pub nickname: String,
}

impl From<PostAuthor> for PostAuthorItem {
    fn from(author: PostAuthor) -> (r: Self) {
        PostAuthorItem { id: author.id, username: author.username, nickname: author.nickname }
    }
}

impl vstd::std_specs::convert::FromSpecImpl<PostAuthor> for PostAuthorItem {
    open spec fn obeys_from_spec() -> bool {
        true
    }

    open spec fn from_spec(author: PostAuthor) -> PostAuthorItem {
        PostAuthorItem { id: author.id, username: author.username, nickname: author.nickname }
    }
}

/// A tag of a post, as handed to clients.
pub struct PostTagItem {
    pub id: u128,
    pub name: String,
}

impl From<PostTag> for PostTagItem {
    fn from(tag: PostTag) -> (r: Self) {
        PostTagItem { id: tag.id, name: tag.name }
    }
}

impl vstd::std_specs::convert::FromSpecImpl<PostTag> for PostTagItem {
    open spec fn obeys_from_spec() -> bool {
        true
    }

    open spec fn from_spec(tag: PostTag) -> PostTagItem {
        PostTagItem { id: tag.id, name: tag.name }
    }
}

/// A taxonomy of a post, as handed to clients.
pub struct PostTaxonomyItem {
    pub id: u128,
    pub name: String,
    pub path: PathBuf,
}

impl From<PostTaxonomy> for PostTaxonomyItem {
    fn from(taxonomy: PostTaxonomy) -> (r: Self) {
        PostTaxonomyItem { id: taxonomy.id, name: taxonomy.name, path: taxonomy.path }
    }
}

impl vstd::std_specs::convert::FromSpecImpl<PostTaxonomy> for PostTaxonomyItem {
    open spec fn obeys_from_spec() -> bool {
        true
    }

    open spec fn from_spec(taxonomy: PostTaxonomy) -> PostTaxonomyItem {
        PostTaxonomyItem { id: taxonomy.id, name: taxonomy.name, path: taxonomy.path }
    }
}

/// A post as handed to clients.
pub struct PostItem {
    pub id: u128,
    pub title: String,
    pub author: PostAuthorItem,
    pub tags: Vec<PostTagItem>,
    pub taxonomies: Vec<PostTaxonomyItem>,
    pub hero: Option<url::Url>,
    pub format: Option<String>,
    pub content: String,
}

impl PostItem {
    /// The client form of a post read model: every field carried over, the
    /// tags and taxonomies in the same order.
    pub fn from_view(view: PostView) -> (r: Self)
        ensures
            r.id == view.id,
            r.title == view.title,
            r.author == PostAuthorItem::from_spec(view.author),
            r.tags@.len() == view.tags@.len(),
            forall|i: int| 0 <= i < r.tags@.len() ==> r.tags@[i] == PostTagItem::from_spec(#[trigger] view.tags@[i]),
            r.taxonomies@.len() == view.taxonomies@.len(),
            forall|i: int| 0 <= i < r.taxonomies@.len() ==> r.taxonomies@[i] == PostTaxonomyItem::from_spec(
                #[trigger] view.taxonomies@[i],
            ),
            r.hero == view.hero,
            r.format == view.format,
            r.content == view.content,
    {
        let PostView { id, title, author, tags, taxonomies, hero, format, content } = view;
        let ghost tags0 = tags@;
        let ghost taxes0 = taxonomies@;
        let mut tags = tags;
        let mut tag_items: Vec<PostTagItem> = Vec::new();
        while tags.len() > 0
            invariant
                tag_items@.len() + tags@.len() == tags0.len(),
                tags@ == tags0.skip(tag_items@.len() as int),
                forall|i: int| 0 <= i < tag_items@.len() ==> tag_items@[i] == PostTagItem::from_spec(#[trigger] tags0[i]),
            decreases tags@.len(),
        {
            let t = tags.remove(0);
            proof {
                assert(t == tags0[tag_items@.len() as int]);
            }
            tag_items.push(PostTagItem::from(t));
            proof {
                assert(tags@ =~= tags0.skip(tag_items@.len() as int));
            }
        }
        let mut taxonomies = taxonomies;
        let mut tax_items: Vec<PostTaxonomyItem> = Vec::new();
        while taxonomies.len() > 0
            invariant
                tax_items@.len() + taxonomies@.len() == taxes0.len(),
                taxonomies@ == taxes0.skip(tax_items@.len() as int),
                forall|i: int| 0 <= i < tax_items@.len() ==> tax_items@[i] == PostTaxonomyItem::from_spec(#[trigger] taxes0[i]),
            decreases taxonomies@.len(),
        {
            let t = taxonomies.remove(0);
            proof {
                assert(t == taxes0[tax_items@.len() as int]);
            }
            tax_items.push(PostTaxonomyItem::from(t));
            proof {
                assert(taxonomies@ =~= taxes0.skip(tax_items@.len() as int));
            }
        }
        PostItem {
            id,
            title,
            author: PostAuthorItem::from(author),
            tags: tag_items,
            taxonomies: tax_items,
            hero,
            format,
            content,
        }
    }
}

/// What a post use case can fail with.
#[derive(Debug)]
pub enum PostError {
    Commiter(EventCommiterError),
    Fetcher(AggregateFetcherError),
    Internal(String),
    Apply(ApplyErrorDetail),
}

impl PostError {
    /// Wraps the apply error of any aggregate.
    pub fn apply<E: ApplyError>(e: E) -> (r: Self)
        ensures
            r matches PostError::Apply(d) && d.failure == e.spec_failure() && d.message@ == e.spec_message() && d.aggregate@
                == E::spec_aggregate_type(),
            r.text() == "Taxonomy Error: "@ + e.spec_message(),
    {
        PostError::Apply(detail_of(&e))
    }

    /// The text of the error: a refused event is prefixed with
    /// `Taxonomy Error: `, the others give their own text.
    pub open spec fn text(&self) -> Seq<char> {
        match self {
            PostError::Commiter(e) => e.text(),
            PostError::Fetcher(e) => e.text(),
            PostError::Internal(m) => m@,
            PostError::Apply(d) => "Taxonomy Error: "@ + d.message@,
        }
    }

    /// The text of the error.
    pub fn message(&self) -> (r: String)
        ensures
            r@ == self.text(),
    {
        match self {
            PostError::Commiter(e) => e.message(),
            PostError::Fetcher(e) => e.message(),
            PostError::Internal(m) => m.clone(),
            PostError::Apply(d) => {
                let mut m = "Taxonomy Error: ".to_owned();
                m.append(d.message);
                m
            },
        }
    }
}

/// What applying `event` to `ctx` gave: the context with the event recorded,
/// or the refusal.
pub open spec fn post_changed(ctx: Context<Post>, event: PostEvent, r: Result<Context<Post>, PostError>) -> bool {
    match Post::next(ctx.state(), event) {
        Ok(t) => r matches Ok(c) && c.state() == t && recorded_one(ctx, c, event),
        Err(e) => r matches Err(PostError::Apply(d)) && d.failure == e.spec_failure() && d.message@ == e.spec_message(),
    }
}

fn change_post(ctx: Context<Post>, event: PostEvent) -> (r: Result<Context<Post>, PostError>)
    requires
        ctx.spec_version() < u64::MAX,
    ensures
        post_changed(ctx, event, r),
{
    let mut ctx = ctx;
    match ctx.apply_event(event) {
        Ok(()) => Ok(ctx),
        Err(e) => Err(PostError::apply(e)),
    }
}

/// Records a new post with a fresh id, once its title is known to be free.
pub fn create_post(input: &CreatePost, title_taken: bool) -> (r: Result<Context<Post>, PostError>)
    ensures
        title_taken ==> (r matches Err(PostError::Internal(m)) && m@ == "title is already exists"@),
        !title_taken ==> (r matches Ok(ctx) && ctx.state() == Some(
            PostModel {
                id: ctx.spec_stream(),
                title: input.title@,
                author: input.author,
                tag: Seq::empty(),
                taxonomy: input.taxonomy@,
                hero: input.hero,
                format: opt_text(input.format),
                content: input.content@,
            },
        ) && ctx.spec_version() == 1 && ctx.pending().len() == 1 && ctx.pending()[0].spec_version() == 1
            && (ctx.pending()[0].spec_event() matches PostEvent::Created { id, title, author, taxonomy, hero, format, content }
            && id == ctx.spec_stream() && title == input.title && author == input.author && taxonomy@
            == input.taxonomy@ && hero == input.hero && format == input.format && content == input.content)),
{
    if title_taken {
        return Err(PostError::Internal("title is already exists".to_owned()));
    }
    let id = crate::external::new_ulid();
    let event = PostEvent::Created {
        id,
        title: input.title.clone(),
        author: input.author,
        taxonomy: clone_ids(&input.taxonomy),
        hero: clone_opt_url(&input.hero),
        format: clone_opt_string(&input.format),
        content: input.content.clone(),
    };
    let mut ctx = Context::<Post>::empty(id);
    match ctx.apply_event(event) {
        Ok(()) => Ok(ctx),
        Err(e) => Err(PostError::apply(e)),
    }
}

/// Records the deletion of a post.
pub fn delete_post(ctx: Context<Post>) -> (r: Result<Context<Post>, PostError>)
    requires
        ctx.spec_version() < u64::MAX,
    ensures
        r matches Ok(c) && c.state() is None && recorded_one(ctx, c, PostEvent::Deleted),
{
    change_post(ctx, PostEvent::Deleted)
}

/// Records the deletion of a post by `author`; refused when the post exists
/// and has another author.
pub fn user_delete_post(ctx: Context<Post>, author: u128) -> (r: Result<Context<Post>, PostError>)
    requires
        ctx.spec_version() < u64::MAX,
    ensures
        post_changed(ctx, PostEvent::DeletedByAuthor { author }, r),
{
    change_post(ctx, PostEvent::DeletedByAuthor { author })
}

/// Whether `update_post` asks who else uses the new title: only when the
/// post exists and the title changes.
pub fn update_post_title_changes(ctx: &Context<Post>, input: &UpdatePost) -> (r: Result<bool, PostError>)
    ensures
        match ctx.state() {
            None => r matches Err(PostError::Internal(m)) && m@ == "post not exists"@,
            Some(p) => r == Ok::<bool, PostError>(p.title != input.title@),
        },
{
    match ctx.as_aggregate() {
        None => Err(PostError::Internal("post not exists".to_owned())),
        Some(p) => Ok(p.title != input.title),
    }
}

/// Records an update of a post. It goes ahead only when the post exists, its
/// title changes, and `title_in_use` (another post already has the new
/// title) holds; otherwise the title is reported as already existing.
pub fn update_post(ctx: Context<Post>, input: UpdatePost, title_in_use: bool) -> (r: Result<Context<Post>, PostError>)
    requires
        ctx.spec_version() < u64::MAX,
    ensures
        match ctx.state() {
            None => r matches Err(PostError::Internal(m)) && m@ == "post not exists"@,
            Some(p) => if p.title != input.title@ && title_in_use {
                post_changed(
                    ctx,
                    PostEvent::Updated {
                        title: input.title,
                        hero: input.hero,
                        taxonomy: input.taxonomy,
                        format: input.format,
                        content: input.content,
                    },
                    r,
                )
            } else {
                r matches Err(PostError::Internal(m)) && m@ == "title is already exists"@
            },
        },
{
    match update_post_title_changes(&ctx, &input) {
        Err(e) => Err(e),
        Ok(changes) => {
            if !(changes && title_in_use) {
                return Err(PostError::Internal("title is already exists".to_owned()));
            }
            let event = PostEvent::Updated {
                title: input.title,
                hero: input.hero,
                taxonomy: input.taxonomy,
                format: input.format,
                content: input.content,
            };
            change_post(ctx, event)
        },
    }
}

/// Records an update of a post by `author`; refused when the post is missing
/// or has another author.
pub fn user_update_post(ctx: Context<Post>, input: UpdatePost, author: u128) -> (r: Result<Context<Post>, PostError>)
    requires
        ctx.spec_version() < u64::MAX,
    ensures
        post_changed(
            ctx,
            PostEvent::UpdatedByAuthor {
                author,
                title: input.title,
                hero: input.hero,
                taxonomy: input.taxonomy,
                format: input.format,
                content: input.content,
            },
            r,
        ),
{
    let event = PostEvent::UpdatedByAuthor {
        author,
        title: input.title,
        hero: input.hero,
        taxonomy: input.taxonomy,
        format: input.format,
        content: input.content,
    };
    change_post(ctx, event)
}

} // verus!
