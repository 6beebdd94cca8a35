//! Creating and deleting taxonomies.
use vstd::prelude::*;

use std::path::PathBuf;

use crate::aggregate::taxonomy::{Event as TaxonomyEvent, Taxonomy, TaxonomyModel};
use crate::common::aggregate::{Context, recorded_one};
use crate::common::error::{
    AggregateFetcherError, ApplyError, ApplyErrorDetail, EventCommiterError, EventFetcherError, detail_of,
};
use crate::external::{new_ulid, path_parent, path_parent_of};

verus! {

/// A new taxonomy at `path`, whose parent path must already hold one.
pub struct CreateTaxonomy {
    pub name: String,
    pub description: String,
    pub path: PathBuf,
}

/// The path under which the parent of the new taxonomy must already exist;
/// `None` for a path without a parent (a root, a prefix, or the empty path).
pub fn parent_path(input: &CreateTaxonomy) -> (r: Option<PathBuf>)
    ensures
        r == path_parent_of(input.path),
{
    path_parent(&input.path)
}

/// What a taxonomy use case can fail with.
#[derive(Debug)]
pub enum TaxonomyError {
    EventFetcher(EventFetcherError),
    Commiter(EventCommiterError),
    AggregateFetcher(AggregateFetcherError),
    Internal(String),
    Apply(ApplyErrorDetail),
}

impl TaxonomyError {
    /// Wraps the apply error of any aggregate.
    pub fn apply<E: ApplyError>(e: E) -> (r: Self)
        ensures
            r matches TaxonomyError::Apply(d) && d.failure == e.spec_failure() && d.message@ == e.spec_message() && d.aggregate@
                == E::spec_aggregate_type(),
            r.text() == "Taxonomy Error: "@ + e.spec_message(),
    {
        TaxonomyError::Apply(detail_of(&e))
    }

    /// The text of the error: a refused event is prefixed with
    /// `Taxonomy Error: `, the others give their own text.
    pub open spec fn text(&self) -> Seq<char> {
        match self {
            TaxonomyError::EventFetcher(e) => e.text(),
            TaxonomyError::Commiter(e) => e.text(),
            TaxonomyError::AggregateFetcher(e) => e.text(),
            TaxonomyError::Internal(m) => m@,
            TaxonomyError::Apply(d) => "Taxonomy Error: "@ + d.message@,
        }
    }

    /// The text of the error.
    pub fn message(&self) -> (r: String)
        ensures
            r@ == self.text(),
    {
        match self {
            TaxonomyError::EventFetcher(e) => e.message(),
            TaxonomyError::Commiter(e) => e.message(),
            TaxonomyError::AggregateFetcher(e) => e.message(),
            TaxonomyError::Internal(m) => m.clone(),
            TaxonomyError::Apply(d) => {
                let mut m = "Taxonomy Error: ".to_owned();
                m.append(d.message);
                m
            },
        }
    }
}

/// The first step of creating a taxonomy: a path that already holds one is
/// refused with "alreadyexists".
pub fn check_path_free(path_taken: bool) -> (r: Result<(), TaxonomyError>)
    ensures
        path_taken ==> (r matches Err(TaxonomyError::Internal(m)) && m@ == "alreadyexists"@),
        !path_taken ==> r is Ok,
{
    if path_taken {
        Err(TaxonomyError::Internal("alreadyexists".to_owned()))
    } else {
        Ok(())
    }
}

/// Records a new taxonomy with a fresh id, once its path is known to be free
/// and its parent path to be taken.
pub fn create_taxonomy(input: CreateTaxonomy, path_taken: bool, parent_exists: bool) -> (r: Result<
    Context<Taxonomy>,
    TaxonomyError,
>)
    ensures
        path_taken ==> (r matches Err(TaxonomyError::Internal(m)) && m@ == "alreadyexists"@),
        !path_taken && !parent_exists ==> (r matches Err(TaxonomyError::Internal(m)) && m@
            == "parent not exists"@),
        !path_taken && parent_exists ==> (r matches Ok(ctx) && ctx.state() == Some(
            TaxonomyModel {
                id: ctx.spec_stream(),
                name: input.name@,
                description: input.description@,
                path: input.path,
            },
        ) && ctx.spec_version() == 1 && ctx.pending().len() == 1 && ctx.pending()[0].spec_version() == 1
            && ctx.pending()[0].spec_event() == (TaxonomyEvent::Created {
            id: ctx.spec_stream(),
            name: input.name,
            description: input.description,
            path: input.path,
        })),
{
    if let Err(e) = check_path_free(path_taken) {
        return Err(e);
    }
    if !parent_exists {
        return Err(TaxonomyError::Internal("parent not exists".to_owned()));
    }
    let id = new_ulid();
    let event = TaxonomyEvent::Created { id, name: input.name, description: input.description, path: input.path };
    let mut ctx = Context::<Taxonomy>::empty(id);
    match ctx.apply_event(event) {
        Ok(()) => Ok(ctx),
        Err(e) => Err(TaxonomyError::apply(e)),
    }
}

/// Records the deletion of a taxonomy that must exist.
pub fn delete_taxonomy(ctx: Context<Taxonomy>) -> (r: Result<Context<Taxonomy>, TaxonomyError>)
    requires
        ctx.spec_version() < u64::MAX,
    ensures
        ctx.state() is None ==> (r matches Err(TaxonomyError::Internal(m)) && m@ == "taxonomy not found"@),
        ctx.state() is Some ==> (r matches Ok(c) && c.state() is None && recorded_one(ctx, c, TaxonomyEvent::Deleted)),
{
    let mut ctx = ctx;
    if ctx.as_aggregate().is_none() {
        return Err(TaxonomyError::Internal("taxonomy not found".to_owned()));
    }
    match ctx.apply_event(TaxonomyEvent::Deleted) {
        Ok(()) => Ok(ctx),
        Err(e) => Err(TaxonomyError::apply(e)),
    }
}

} // verus!
