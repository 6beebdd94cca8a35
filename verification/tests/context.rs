use jimo::aggregate::perm::{Event as PermEvent, Perm};
use jimo::aggregate::tag::{Event as TagEvent, Tag};
use jimo::common::aggregate::{Context, Envelope, SnapShot};
use jimo::common::error::{AggregateFetcherError, ApplyError, AggregateNotFound, AggregateAlreadyExists, AggregateVersionConflict, ApplyFailure, RehydrateError, SnapShotFetcherError};
use jimo::common::executor::{AggregateFetcher, SnapShotFetcher};
use jimo::common::projection::{project_step, InlineProjection, InlineProjectorError, Projection, ProjectAction};
use jimo::aggregate::PermApplyError;
use jimo::perm_code::PermCode;

fn created(id: u128, name: &str) -> TagEvent {
    TagEvent::Created { id, name: name.to_string(), description: String::new() }
}

fn renamed(name: &str) -> TagEvent {
    TagEvent::Updated { name: name.to_string(), description: "d".to_string() }
}

#[test]
fn empty_context() {
    let ctx = Context::<Tag>::empty(42);
    assert_eq!(*ctx.id(), 42);
    assert_eq!(ctx.version(), 0);
    assert!(ctx.as_aggregate().is_none());
    assert!(ctx.to_aggregate().is_none());
}

#[test]
fn apply_records_each_event_with_the_next_version() {
    let mut ctx = Context::<Tag>::empty(1);
    ctx.apply(vec![created(1, "a"), renamed("b"), renamed("c")]).unwrap();
    assert_eq!(ctx.version(), 3);
    assert_eq!(ctx.as_aggregate().unwrap().name, "c");
    let pending = ctx.take_pending();
    let versions: Vec<u64> = pending.iter().map(|e| e.version()).collect();
    assert_eq!(versions, vec![1, 2, 3]);
    assert!(ctx.take_pending().is_empty());
    assert_eq!(ctx.version(), 3);
}

#[test]
fn apply_stops_at_the_first_refused_event() {
    let mut ctx = Context::<Tag>::empty(1);
    let err = ctx.apply(vec![renamed("x"), created(1, "a")]).unwrap_err();
    assert_eq!(err, jimo::aggregate::TagApplyError::Internal(ApplyFailure::CannotBeNone));
    assert_eq!(ctx.version(), 0);
    assert!(ctx.as_aggregate().is_none());

    let mut ctx = Context::<Tag>::empty(1);
    let err = ctx.apply(vec![created(1, "a"), renamed("b"), created(1, "z"), renamed("never")]).unwrap_err();
    assert_eq!(err, jimo::aggregate::TagApplyError::Internal(ApplyFailure::MustBeNone));
    assert_eq!(ctx.version(), 2);
    assert_eq!(ctx.as_aggregate().unwrap().name, "b");
    assert_eq!(ctx.take_pending().len(), 2);
}

#[test]
fn two_batches_equal_one() {
    let mut one = Context::<Tag>::empty(1);
    one.apply(vec![created(1, "a"), renamed("b"), renamed("c")]).unwrap();
    let mut two = Context::<Tag>::empty(1);
    two.apply(vec![created(1, "a")]).unwrap();
    two.apply(vec![renamed("b"), renamed("c")]).unwrap();
    assert_eq!(one.version(), two.version());
    assert_eq!(one.as_aggregate().unwrap().name, two.as_aggregate().unwrap().name);
}

#[test]
fn replaying_recorded_events_rebuilds_the_aggregate() {
    let mut ctx = Context::<Tag>::empty(9);
    ctx.apply(vec![created(9, "a"), renamed("b"), TagEvent::Deleted, created(9, "again")]).unwrap();
    let recorded = ctx.take_pending();
    let mut fresh = Context::<Tag>::empty(9);
    fresh.rehydrate(recorded).unwrap();
    assert_eq!(fresh.version(), 4);
    assert_eq!(fresh.as_aggregate().unwrap().name, "again");
    assert_eq!(fresh.take_pending().len(), 4);
}

#[test]
fn rehydrate_refuses_a_version_out_of_sequence() {
    let envs = vec![Envelope::<Tag>::new(created(1, "a"), 1), Envelope::<Tag>::new(renamed("b"), 3)];
    let mut ctx = Context::<Tag>::empty(1);
    match ctx.rehydrate(envs).unwrap_err() {
        RehydrateError::Conflict(c) => {
            assert_eq!(c.expected, 2);
            assert_eq!(c.version, 1);
            assert_eq!(c.aggregate, "jimo_domain::aggregate::tag::Tag");
        }
        other => panic!("unexpected {:?}", other),
    }
    assert_eq!(ctx.version(), 1);
    assert_eq!(ctx.as_aggregate().unwrap().name, "a");
}

#[test]
fn rehydrate_reports_a_refused_event() {
    let envs = vec![Envelope::<Tag>::new(renamed("b"), 1)];
    let mut ctx = Context::<Tag>::empty(1);
    match ctx.rehydrate(envs).unwrap_err() {
        RehydrateError::Apply(d) => {
            assert_eq!(d.failure, ApplyFailure::CannotBeNone);
            assert_eq!(d.aggregate, "jimo_domain::aggregate::tag::Tag");
            assert_eq!(d.message(), "Tag can't be none");
        }
        other => panic!("unexpected {:?}", other),
    }
    assert_eq!(ctx.version(), 0);
}

#[test]
fn envelope_accessors() {
    let env = Envelope::<Tag>::new(renamed("q"), 5);
    assert_eq!(env.version(), 5);
    match env.event() {
        TagEvent::Updated { name, .. } => assert_eq!(name, "q"),
        _ => panic!("wrong event"),
    }
}

#[test]
fn snapshot_context() {
    let tag = Tag { id: 5, name: "s".into(), description: String::new() };
    let snap = SnapShot::new(tag, 7);
    assert_eq!(*snap.id(), 5);
    assert_eq!(snap.version(), 7);
    let fetcher = SnapShotFetcher::<Tag>::new(5);
    let ctx = fetcher.start(Some(snap));
    assert_eq!(ctx.version(), 7);
    assert_eq!(*ctx.id(), 5);
    let ctx = fetcher.finish(ctx, vec![Envelope::new(renamed("t"), 8)]).unwrap();
    assert_eq!(ctx.version(), 8);
    assert_eq!(ctx.as_aggregate().unwrap().name, "t");
    let empty = fetcher.start(None);
    assert_eq!(empty.version(), 0);
    assert!(matches!(
        fetcher.finish(empty, vec![Envelope::new(renamed("t"), 8)]),
        Err(SnapShotFetcherError::Rehydrate(RehydrateError::Conflict(_)))
    ));
}

#[test]
fn snapshot_to_context_directly() {
    let ctx = Context::from_snapshot(SnapShot::new(Tag { id: 3, name: "x".into(), description: String::new() }, 2));
    assert_eq!(*ctx.id(), 3);
    assert_eq!(ctx.version(), 2);
    assert_eq!(ctx.to_aggregate().unwrap().name, "x");
}

#[test]
fn aggregate_fetcher_rebuilds_from_the_stream() {
    let fetcher = Context::<Tag>::fetch(11);
    assert_eq!(fetcher.id(), 11);
    assert_eq!(fetcher.from_version(), 0);
    let ctx = fetcher.rebuild(vec![Envelope::new(created(11, "a"), 1), Envelope::new(renamed("b"), 2)]).unwrap();
    assert_eq!(ctx.version(), 2);
    assert_eq!(ctx.as_aggregate().unwrap().name, "b");
    let bad = AggregateFetcher::<Tag>::new(11).rebuild(vec![Envelope::new(renamed("b"), 1)]);
    assert!(matches!(bad, Err(AggregateFetcherError::Rehydrate(RehydrateError::Apply(_)))));
}

#[test]
fn commit_hands_out_the_recorded_batch_once() {
    let mut ctx = Context::<Tag>::empty(4);
    ctx.apply(vec![created(4, "a")]).unwrap();
    let mut commit = ctx.commit();
    let (id, batch) = commit.batch();
    assert_eq!(id, 4);
    assert_eq!(batch.len(), 1);
    assert!(commit.batch().1.is_empty());
}

#[test]
fn event_fetcher_request() {
    let f = Context::<Tag>::events(8, 3).unwrap();
    assert_eq!((f.id(), f.version()), (8, 3));
}

#[test]
fn error_constructors() {
    let nf = AggregateNotFound::new::<Tag>(&0);
    assert_eq!(nf.aggregate, "jimo_domain::aggregate::tag::Tag");
    assert_eq!(nf.id, "00000000000000000000000000");
    let nf = AggregateNotFound::new::<Tag>(&u128::MAX);
    assert_eq!(nf.id, ulid::Ulid(u128::MAX).to_string());
    assert_eq!(nf.id.len(), 26);
    assert_eq!(nf.id, "7ZZZZZZZZZZZZZZZZZZZZZZZZZ");
    assert_eq!(AggregateNotFound::new::<Tag>(&(32 * 32 + 33)).id, "00000000000000000000000111");
    assert_ne!(AggregateNotFound::new::<Tag>(&1).id, AggregateNotFound::new::<Tag>(&2).id);
    let ae = AggregateAlreadyExists::new::<Perm>("name", "edit");
    assert_eq!((ae.aggregate.as_str(), ae.field.as_str(), ae.value.as_str()), ("jimo_domain::aggregate::perm::Perm", "name", "edit"));
    let vc = AggregateVersionConflict::new::<Perm>(3, 1);
    assert_eq!((vc.expected, vc.version), (3, 1));
}

#[test]
fn projection_step_saves_deletes_or_refuses() {
    let created = PermEvent::Created { id: 2, name: "n".into(), description: "d".into(), code: PermCode::try_from_str("A").unwrap() };
    match project_step::<Perm>(2, None, Envelope::new(created, 1)).ok().unwrap() {
        ProjectAction::Save(p) => {
            assert_eq!(p.id, 2);
            let view = InlineProjection::new(p);
            assert_eq!(*view.id(), 2);
        }
        ProjectAction::Delete(_) => panic!("expected save"),
    }
    let existing = Perm { id: 2, name: "n".into(), description: "d".into(), code: PermCode::empty() };
    match project_step::<Perm>(2, Some(existing), Envelope::new(PermEvent::Deleted, 2)).ok().unwrap() {
        ProjectAction::Delete(id) => assert_eq!(id, 2),
        ProjectAction::Save(_) => panic!("expected delete"),
    }
    let existing = Perm { id: 2, name: "n".into(), description: "d".into(), code: PermCode::empty() };
    let again = PermEvent::Created { id: 2, name: "n".into(), description: "d".into(), code: PermCode::empty() };
    match project_step::<Perm>(2, Some(existing), Envelope::new(again, 2)) {
        Err(InlineProjectorError::Apply(d)) => assert_eq!(d.failure, ApplyFailure::MustBeNone),
        _ => panic!("expected refusal"),
    }
    let _ = PermApplyError::Internal(ApplyFailure::MustBeNone);
}

#[test]
fn apply_errors_carry_the_aggregate_texts() {
    assert_eq!(jimo::aggregate::TagApplyError::Internal(ApplyFailure::MustBeNone).message(), "Tag must be none");
    assert_eq!(jimo::aggregate::PostApplyError::Internal(ApplyFailure::MustBeNone).message(), "Post must be none");
    assert_eq!(jimo::aggregate::PostApplyError::Internal(ApplyFailure::CannotBeNone).message(), "aggregate can't be none");
    assert_eq!(jimo::aggregate::PostApplyError::Internal(ApplyFailure::AuthorMismatch).message(), "author does not match");
    assert_eq!(PermApplyError::Internal(ApplyFailure::MustBeNone).message(), "Perm must be none");
    assert_eq!(jimo::aggregate::RoleApplyError::Internal(ApplyFailure::CannotBeNone).message(), "Role can't be none");
    assert_eq!(jimo::aggregate::UserApplyError::Internal(ApplyFailure::MustBeNone).message(), "User must be none");
    assert_eq!(jimo::aggregate::TaxonomyApplyError::Internal(ApplyFailure::MustBeNone).message(), "Taxonomy must be none");
    assert_eq!(jimo::aggregate::UserProfileError::Internal(ApplyFailure::MustBeNone).message(), "UserProfile must none");
}

fn stream(last_version: u64) -> Vec<Envelope<Tag>> {
    vec![Envelope::new(created(5, "a"), 1), Envelope::new(renamed("b"), 2), Envelope::new(renamed("c"), last_version)]
}

#[test]
fn snapshot_then_rest_equals_full_replay() {
    let full = AggregateFetcher::<Tag>::new(5).rebuild(stream(3)).ok().unwrap();
    let fetcher = SnapShotFetcher::<Tag>::new(5);
    let ctx = fetcher.start(Some(SnapShot::new(Tag { id: 5, name: "b".into(), description: String::new() }, 2)));
    let rest: Vec<Envelope<Tag>> = stream(3).into_iter().skip(2).collect();
    let from_snap = fetcher.finish(ctx, rest).ok().unwrap();
    assert_eq!(full.version(), from_snap.version());
    assert_eq!(full.as_aggregate().unwrap().name, from_snap.as_aggregate().unwrap().name);

    let full_err = match AggregateFetcher::<Tag>::new(5).rebuild(stream(9)) {
        Err(AggregateFetcherError::Rehydrate(e)) => e.message(),
        _ => panic!("expected a conflict"),
    };
    let ctx = fetcher.start(Some(SnapShot::new(Tag { id: 5, name: "b".into(), description: String::new() }, 2)));
    let rest: Vec<Envelope<Tag>> = stream(9).into_iter().skip(2).collect();
    let snap_err = match fetcher.finish(ctx, rest) {
        Err(SnapShotFetcherError::Rehydrate(e)) => e.message(),
        _ => panic!("expected a conflict"),
    };
    assert_eq!(full_err, "aggregate version conflict, expected:3 actual:2");
    assert_eq!(full_err, snap_err);
}

#[test]
fn error_texts() {
    let nf = AggregateNotFound::new::<Tag>(&0);
    assert_eq!(nf.message(), "aggregate jimo_domain::aggregate::tag::Tag(id:00000000000000000000000000) not found");
    let ae = AggregateAlreadyExists::new::<Perm>("name", "edit");
    assert_eq!(ae.message(), "aggregate jimo_domain::aggregate::perm::Perm name:edit already exists");
    let vc = AggregateVersionConflict::new::<Perm>(120, 7);
    assert_eq!(vc.message(), "aggregate version conflict, expected:120 actual:7");
    assert_eq!(jimo::common::error::EventCommiterError::ContextInvalid.message(), "aggregate context is invalid");
    let e = jimo::common::error::AggregateFetcherError::Reader(jimo::common::error::EventReaderError::Internal("io".into()));
    assert_eq!(e.message(), "io");
    let e = InlineProjectorError::Internal("x".into());
    assert_eq!(e.message(), "Inline Projector Error:x");
    let e = InlineProjectorError::Store(jimo::common::projection::InlineProjectionStoreError::Internal("y".into()));
    assert_eq!(e.message(), "Inline Prjector Store Error:y");
}
