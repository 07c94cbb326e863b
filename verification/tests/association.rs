use blog001::association::{
    tag_labels, AssociationAction, AssociationEvent, AssociationStep, TagAssociation,
};
use blog001::reply::{ApiError, DbFailure};
use blog001::tags::{AssociateTagsRequest, TagRow};

fn request(ids: Option<Vec<i64>>, names: Option<Vec<&str>>) -> AssociateTagsRequest {
    AssociateTagsRequest {
        tag_ids: ids,
        tags: names.map(|v| v.into_iter().map(|s| s.to_string()).collect()),
    }
}

fn error_of(action: AssociationAction) -> ApiError {
    match action {
        AssociationAction::Reply(Err(e)) => e,
        _ => panic!("expected an error reply"),
    }
}

fn step(a: &mut TagAssociation, event: AssociationEvent) -> AssociationAction {
    assert!(a.accepts(&event));
    a.advance(event)
}

#[test]
fn labels_are_trimmed_slugged_and_blank_ones_dropped() {
    let names: Vec<String> = vec!["  Rust Lang ".into(), "   ".into(), "Web".into()];
    let labels = tag_labels(&names);
    assert_eq!(labels.len(), 2);
    assert_eq!((labels[0].name.as_str(), labels[0].slug.as_str()), ("Rust Lang", "rust-lang"));
    assert_eq!((labels[1].name.as_str(), labels[1].slug.as_str()), ("Web", "web"));
}

#[test]
fn full_run_links_union_in_ascending_order() {
    let (mut a, first) = TagAssociation::new(request(Some(vec![7, 3, 7]), Some(vec!["B", " ", "A"])));
    assert!(matches!(first, AssociationAction::CheckPostExists));
    assert!(matches!(step(&mut a, AssociationEvent::PostChecked(true)), AssociationAction::BeginTransaction));
    assert!(matches!(step(&mut a, AssociationEvent::TransactionBegun(true)), AssociationAction::ClearPostTags));
    match step(&mut a, AssociationEvent::PostTagsCleared(true)) {
        AssociationAction::UpsertTag { name, slug } => assert_eq!((name.as_str(), slug.as_str()), ("B", "b")),
        _ => panic!("expected first upsert"),
    }
    match step(&mut a, AssociationEvent::TagUpserted(Some(5))) {
        AssociationAction::UpsertTag { name, slug } => assert_eq!((name.as_str(), slug.as_str()), ("A", "a")),
        _ => panic!("expected second upsert"),
    }
    let mut linked = Vec::new();
    let mut action = step(&mut a, AssociationEvent::TagUpserted(Some(3)));
    while let AssociationAction::LinkTag { tag_id } = action {
        linked.push(tag_id);
        action = step(&mut a, AssociationEvent::TagLinked(true));
    }
    assert_eq!(linked, vec![3, 5, 7]);
    assert!(matches!(action, AssociationAction::CommitTransaction));
    assert!(matches!(step(&mut a, AssociationEvent::TransactionCommitted(true)), AssociationAction::FetchPostTags));
    let rows = vec![TagRow { id: 5, name: "B".into(), slug: "b".into(), created_at: "t".into() }];
    match step(&mut a, AssociationEvent::PostTagsFetched(Ok(rows))) {
        AssociationAction::Reply(Ok(tags)) => {
            assert_eq!(tags.len(), 1);
            assert_eq!(tags[0].name, "B");
        }
        _ => panic!("expected tags"),
    }
    assert!(!a.accepts(&AssociationEvent::TagLinked(true)));
}

#[test]
fn empty_request_commits_right_away() {
    let (mut a, _) = TagAssociation::new(request(None, None));
    step(&mut a, AssociationEvent::PostChecked(true));
    step(&mut a, AssociationEvent::TransactionBegun(true));
    assert!(matches!(step(&mut a, AssociationEvent::PostTagsCleared(true)), AssociationAction::CommitTransaction));
}

#[test]
fn ids_only_request_links_without_upserts() {
    let (mut a, _) = TagAssociation::new(request(Some(vec![2, 1]), Some(vec![])));
    step(&mut a, AssociationEvent::PostChecked(true));
    step(&mut a, AssociationEvent::TransactionBegun(true));
    assert!(matches!(step(&mut a, AssociationEvent::PostTagsCleared(true)), AssociationAction::LinkTag { tag_id: 1 }));
    assert!(matches!(step(&mut a, AssociationEvent::TagLinked(true)), AssociationAction::LinkTag { tag_id: 2 }));
    assert!(matches!(step(&mut a, AssociationEvent::TagLinked(true)), AssociationAction::CommitTransaction));
}

fn run_to_failure(events: Vec<AssociationEvent>) -> ApiError {
    let (mut a, _) = TagAssociation::new(request(Some(vec![1]), Some(vec!["x"])));
    let mut last = None;
    for e in events {
        last = Some(step(&mut a, e));
    }
    error_of(last.unwrap())
}

#[test]
fn each_failure_has_its_error() {
    assert_eq!(run_to_failure(vec![AssociationEvent::PostChecked(false)]), ApiError::PostNotFound);
    let e = run_to_failure(vec![AssociationEvent::PostChecked(true), AssociationEvent::TransactionBegun(false)]);
    assert_eq!(e, ApiError::StartAssociationFailed);
    assert_eq!(e.message(), "failed to start tag association transaction");
    let e = run_to_failure(vec![AssociationEvent::PostChecked(true), AssociationEvent::TransactionBegun(true), AssociationEvent::PostTagsCleared(false)]);
    assert_eq!(e, ApiError::ClearPostTagsFailed);
    assert_eq!(e.message(), "failed to clear existing post tags");
    let e = run_to_failure(vec![AssociationEvent::PostChecked(true), AssociationEvent::TransactionBegun(true), AssociationEvent::PostTagsCleared(true), AssociationEvent::TagUpserted(None)]);
    assert_eq!(e, ApiError::UpsertTagFailed);
    assert_eq!(e.message(), "failed to upsert tag while associating");
    let e = run_to_failure(vec![
        AssociationEvent::PostChecked(true),
        AssociationEvent::TransactionBegun(true),
        AssociationEvent::PostTagsCleared(true),
        AssociationEvent::TagUpserted(Some(4)),
        AssociationEvent::TagLinked(false),
    ]);
    assert_eq!(e, ApiError::AssociateTagsFailed);
    assert_eq!(e.message(), "failed to associate tags with post");
    let e = run_to_failure(vec![
        AssociationEvent::PostChecked(true),
        AssociationEvent::TransactionBegun(true),
        AssociationEvent::PostTagsCleared(true),
        AssociationEvent::TagUpserted(Some(4)),
        AssociationEvent::TagLinked(true),
        AssociationEvent::TagLinked(true),
        AssociationEvent::TransactionCommitted(false),
    ]);
    assert_eq!(e, ApiError::CommitAssociationFailed);
    assert_eq!(e.message(), "failed to commit tag association");
    let e = run_to_failure(vec![
        AssociationEvent::PostChecked(true),
        AssociationEvent::TransactionBegun(true),
        AssociationEvent::PostTagsCleared(true),
        AssociationEvent::TagUpserted(Some(1)),
        AssociationEvent::TagLinked(true),
        AssociationEvent::TransactionCommitted(true),
        AssociationEvent::PostTagsFetched(Err(DbFailure { database_message: None })),
    ]);
    assert_eq!(e, ApiError::FetchUpdatedTagsFailed);
    assert_eq!(e.status(), 500);
    assert_eq!(e.message(), "failed to fetch updated tags for post");
}

#[test]
fn events_must_fit_the_step() {
    let (a, _) = TagAssociation::new(request(None, None));
    assert!(a.accepts(&AssociationEvent::PostChecked(true)));
    assert!(!a.accepts(&AssociationEvent::TransactionBegun(true)));
    let _ = AssociationStep::CheckPost;
}
