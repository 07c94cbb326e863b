//! Replacing the tags of a post. The work alternates between database
//! calls and decisions; [`TagAssociation`] holds the decisions: each call
//! of [`TagAssociation::advance`] takes the outcome of the last database
//! call and names the next one, until the reply is known.

use vstd::prelude::*;

use crate::reply::{ApiError, DbFailure};
use crate::slug::{slug_of, slugify};
use crate::tag_ids::{strictly_ascending, TagIdSet};
use crate::tags::{
    map_tags, tag_rows_match, AssociateTagsRequest, TagLabel, TagResponse, TagRow,
};
use crate::text::{trim, trim_to_string};

verus! {

/// The name and slug a label stands for.
pub open spec fn label_view(l: TagLabel) -> (Seq<char>, Seq<char>) {
    (l.name@, l.slug@)
}

/// The names of a request, trimmed, blank ones dropped, each with the slug
/// it is stored under.
pub open spec fn labels_of(names: Seq<String>) -> Seq<(Seq<char>, Seq<char>)>
    decreases names.len(),
{
    if names.len() == 0 {
        Seq::empty()
    } else {
        let rest = labels_of(names.drop_last());
        let name = trim(names.last()@);
        if name.len() == 0 {
            rest
        } else {
            rest.push((name, slug_of(name)))
        }
    }
}

/// The labels that the tag names of a request stand for (see [`labels_of`]).
pub fn tag_labels(names: &Vec<String>) -> (r: Vec<TagLabel>)
    ensures
        r@.map_values(|l: TagLabel| label_view(l)) == labels_of(names@),
{
    let mut r: Vec<TagLabel> = Vec::new();
    let mut i: usize = 0;
    while i < names.len()
        invariant
            i <= names.len(),
            r@.map_values(|l: TagLabel| label_view(l)) == labels_of(names@.take(i as int)),
        decreases names.len() - i,
    {
        let ghost prev = r@;
        let name = trim_to_string(names[i].as_str());
        assert(names@.take(i + 1).drop_last() =~= names@.take(i as int));
        if !name.as_str().is_empty() {
            let slug = slugify(name.as_str());
            r.push(TagLabel { name, slug });
            assert(r@.map_values(|l: TagLabel| label_view(l)) =~= prev.map_values(
                |l: TagLabel| label_view(l),
            ).push(label_view(r@.last())));
        }
        i = i + 1;
    }
    assert(names@.take(i as int) =~= names@);
    r
}

/// Where the replacement stands.
#[derive(PartialEq, Eq, Structural, Clone, Copy, Debug)]
pub enum AssociationStep {
    /// Waiting to learn whether the post exists.
    CheckPost,
    /// Waiting for the transaction to begin.
    Begin,
    /// Waiting for the old links to be removed.
    Clear,
    /// Waiting for the upsert of the label at the cursor.
    Upsert,
    /// Waiting for the link to the id at the cursor.
    Link,
    /// Waiting for the commit.
    Commit,
    /// Waiting for the post's tags to be read back.
    Fetch,
    /// The reply is known.
    Finished,
}

/// The database call to make next, or the reply.
pub enum AssociationAction {
    /// Count the posts with the post's id.
    CheckPostExists,
    /// Begin a transaction.
    BeginTransaction,
    /// Remove every link of the post.
    ClearPostTags,
    /// Insert the tag, or rename the one with the same slug; report its id.
    UpsertTag { name: String, slug: String },
    /// Link the post to the tag (ignored when the link exists).
    LinkTag { tag_id: i64 },
    /// Commit the transaction.
    CommitTransaction,
    /// Read the post's tags, ordered by name.
    FetchPostTags,
    /// Send this reply.
    Reply(Result<Vec<TagResponse>, ApiError>),
}

/// The outcome of the last database call.
pub enum AssociationEvent {
    PostChecked(bool),
    TransactionBegun(bool),
    PostTagsCleared(bool),
    TagUpserted(Option<i64>),
    TagLinked(bool),
    TransactionCommitted(bool),
    PostTagsFetched(Result<Vec<TagRow>, DbFailure>),
}

/// The event that a step waits for.
pub open spec fn event_fits(step: AssociationStep, event: AssociationEvent) -> bool {
    match step {
        AssociationStep::CheckPost => event is PostChecked,
        AssociationStep::Begin => event is TransactionBegun,
        AssociationStep::Clear => event is PostTagsCleared,
        AssociationStep::Upsert => event is TagUpserted,
        AssociationStep::Link => event is TagLinked,
        AssociationStep::Commit => event is TransactionCommitted,
        AssociationStep::Fetch => event is PostTagsFetched,
        AssociationStep::Finished => false,
    }
}

/// State of one replacement of a post's tags.
pub struct TagAssociation {
    labels: Vec<TagLabel>,
    ids: TagIdSet,
    step: AssociationStep,
    cursor: usize,
    requested_ids: Ghost<Set<i64>>,
    upserted_ids: Ghost<Seq<i64>>,
}

/// The ids a request names directly.
pub open spec fn requested_id_set(request: AssociateTagsRequest) -> Set<i64> {
    match request.tag_ids {
        Some(v) => v@.to_set(),
        None => Set::empty(),
    }
}

/// The names a request gives.
pub open spec fn requested_names(request: AssociateTagsRequest) -> Seq<String> {
    match request.tags {
        Some(v) => v@,
        None => Seq::empty(),
    }
}

impl TagAssociation {
    /// The current step.
    pub closed spec fn step(&self) -> AssociationStep {
        self.step
    }

    /// Position of the label being upserted, or of the id being linked.
    pub closed spec fn cursor(&self) -> nat {
        self.cursor as nat
    }

    /// The labels to upsert, in request order.
    pub closed spec fn labels(&self) -> Seq<(Seq<char>, Seq<char>)> {
        self.labels@.map_values(|l: TagLabel| label_view(l))
    }

    /// The ids to link, smallest first.
    pub closed spec fn link_order(&self) -> Seq<i64> {
        self.ids@
    }

    /// The ids the request named directly.
    pub closed spec fn requested_ids(&self) -> Set<i64> {
        self.requested_ids@
    }

    /// The ids the upserts reported so far, in order.
    pub closed spec fn upserted_ids(&self) -> Seq<i64> {
        self.upserted_ids@
    }

    /// Well-formed: the ids to link ascend, are exactly the requested ids
    /// and the upserted ones, and the cursor fits the step.
    pub closed spec fn wf(&self) -> bool {
        &&& self.ids.wf()
        &&& self.ids@.to_set() == self.requested_ids@.union(self.upserted_ids@.to_set())
        &&& match self.step {
            AssociationStep::CheckPost | AssociationStep::Begin | AssociationStep::Clear => self.upserted_ids@.len() == 0,
            AssociationStep::Upsert => self.cursor < self.labels@.len() && self.upserted_ids@.len()
                == self.cursor,
            AssociationStep::Link => self.cursor < self.ids@.len() && self.upserted_ids@.len()
                == self.labels@.len(),
            AssociationStep::Commit | AssociationStep::Fetch => self.upserted_ids@.len()
                == self.labels@.len(),
            AssociationStep::Finished => true,
        }
    }

    /// Starts a replacement for the given request; the first call to make
    /// is the existence check of the post.
    pub fn new(request: AssociateTagsRequest) -> (r: (Self, AssociationAction))
        ensures
            r.0.wf(),
            r.0.step() == AssociationStep::CheckPost,
            r.0.labels() == labels_of(requested_names(request)),
            r.0.requested_ids() == requested_id_set(request),
            r.0.upserted_ids() == Seq::<i64>::empty(),
            r.1 is CheckPostExists,
    {
        let mut ids = TagIdSet::new();
        let ghost requested: Set<i64> = requested_id_set(request);
        match &request.tag_ids {
            Some(v) => {
                let mut i: usize = 0;
                while i < v.len()
                    invariant
                        i <= v.len(),
                        ids.wf(),
                        ids@.to_set() == v@.take(i as int).to_set(),
                    decreases v.len() - i,
                {
                    ids.insert(v[i]);
                    proof {
                        assert(v@.take(i + 1) =~= v@.take(i as int).push(v@[i as int]));
                        v@.take(i as int).lemma_push_to_set_commute(v@[i as int]);
                        assert(ids@.to_set() =~= v@.take(i + 1).to_set());
                    }
                    i = i + 1;
                }
                assert(v@.take(i as int) =~= v@);
            },
            None => {
                assert(ids@.to_set() =~= Set::<i64>::empty());
            },
        }
        let labels = match &request.tags {
            Some(names) => tag_labels(names),
            None => {
                let empty: Vec<TagLabel> = Vec::new();
                assert(empty@.map_values(|l: TagLabel| label_view(l)) =~= labels_of(
                    Seq::<String>::empty(),
                ));
                empty
            },
        };
        let a = TagAssociation {
            labels,
            ids,
            step: AssociationStep::CheckPost,
            cursor: 0,
            requested_ids: Ghost(requested),
            upserted_ids: Ghost(Seq::empty()),
        };
        assert(a.upserted_ids@.to_set() =~= Set::<i64>::empty());
        assert(a.ids@.to_set() =~= a.requested_ids@.union(a.upserted_ids@.to_set()));
        (a, AssociationAction::CheckPostExists)
    }

    /// Whether `event` is the outcome this state waits for.
    pub fn accepts(&self, event: &AssociationEvent) -> (r: bool)
        ensures
            r == event_fits(self.step(), *event),
    {
        match self.step {
            AssociationStep::CheckPost => matches!(event, AssociationEvent::PostChecked(_)),
            AssociationStep::Begin => matches!(event, AssociationEvent::TransactionBegun(_)),
            AssociationStep::Clear => matches!(event, AssociationEvent::PostTagsCleared(_)),
            AssociationStep::Upsert => matches!(event, AssociationEvent::TagUpserted(_)),
            AssociationStep::Link => matches!(event, AssociationEvent::TagLinked(_)),
            AssociationStep::Commit => matches!(event, AssociationEvent::TransactionCommitted(_)),
            AssociationStep::Fetch => matches!(event, AssociationEvent::PostTagsFetched(_)),
            AssociationStep::Finished => false,
        }
    }

    fn finish(&mut self, error: ApiError) -> (r: AssociationAction)
        requires
            old(self).wf(),
        ensures
            final(self).wf(),
            ends_with(*old(self), *final(self), r, error),
    {
        self.step = AssociationStep::Finished;
        AssociationAction::Reply(Err(error))
    }

    /// The first call after the old links are gone: the first upsert, else
    /// the first link, else the commit.
    fn after_clear(&mut self) -> (r: AssociationAction)
        requires
            old(self).wf(),
            old(self).step == AssociationStep::Clear,
        ensures
            final(self).wf(),
            starts_upserts(*old(self), *final(self), r),
    {
        self.cursor = 0;
        if self.labels.len() > 0 {
            self.step = AssociationStep::Upsert;
            let label = &self.labels[0];
            AssociationAction::UpsertTag { name: label.name.clone(), slug: label.slug.clone() }
        } else if self.ids.len() > 0 {
            self.step = AssociationStep::Link;
            AssociationAction::LinkTag { tag_id: self.ids.get(0) }
        } else {
            self.step = AssociationStep::Commit;
            AssociationAction::CommitTransaction
        }
    }
}

/// The parts of the state that a step leaves alone when it makes no
/// progress on the ids.
pub open spec fn same_ids(a: TagAssociation, b: TagAssociation) -> bool {
    &&& b.labels() == a.labels()
    &&& b.requested_ids() == a.requested_ids()
    &&& b.link_order() == a.link_order()
    &&& b.upserted_ids() == a.upserted_ids()
}

/// The step that ends the replacement with `error`.
pub open spec fn ends_with(
    a: TagAssociation,
    b: TagAssociation,
    r: AssociationAction,
    error: ApiError,
) -> bool {
    &&& same_ids(a, b)
    &&& b.step() == AssociationStep::Finished
    &&& r == AssociationAction::Reply(Err(error))
}

/// The step that moves on to `step`, asking for `action`.
pub open spec fn moves_to(
    a: TagAssociation,
    b: TagAssociation,
    r: AssociationAction,
    step: AssociationStep,
    action: AssociationAction,
) -> bool {
    &&& same_ids(a, b)
    &&& b.step() == step
    &&& r == action
}

/// The first call after the old links are gone: the first upsert, else the
/// first link, else the commit.
pub open spec fn starts_upserts(a: TagAssociation, b: TagAssociation, r: AssociationAction) -> bool {
    &&& same_ids(a, b)
    &&& b.cursor() == 0
    &&& if a.labels().len() > 0 {
        &&& b.step() == AssociationStep::Upsert
        &&& r matches AssociationAction::UpsertTag { name, slug }
        &&& (name@, slug@) == a.labels()[0]
    } else if a.link_order().len() > 0 {
        &&& b.step() == AssociationStep::Link
        &&& r == AssociationAction::LinkTag { tag_id: a.link_order()[0] }
    } else {
        &&& b.step() == AssociationStep::Commit
        &&& r is CommitTransaction
    }
}

impl TagAssociation {
    /// Takes the outcome of the last database call and names the next call,
    /// or the reply. Any failure ends the replacement with its error; the
    /// upserts run in request order, then one link per id in ascending
    /// order, then the commit and the read-back.
    pub fn advance(&mut self, event: AssociationEvent) -> (r: AssociationAction)
        requires
            old(self).wf(),
            event_fits(old(self).step(), event),
        ensures
            final(self).wf(),
            match event {
                AssociationEvent::PostChecked(exists) => if exists {
                    moves_to(*old(self), *final(self), r, AssociationStep::Begin,
                        AssociationAction::BeginTransaction)
                } else {
                    ends_with(*old(self), *final(self), r, ApiError::PostNotFound)
                },
                AssociationEvent::TransactionBegun(ok) => if ok {
                    moves_to(*old(self), *final(self), r, AssociationStep::Clear,
                        AssociationAction::ClearPostTags)
                } else {
                    ends_with(*old(self), *final(self), r, ApiError::StartAssociationFailed)
                },
                AssociationEvent::PostTagsCleared(ok) => if ok {
                    starts_upserts(*old(self), *final(self), r)
                } else {
                    ends_with(*old(self), *final(self), r, ApiError::ClearPostTagsFailed)
                },
                AssociationEvent::TagUpserted(result) => match result {
                    None => ends_with(*old(self), *final(self), r, ApiError::UpsertTagFailed),
                    Some(id) => {
                        &&& final(self).labels() == old(self).labels()
                        &&& final(self).requested_ids() == old(self).requested_ids()
                        &&& final(self).upserted_ids() == old(self).upserted_ids().push(id)
                        &&& forall|x: i64|
                            final(self).link_order().contains(x) <==> (old(
                                self,
                            ).link_order().contains(x) || x == id)
                        &&& if old(self).cursor() + 1 < old(self).labels().len() {
                            &&& final(self).step() == AssociationStep::Upsert
                            &&& final(self).cursor() == old(self).cursor() + 1
                            &&& r matches AssociationAction::UpsertTag { name, slug }
                            &&& (name@, slug@) == old(self).labels()[old(self).cursor() + 1int]
                        } else {
                            &&& final(self).step() == AssociationStep::Link
                            &&& final(self).cursor() == 0
                            &&& r == AssociationAction::LinkTag {
                                tag_id: final(self).link_order()[0],
                            }
                        }
                    },
                },
                AssociationEvent::TagLinked(ok) => if !ok {
                    ends_with(*old(self), *final(self), r, ApiError::AssociateTagsFailed)
                } else if old(self).cursor() + 1 < old(self).link_order().len() {
                    &&& same_ids(*old(self), *final(self))
                    &&& final(self).step() == AssociationStep::Link
                    &&& final(self).cursor() == old(self).cursor() + 1
                    &&& r == AssociationAction::LinkTag {
                        tag_id: old(self).link_order()[old(self).cursor() + 1int],
                    }
                } else {
                    moves_to(*old(self), *final(self), r, AssociationStep::Commit,
                        AssociationAction::CommitTransaction)
                },
                AssociationEvent::TransactionCommitted(ok) => if ok {
                    moves_to(*old(self), *final(self), r, AssociationStep::Fetch,
                        AssociationAction::FetchPostTags)
                } else {
                    ends_with(*old(self), *final(self), r, ApiError::CommitAssociationFailed)
                },
                AssociationEvent::PostTagsFetched(result) => match result {
                    Ok(rows) => {
                        &&& same_ids(*old(self), *final(self))
                        &&& final(self).step() == AssociationStep::Finished
                        &&& r matches AssociationAction::Reply(Ok(tags))
                        &&& tag_rows_match(rows@, tags@)
                    },
                    Err(_) => ends_with(*old(self), *final(self), r,
                        ApiError::FetchUpdatedTagsFailed),
                },
            },
    {
        match event {
            AssociationEvent::PostChecked(exists) => if exists {
                self.step = AssociationStep::Begin;
                AssociationAction::BeginTransaction
            } else {
                self.finish(ApiError::PostNotFound)
            },
            AssociationEvent::TransactionBegun(ok) => if ok {
                self.step = AssociationStep::Clear;
                AssociationAction::ClearPostTags
            } else {
                self.finish(ApiError::StartAssociationFailed)
            },
            AssociationEvent::PostTagsCleared(ok) => if ok {
                self.after_clear()
            } else {
                self.finish(ApiError::ClearPostTagsFailed)
            },
            AssociationEvent::TagUpserted(result) => match result {
                None => self.finish(ApiError::UpsertTagFailed),
                Some(id) => {
                    assert(self.step == AssociationStep::Upsert);
                    assert(self.cursor < self.labels@.len());
                    let ghost before = self.upserted_ids@;
                    let ghost old_ids = self.ids@;
                    self.ids.insert(id);
                    self.upserted_ids = Ghost(before.push(id));
                    proof {
                        before.lemma_push_to_set_commute(id);
                        assert forall|x: i64| #[trigger] self.ids@.to_set().contains(x)
                            == self.requested_ids@.union(self.upserted_ids@.to_set()).contains(
                            x,
                        ) by {
                            assert(old_ids.to_set().contains(x) == old_ids.contains(x));
                            assert(self.ids@.to_set().contains(x) == self.ids@.contains(x));
                        }
                        assert(self.ids@.to_set() =~= self.requested_ids@.union(
                            self.upserted_ids@.to_set(),
                        ));
                    }
                    let n = self.labels.len();
                    if self.cursor + 1 < n {
                        self.cursor = self.cursor + 1;
                        let label = &self.labels[self.cursor];
                        AssociationAction::UpsertTag {
                            name: label.name.clone(),
                            slug: label.slug.clone(),
                        }
                    } else {
                        assert(self.ids@.contains(id));
                        self.step = AssociationStep::Link;
                        self.cursor = 0;
                        AssociationAction::LinkTag { tag_id: self.ids.get(0) }
                    }
                },
            },
            AssociationEvent::TagLinked(ok) => if !ok {
                self.finish(ApiError::AssociateTagsFailed)
            } else if {
                assert(self.step == AssociationStep::Link);
                let n = self.ids.len();
                self.cursor + 1 < n
            } {
                self.cursor = self.cursor + 1;
                AssociationAction::LinkTag { tag_id: self.ids.get(self.cursor) }
            } else {
                self.step = AssociationStep::Commit;
                AssociationAction::CommitTransaction
            },
            AssociationEvent::TransactionCommitted(ok) => if ok {
                self.step = AssociationStep::Fetch;
                AssociationAction::FetchPostTags
            } else {
                self.finish(ApiError::CommitAssociationFailed)
            },
            AssociationEvent::PostTagsFetched(result) => {
                self.step = AssociationStep::Finished;
                match result {
                    Ok(rows) => AssociationAction::Reply(Ok(map_tags(rows))),
                    Err(_) => AssociationAction::Reply(Err(ApiError::FetchUpdatedTagsFailed)),
                }
            },
        }
    }
}

/// What the replacement links: each id once, in ascending order, and
/// exactly the ids the request named together with the ids its tag names
/// were upserted as.
pub proof fn lemma_link_order(a: TagAssociation)
    requires
        a.wf(),
    ensures
        strictly_ascending(a.link_order()),
        a.link_order().to_set() == a.requested_ids().union(a.upserted_ids().to_set()),
        a.step() == AssociationStep::Link || a.step() == AssociationStep::Commit || a.step()
            == AssociationStep::Fetch ==> a.upserted_ids().len() == a.labels().len(),
{
    a.ids.lemma_wf_ascending();
}

} // verus!
