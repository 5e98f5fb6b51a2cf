//! A document store held in memory, which does to its entries what the
//! store's commands say.

use vstd::prelude::*;
use crate::model::{Media, MediaStatus, MediaView};
use crate::store::{
    apply_changes, execute_spec, first_where, lemma_first_where, listed, with_id, with_title,
    FieldChange, FieldChangeView, StoreAnswer, StoreCommand, UpdateDocument,
};

verus! {

/// A collection of entries in the order in which they were added.
#[derive(Debug)]
pub struct MemoryStore {
    docs: Vec<Media>,
}

impl View for MemoryStore {
    type V = Seq<MediaView>;

    closed spec fn view(&self) -> Seq<MediaView> {
        self.docs.deep_view()
    }
}

/// Tests whether two optional texts are both absent or hold the same
/// characters.
fn same_optional_text(left: &Option<String>, right: &Option<String>) -> (same: bool)
    ensures
        same == (left.deep_view() == right.deep_view()),
{
    match (left, right) {
        (Some(left), Some(right)) => *left == *right,
        (None, None) => true,
        _ => false,
    }
}

/// The place of the first entry with the given identifier.
fn position_of_id(docs: &Vec<Media>, id: &Option<String>) -> (at: usize)
    ensures
        at == first_where(docs.deep_view(), with_id(id.deep_view())),
        at <= docs.len(),
{
    let mut at: usize = 0;
    while at < docs.len()
        invariant
            at <= docs.len(),
            forall|before: int|
                0 <= before < at ==> !with_id(id.deep_view())(#[trigger] docs.deep_view()[before]),
        decreases docs.len() - at,
    {
        if same_optional_text(&docs[at].id, id) {
            proof {
                assert(docs.deep_view()[at as int] == docs[at as int]@);
                lemma_first_where(docs.deep_view(), with_id(id.deep_view()), at as int);
            }
            return at;
        }
        assert(docs.deep_view()[at as int] == docs[at as int]@);
        at += 1;
    }
    proof {
        lemma_first_where(docs.deep_view(), with_id(id.deep_view()), at as int);
    }
    at
}

/// The place of the first entry with the given title.
fn position_of_title(docs: &Vec<Media>, title: &String) -> (at: usize)
    ensures
        at == first_where(docs.deep_view(), with_title(title@)),
        at <= docs.len(),
{
    let mut at: usize = 0;
    while at < docs.len()
        invariant
            at <= docs.len(),
            forall|before: int|
                0 <= before < at ==> !with_title(title@)(#[trigger] docs.deep_view()[before]),
        decreases docs.len() - at,
    {
        if docs[at].title == *title {
            proof {
                assert(docs.deep_view()[at as int] == docs[at as int]@);
                lemma_first_where(docs.deep_view(), with_title(title@), at as int);
            }
            return at;
        }
        assert(docs.deep_view()[at as int] == docs[at as int]@);
        at += 1;
    }
    proof {
        lemma_first_where(docs.deep_view(), with_title(title@), at as int);
    }
    at
}

/// Copies the first `count` entries.
fn copy_first(docs: &Vec<Media>, count: usize) -> (copy: Vec<Media>)
    requires
        count <= docs.len(),
    ensures
        copy.deep_view() == docs.deep_view().take(count as int),
{
    let mut copy: Vec<Media> = Vec::new();
    let mut at: usize = 0;
    while at < count
        invariant
            at <= count <= docs.len(),
            copy.len() == at,
            forall|i: int| 0 <= i < at ==> (#[trigger] copy[i])@ == docs[i]@,
        decreases count - at,
    {
        copy.push(docs[at].clone());
        at += 1;
    }
    assert(copy.deep_view() =~= docs.deep_view().take(count as int));
    copy
}

/// Applies the assignments of an update to a copy of an entry.
fn apply_update(media: &Media, update: &UpdateDocument) -> (changed: Option<Media>)
    ensures
        changed.deep_view() == apply_changes(media@, update@),
{
    let mut changed = media.clone();
    let mut at: usize = 0;
    while at < update.set.len()
        invariant
            at <= update.set.len(),
            apply_changes(media@, update@.take(at as int)) == Some(changed@),
        decreases update.set.len() - at,
    {
        proof {
            assert(update@.take(at + 1).drop_last() =~= update@.take(at as int));
            assert(update@.take(at + 1).last() == update.set[at as int]@);
        }
        match &update.set[at] {
            FieldChange::Title(title) => {
                changed.title = title.clone();
            },
            FieldChange::Description(description) => {
                changed.description = description.clone();
            },
            FieldChange::Genres(genres) => {
                let copy = genres.clone();
                assert(copy.deep_view() =~= genres.deep_view());
                changed.genres = copy;
            },
            FieldChange::Rating(rating) => {
                changed.rating = *rating;
            },
            FieldChange::Status(label) => {
                match MediaStatus::from_label(label.as_str()) {
                    Some(status) => {
                        changed.status = status;
                    },
                    None => {
                        proof {
                            lemma_apply_changes_fails(media@, update@, at + 1);
                        }
                        return None;
                    },
                }
            },
        }
        at += 1;
    }
    assert(update@.take(at as int) =~= update@);
    Some(changed)
}

/// Once the assignments have failed, they fail whatever follows.
proof fn lemma_apply_changes_fails(
    media: MediaView,
    changes: Seq<FieldChangeView>,
    upto: int,
)
    requires
        0 <= upto <= changes.len(),
        apply_changes(media, changes.take(upto)) is None,
    ensures
        apply_changes(media, changes) is None,
    decreases changes.len() - upto,
{
    if upto < changes.len() {
        assert(changes.take(upto + 1).drop_last() =~= changes.take(upto));
        lemma_apply_changes_fails(media, changes, upto + 1);
    } else {
        assert(changes.take(upto) =~= changes);
    }
}

impl MemoryStore {
    /// A store without entries.
    pub fn new() -> (store: MemoryStore)
        ensures
            store@ == Seq::<MediaView>::empty(),
    {
        let store = MemoryStore { docs: Vec::new() };
        assert(store@ =~= Seq::<MediaView>::empty());
        store
    }

    /// The number of entries.
    pub fn len(&self) -> (count: usize)
        ensures
            count == self@.len(),
    {
        self.docs.len()
    }

    /// A copy of every entry, in the order of the store.
    pub fn documents(&self) -> (docs: Vec<Media>)
        ensures
            docs.deep_view() == self@,
    {
        let docs = copy_first(&self.docs, self.docs.len());
        assert(self.docs.deep_view().take(self.docs.len() as int) =~= self.docs.deep_view());
        docs
    }

    /// Carries a command out and answers it.
    pub fn execute(&mut self, command: StoreCommand) -> (answer: StoreAnswer)
        ensures
            (final(self)@, answer@) == execute_spec(old(self)@, command@),
    {
        match command {
            StoreCommand::Find { limit } => {
                let count = if limit <= 0 {
                    0
                } else if limit as u64 >= self.docs.len() as u64 {
                    self.docs.len()
                } else {
                    limit as usize
                };
                let found = copy_first(&self.docs, count);
                assert(found.deep_view() =~= listed(self@, limit));
                StoreAnswer::Documents(found)
            },
            StoreCommand::FindOneById { id } => {
                let at = position_of_id(&self.docs, &Some(id));
                if at < self.docs.len() {
                    StoreAnswer::Document(Some(self.docs[at].clone()))
                } else {
                    StoreAnswer::Document(None)
                }
            },
            StoreCommand::FindOneByTitle { title } => {
                let at = position_of_title(&self.docs, &title);
                if at < self.docs.len() {
                    StoreAnswer::Document(Some(self.docs[at].clone()))
                } else {
                    StoreAnswer::Document(None)
                }
            },
            StoreCommand::InsertOne { media } => {
                let at = position_of_id(&self.docs, &media.id);
                if at < self.docs.len() {
                    StoreAnswer::Failed
                } else {
                    self.docs.push(media);
                    assert(self@ =~= old(self)@.push(media@));
                    StoreAnswer::Inserted
                }
            },
            StoreCommand::DeleteOneById { id } => {
                let at = position_of_id(&self.docs, &Some(id));
                if at < self.docs.len() {
                    self.docs.remove(at);
                    assert(self@ =~= old(self)@.remove(at as int));
                    StoreAnswer::Deleted(1)
                } else {
                    StoreAnswer::Deleted(0)
                }
            },
            StoreCommand::FindOneByIdAndUpdate { id, update } => {
                let at = position_of_id(&self.docs, &Some(id));
                if at < self.docs.len() {
                    match apply_update(&self.docs[at], &update) {
                        Some(changed) => {
                            let copy = changed.clone();
                            self.docs.set(at, changed);
                            assert(self@ =~= old(self)@.update(at as int, copy@));
                            StoreAnswer::Document(Some(copy))
                        },
                        None => StoreAnswer::Failed,
                    }
                } else {
                    StoreAnswer::Document(None)
                }
            },
        }
    }
}

} // verus!
