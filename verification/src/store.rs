//! The document store as the handlers see it: the commands they send, the
//! answers they get, and what each command does to a collection of entries.

use vstd::prelude::*;
use crate::model::{Media, MediaStatus, MediaView, UpdateMediaSchema, UpdateMediaSchemaView};
use crate::rating::Rating;
use vstd::string::StringExecFns;

verus! {

/// One assignment of an update: a field with its new value. A status
/// travels as its canonical label.
#[derive(Debug)]
pub enum FieldChange {
    Title(String),
    Description(String),
    Genres(Vec<String>),
    Rating(Rating),
    Status(String),
}

/// One assignment of an update, as a mathematical value.
pub enum FieldChangeView {
    Title(Seq<char>),
    Description(Seq<char>),
    Genres(Seq<Seq<char>>),
    Rating(Rating),
    Status(Seq<char>),
}

impl View for FieldChange {
    type V = FieldChangeView;

    open spec fn view(&self) -> FieldChangeView {
        match self {
            FieldChange::Title(title) => FieldChangeView::Title(title@),
            FieldChange::Description(description) => FieldChangeView::Description(description@),
            FieldChange::Genres(genres) => FieldChangeView::Genres(genres.deep_view()),
            FieldChange::Rating(rating) => FieldChangeView::Rating(*rating),
            FieldChange::Status(label) => FieldChangeView::Status(label@),
        }
    }
}

impl DeepView for FieldChange {
    type V = FieldChangeView;

    open spec fn deep_view(&self) -> FieldChangeView {
        self@
    }
}

/// The assignments that a partial change asks for: one for each field that
/// is present, in the order title, description, genres, rating, status.
pub open spec fn changes_of(patch: UpdateMediaSchemaView) -> Seq<FieldChangeView> {
    (match patch.title {
        Some(title) => seq![FieldChangeView::Title(title)],
        None => seq![],
    }) + (match patch.description {
        Some(description) => seq![FieldChangeView::Description(description)],
        None => seq![],
    }) + (match patch.genres {
        Some(genres) => seq![FieldChangeView::Genres(genres)],
        None => seq![],
    }) + (match patch.rating {
        Some(rating) => seq![FieldChangeView::Rating(rating)],
        None => seq![],
    }) + (match patch.status {
        Some(status) => seq![FieldChangeView::Status(status.label())],
        None => seq![],
    })
}

/// The entry after one assignment; nothing where the assignment gives the
/// status a label that names no status.
pub open spec fn apply_change(media: MediaView, change: FieldChangeView) -> Option<MediaView> {
    match change {
        FieldChangeView::Title(title) => Some(MediaView { title, ..media }),
        FieldChangeView::Description(description) => Some(MediaView { description, ..media }),
        FieldChangeView::Genres(genres) => Some(MediaView { genres, ..media }),
        FieldChangeView::Rating(rating) => Some(MediaView { rating, ..media }),
        FieldChangeView::Status(label) => match MediaStatus::of_label(label) {
            Some(status) => Some(MediaView { status, ..media }),
            None => None,
        },
    }
}

/// The entry after the assignments, applied from first to last.
pub open spec fn apply_changes(media: MediaView, changes: Seq<FieldChangeView>) -> Option<
    MediaView,
>
    decreases changes.len(),
{
    if changes.len() == 0 {
        Some(media)
    } else {
        match apply_changes(media, changes.drop_last()) {
            Some(changed) => apply_change(changed, changes.last()),
            None => None,
        }
    }
}

/// The entry with every field that the partial change holds replaced, and
/// every other field as it was.
pub open spec fn patched(media: MediaView, patch: UpdateMediaSchemaView) -> MediaView {
    MediaView {
        id: media.id,
        title: match patch.title {
            Some(title) => title,
            None => media.title,
        },
        description: match patch.description {
            Some(description) => description,
            None => media.description,
        },
        genres: match patch.genres {
            Some(genres) => genres,
            None => media.genres,
        },
        rating: match patch.rating {
            Some(rating) => rating,
            None => media.rating,
        },
        status: match patch.status {
            Some(status) => status,
            None => media.status,
        },
        media_type: media.media_type,
    }
}

/// The update document of a partial change.
#[derive(Debug)]
pub struct UpdateDocument {
    /// The assignments under `$set`.
    pub set: Vec<FieldChange>,
}

impl View for UpdateDocument {
    type V = Seq<FieldChangeView>;

    open spec fn view(&self) -> Seq<FieldChangeView> {
        self.set.deep_view()
    }
}

impl UpdateDocument {
    /// Builds the update document of a partial change: only the fields that
    /// are present are assigned, and a status is written as its label.
    pub fn from_patch(patch: &UpdateMediaSchema) -> (update: UpdateDocument)
        ensures
            update@ == changes_of(patch@),
    {
        let mut set: Vec<FieldChange> = Vec::new();
        if let Some(title) = &patch.title {
            set.push(FieldChange::Title(title.clone()));
        }
        if let Some(description) = &patch.description {
            set.push(FieldChange::Description(description.clone()));
        }
        if let Some(genres) = &patch.genres {
            let copy = genres.clone();
            assert(copy.deep_view() =~= genres.deep_view());
            set.push(FieldChange::Genres(copy));
        }
        if let Some(rating) = &patch.rating {
            set.push(FieldChange::Rating(*rating));
        }
        if let Some(status) = &patch.status {
            set.push(FieldChange::Status(String::from_str(status.as_str())));
        }
        assert(set.deep_view() =~= changes_of(patch@));
        UpdateDocument { set }
    }
}

/// Applying the assignments of a partial change replaces exactly the
/// fields that the change holds.
pub proof fn lemma_changes_apply_patch(media: MediaView, patch: UpdateMediaSchemaView)
    ensures
        apply_changes(media, changes_of(patch)) == Some(patched(media, patch)),
{
    let title: Seq<FieldChangeView> = match patch.title {
        Some(title) => seq![FieldChangeView::Title(title)],
        None => seq![],
    };
    let description: Seq<FieldChangeView> = match patch.description {
        Some(description) => seq![FieldChangeView::Description(description)],
        None => seq![],
    };
    let genres: Seq<FieldChangeView> = match patch.genres {
        Some(genres) => seq![FieldChangeView::Genres(genres)],
        None => seq![],
    };
    let rating: Seq<FieldChangeView> = match patch.rating {
        Some(rating) => seq![FieldChangeView::Rating(rating)],
        None => seq![],
    };
    let status: Seq<FieldChangeView> = match patch.status {
        Some(status) => seq![FieldChangeView::Status(status.label())],
        None => seq![],
    };
    let after_title = MediaView {
        title: match patch.title {
            Some(title) => title,
            None => media.title,
        },
        ..media
    };
    let after_description = MediaView {
        description: match patch.description {
            Some(description) => description,
            None => media.description,
        },
        ..after_title
    };
    let after_genres = MediaView {
        genres: match patch.genres {
            Some(genres) => genres,
            None => media.genres,
        },
        ..after_description
    };
    let after_rating = MediaView {
        rating: match patch.rating {
            Some(rating) => rating,
            None => media.rating,
        },
        ..after_genres
    };
    lemma_apply_optional(media, seq![], title, after_title);
    lemma_apply_optional(media, title, description, after_description);
    lemma_apply_optional(media, title + description, genres, after_genres);
    lemma_apply_optional(media, title + description + genres, rating, after_rating);
    if let Some(status) = patch.status {
        MediaStatus::lemma_label_round_trip(status);
    }
    lemma_apply_optional(
        media,
        title + description + genres + rating,
        status,
        patched(media, patch),
    );
}

/// Appending at most one assignment to a list of assignments applies it
/// after them.
proof fn lemma_apply_optional(
    media: MediaView,
    before: Seq<FieldChangeView>,
    optional: Seq<FieldChangeView>,
    after: MediaView,
)
    requires
        optional.len() <= 1,
        apply_changes(media, before) is Some,
        optional.len() == 0 ==> after == apply_changes(media, before).unwrap(),
        optional.len() == 1 ==> Some(after) == apply_change(
            apply_changes(media, before).unwrap(),
            optional[0],
        ),
    ensures
        apply_changes(media, before + optional) == Some(after),
{
    if optional.len() == 0 {
        assert(before + optional =~= before);
    } else {
        assert((before + optional).drop_last() =~= before);
        assert((before + optional).last() == optional[0]);
    }
}

/// A command to the store.
#[derive(Debug)]
pub enum StoreCommand {
    /// Every entry, cut off after `limit` of them.
    Find { limit: i64 },
    /// The entry with the given identifier.
    FindOneById { id: String },
    /// An entry with the given title.
    FindOneByTitle { title: String },
    /// Add the entry.
    InsertOne { media: Media },
    /// Remove the entry with the given identifier.
    DeleteOneById { id: String },
    /// Change the entry with the given identifier and hand back what it has
    /// become.
    FindOneByIdAndUpdate { id: String, update: UpdateDocument },
}

/// A command to the store, as a mathematical value.
pub enum StoreCommandView {
    Find { limit: i64 },
    FindOneById { id: Seq<char> },
    FindOneByTitle { title: Seq<char> },
    InsertOne { media: MediaView },
    DeleteOneById { id: Seq<char> },
    FindOneByIdAndUpdate { id: Seq<char>, update: Seq<FieldChangeView> },
}

impl View for StoreCommand {
    type V = StoreCommandView;

    open spec fn view(&self) -> StoreCommandView {
        match self {
            StoreCommand::Find { limit } => StoreCommandView::Find { limit: *limit },
            StoreCommand::FindOneById { id } => StoreCommandView::FindOneById { id: id@ },
            StoreCommand::FindOneByTitle { title } => StoreCommandView::FindOneByTitle {
                title: title@,
            },
            StoreCommand::InsertOne { media } => StoreCommandView::InsertOne { media: media@ },
            StoreCommand::DeleteOneById { id } => StoreCommandView::DeleteOneById { id: id@ },
            StoreCommand::FindOneByIdAndUpdate { id, update } => {
                StoreCommandView::FindOneByIdAndUpdate { id: id@, update: update@ }
            },
        }
    }
}

/// The answer of the store to a command.
#[derive(Debug)]
pub enum StoreAnswer {
    /// The entries that a listing found.
    Documents(Vec<Media>),
    /// The entry that a lookup or an update found, if it found one.
    Document(Option<Media>),
    /// The entry was added.
    Inserted,
    /// The number of entries that were removed.
    Deleted(u64),
    /// The store could not carry the command out.
    Failed,
}

/// The answer of the store, as a mathematical value.
pub enum StoreAnswerView {
    Documents(Seq<MediaView>),
    Document(Option<MediaView>),
    Inserted,
    Deleted(u64),
    Failed,
}

impl View for StoreAnswer {
    type V = StoreAnswerView;

    open spec fn view(&self) -> StoreAnswerView {
        match self {
            StoreAnswer::Documents(found) => StoreAnswerView::Documents(found.deep_view()),
            StoreAnswer::Document(found) => StoreAnswerView::Document(found.deep_view()),
            StoreAnswer::Inserted => StoreAnswerView::Inserted,
            StoreAnswer::Deleted(count) => StoreAnswerView::Deleted(*count),
            StoreAnswer::Failed => StoreAnswerView::Failed,
        }
    }
}

/// `at` is the place of the first entry that `wanted` holds of, or the
/// number of entries where it holds of none.
pub open spec fn is_first_where(
    docs: Seq<MediaView>,
    wanted: spec_fn(MediaView) -> bool,
    at: int,
) -> bool {
    &&& 0 <= at <= docs.len()
    &&& forall|before: int| 0 <= before < at ==> !wanted(#[trigger] docs[before])
    &&& at < docs.len() ==> wanted(docs[at])
}

/// The place of the first entry that `wanted` holds of, or the number of
/// entries where it holds of none.
pub open spec fn first_where(docs: Seq<MediaView>, wanted: spec_fn(MediaView) -> bool) -> int {
    choose|at: int| is_first_where(docs, wanted, at)
}

/// The entries with the given identifier.
pub open spec fn with_id(id: Option<Seq<char>>) -> spec_fn(MediaView) -> bool {
    |media: MediaView| media.id == id
}

/// The entries with the given title.
pub open spec fn with_title(title: Seq<char>) -> spec_fn(MediaView) -> bool {
    |media: MediaView| media.title == title
}

/// The first entry that `wanted` holds of, if there is one.
pub open spec fn lookup(docs: Seq<MediaView>, wanted: spec_fn(MediaView) -> bool) -> Option<
    MediaView,
> {
    let at = first_where(docs, wanted);
    if at < docs.len() {
        Some(docs[at])
    } else {
        None
    }
}

/// The entries that a listing with the given limit returns: the first
/// `limit` of them, all where there are no more, none where the limit is
/// not positive.
pub open spec fn listed(docs: Seq<MediaView>, limit: i64) -> Seq<MediaView> {
    if limit <= 0 {
        Seq::empty()
    } else if limit >= docs.len() {
        docs
    } else {
        docs.take(limit as int)
    }
}

/// No two entries share an identifier.
pub open spec fn distinct_ids(docs: Seq<MediaView>) -> bool {
    forall|i: int, j: int|
        0 <= i < j < docs.len() ==> (#[trigger] docs[i]).id != (#[trigger] docs[j]).id
}

/// What a command does to a collection of entries: the collection after
/// it, and the answer.
///
/// An entry is added only where no entry has its identifier. A removal and
/// an update reach the first entry with the identifier. An update whose
/// status label names no status fails and changes nothing.
pub open spec fn execute_spec(docs: Seq<MediaView>, command: StoreCommandView) -> (
    Seq<MediaView>,
    StoreAnswerView,
) {
    match command {
        StoreCommandView::Find { limit } => (docs, StoreAnswerView::Documents(listed(docs, limit))),
        StoreCommandView::FindOneById { id } => (
            docs,
            StoreAnswerView::Document(lookup(docs, with_id(Some(id)))),
        ),
        StoreCommandView::FindOneByTitle { title } => (
            docs,
            StoreAnswerView::Document(lookup(docs, with_title(title))),
        ),
        StoreCommandView::InsertOne { media } => {
            if first_where(docs, with_id(media.id)) < docs.len() {
                (docs, StoreAnswerView::Failed)
            } else {
                (docs.push(media), StoreAnswerView::Inserted)
            }
        },
        StoreCommandView::DeleteOneById { id } => {
            let at = first_where(docs, with_id(Some(id)));
            if at < docs.len() {
                (docs.remove(at), StoreAnswerView::Deleted(1))
            } else {
                (docs, StoreAnswerView::Deleted(0))
            }
        },
        StoreCommandView::FindOneByIdAndUpdate { id, update } => {
            let at = first_where(docs, with_id(Some(id)));
            if at < docs.len() {
                match apply_changes(docs[at], update) {
                    Some(changed) => (
                        docs.update(at, changed),
                        StoreAnswerView::Document(Some(changed)),
                    ),
                    None => (docs, StoreAnswerView::Failed),
                }
            } else {
                (docs, StoreAnswerView::Document(None))
            }
        },
    }
}

/// There is one first place, and whatever meets its description is it.
pub proof fn lemma_first_where(docs: Seq<MediaView>, wanted: spec_fn(MediaView) -> bool, at: int)
    requires
        is_first_where(docs, wanted, at),
    ensures
        first_where(docs, wanted) == at,
{
    let chosen = first_where(docs, wanted);
    assert(is_first_where(docs, wanted, chosen));
    if chosen < at {
        assert(!wanted(docs[chosen]));
    } else if at < chosen {
        assert(!wanted(docs[at]));
    }
}

/// Every collection has a first place for every description.
pub proof fn lemma_first_where_exists(docs: Seq<MediaView>, wanted: spec_fn(MediaView) -> bool)
    ensures
        is_first_where(docs, wanted, first_where(docs, wanted)),
    decreases docs.len(),
{
    if docs.len() == 0 {
        assert(is_first_where(docs, wanted, 0));
    } else {
        let shorter = docs.drop_last();
        lemma_first_where_exists(shorter, wanted);
        let at = first_where(shorter, wanted);
        if at < shorter.len() {
            assert(docs[at] == shorter[at]);
            assert forall|before: int| 0 <= before < at implies !wanted(#[trigger] docs[before]) by {
                assert(docs[before] == shorter[before]);
            }
            assert(is_first_where(docs, wanted, at));
        } else {
            assert forall|before: int| 0 <= before < shorter.len() implies !wanted(
                #[trigger] docs[before],
            ) by {
                assert(docs[before] == shorter[before]);
            }
            if wanted(docs.last()) {
                assert(is_first_where(docs, wanted, docs.len() - 1));
            } else {
                assert(is_first_where(docs, wanted, docs.len() as int));
            }
        }
    }
}

} // verus!
