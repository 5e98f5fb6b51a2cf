//! The tracked entity and the shapes of the requests that carry it.

use vstd::prelude::*;
use crate::rating::Rating;
use crate::text::same_text;
use vstd::string::StringExecFns;

verus! {

/// Where the viewer stands with a title.
#[derive(Clone, Copy, Debug, PartialEq, Eq, Structural)]
pub enum MediaStatus {
    Watching,
    Watched,
    Dropped,
    OnHold,
    PlanToWatch,
}

impl MediaStatus {
    /// The canonical label of the status, as it is written to the store.
    pub open spec fn label(self) -> Seq<char> {
        match self {
            MediaStatus::Watching => "Watching"@,
            MediaStatus::Watched => "Watched"@,
            MediaStatus::Dropped => "Dropped"@,
            MediaStatus::OnHold => "OnHold"@,
            MediaStatus::PlanToWatch => "PlanToWatch"@,
        }
    }

    /// The canonical label of the status.
    pub fn as_str(&self) -> (label: &'static str)
        ensures
            label@ == self.label(),
    {
        match self {
            MediaStatus::Watching => "Watching",
            MediaStatus::Watched => "Watched",
            MediaStatus::Dropped => "Dropped",
            MediaStatus::OnHold => "OnHold",
            MediaStatus::PlanToWatch => "PlanToWatch",
        }
    }

    /// The status that a label names, if it names one.
    pub open spec fn of_label(label: Seq<char>) -> Option<MediaStatus> {
        if label == MediaStatus::Watching.label() {
            Some(MediaStatus::Watching)
        } else if label == MediaStatus::Watched.label() {
            Some(MediaStatus::Watched)
        } else if label == MediaStatus::Dropped.label() {
            Some(MediaStatus::Dropped)
        } else if label == MediaStatus::OnHold.label() {
            Some(MediaStatus::OnHold)
        } else if label == MediaStatus::PlanToWatch.label() {
            Some(MediaStatus::PlanToWatch)
        } else {
            None
        }
    }

    /// Reads a status from its canonical label; any other text names none.
    pub fn from_label(label: &str) -> (status: Option<MediaStatus>)
        ensures
            status == MediaStatus::of_label(label@),
    {
        if same_text(label, "Watching") {
            Some(MediaStatus::Watching)
        } else if same_text(label, "Watched") {
            Some(MediaStatus::Watched)
        } else if same_text(label, "Dropped") {
            Some(MediaStatus::Dropped)
        } else if same_text(label, "OnHold") {
            Some(MediaStatus::OnHold)
        } else if same_text(label, "PlanToWatch") {
            Some(MediaStatus::PlanToWatch)
        } else {
            None
        }
    }

    /// A status goes through its canonical label unchanged: reading the
    /// label of a status gives that status back.
    pub proof fn lemma_label_round_trip(status: MediaStatus)
        ensures
            MediaStatus::of_label(status.label()) == Some(status),
    {
        reveal_strlit("Watching");
        reveal_strlit("Watched");
        reveal_strlit("Dropped");
        reveal_strlit("OnHold");
        reveal_strlit("PlanToWatch");
        assert("Watching"@.len() == 8);
        assert("Watched"@.len() == 7);
        assert("Dropped"@.len() == 7);
        assert("OnHold"@.len() == 6);
        assert("PlanToWatch"@.len() == 11);
        assert("Watched"@[0] == 'W' && "Dropped"@[0] == 'D');
    }
}

/// Whether a tracked title is a film or a series.
#[derive(Clone, Copy, Debug, PartialEq, Eq, Structural)]
pub enum MediaType {
    Movie,
    Show,
}

/// A tracked title.
#[derive(Debug)]
pub struct Media {
    /// Assigned by the service when the entry is created; absent until then.
    pub id: Option<String>,
    pub title: String,
    pub description: String,
    pub genres: Vec<String>,
    pub rating: Rating,
    pub status: MediaStatus,
    pub media_type: MediaType,
}

/// A tracked title as a mathematical value.
pub struct MediaView {
    pub id: Option<Seq<char>>,
    pub title: Seq<char>,
    pub description: Seq<char>,
    pub genres: Seq<Seq<char>>,
    pub rating: Rating,
    pub status: MediaStatus,
    pub media_type: MediaType,
}

impl View for Media {
    type V = MediaView;

    open spec fn view(&self) -> MediaView {
        MediaView {
            id: self.id.deep_view(),
            title: self.title@,
            description: self.description@,
            genres: self.genres.deep_view(),
            rating: self.rating,
            status: self.status,
            media_type: self.media_type,
        }
    }
}

impl DeepView for Media {
    type V = MediaView;

    open spec fn deep_view(&self) -> MediaView {
        self@
    }
}

impl Clone for Media {
    fn clone(&self) -> (copy: Media)
        ensures
            copy@ == self@,
    {
        let id = match &self.id {
            Some(id) => Some(id.clone()),
            None => None,
        };
        let genres = self.genres.clone();
        assert(genres.deep_view() =~= self.genres.deep_view());
        Media {
            id,
            title: self.title.clone(),
            description: self.description.clone(),
            genres,
            rating: self.rating,
            status: self.status,
            media_type: self.media_type,
        }
    }
}

/// Why a payload is refused before it reaches the store.
#[derive(Clone, Copy, Debug, PartialEq, Eq, Structural)]
pub enum ValidationError {
    /// The rating lies outside the range from 0 to 5.
    RatingOutOfRange,
}

impl ValidationError {
    /// What the client is told of the failure.
    pub open spec fn message_spec(self) -> Seq<char> {
        match self {
            ValidationError::RatingOutOfRange => "rating must be between 0 and 5"@,
        }
    }

    /// What the client is told of the failure.
    pub fn message(&self) -> (message: String)
        ensures
            message@ == self.message_spec(),
    {
        match self {
            ValidationError::RatingOutOfRange => String::from_str("rating must be between 0 and 5"),
        }
    }
}

/// Checks a status. The five statuses are all there are, so each one passes.
pub fn validate_media_status(value: &MediaStatus) -> (outcome: Result<(), ValidationError>)
    ensures
        outcome is Ok,
{
    match value {
        MediaStatus::Watching
        | MediaStatus::Watched
        | MediaStatus::Dropped
        | MediaStatus::OnHold
        | MediaStatus::PlanToWatch => Ok(()),
    }
}

impl MediaView {
    /// The entry meets the rules that hold of every stored entry.
    pub open spec fn valid(self) -> bool {
        self.rating.in_scale()
    }
}

impl Media {
    /// Checks the entry against the rules of the model: the rating lies
    /// between 0 and 5.
    pub fn validate(&self) -> (outcome: Result<(), ValidationError>)
        ensures
            self@.valid() ==> outcome is Ok,
            !self@.valid() ==> outcome == Err::<(), ValidationError>(
                ValidationError::RatingOutOfRange,
            ),
    {
        if !self.rating.is_in_scale() {
            return Err(ValidationError::RatingOutOfRange);
        }
        validate_media_status(&self.status)
    }
}

/// A partial change to an entry: only the fields that are present apply.
#[derive(Debug)]
pub struct UpdateMediaSchema {
    pub title: Option<String>,
    pub description: Option<String>,
    pub genres: Option<Vec<String>>,
    pub rating: Option<Rating>,
    pub status: Option<MediaStatus>,
}

/// A partial change as a mathematical value.
pub struct UpdateMediaSchemaView {
    pub title: Option<Seq<char>>,
    pub description: Option<Seq<char>>,
    pub genres: Option<Seq<Seq<char>>>,
    pub rating: Option<Rating>,
    pub status: Option<MediaStatus>,
}

impl View for UpdateMediaSchema {
    type V = UpdateMediaSchemaView;

    open spec fn view(&self) -> UpdateMediaSchemaView {
        UpdateMediaSchemaView {
            title: self.title.deep_view(),
            description: self.description.deep_view(),
            genres: self.genres.deep_view(),
            rating: self.rating,
            status: self.status,
        }
    }
}

impl Clone for UpdateMediaSchema {
    fn clone(&self) -> (copy: UpdateMediaSchema)
        ensures
            copy@ == self@,
    {
        let title = match &self.title {
            Some(title) => Some(title.clone()),
            None => None,
        };
        let description = match &self.description {
            Some(description) => Some(description.clone()),
            None => None,
        };
        let genres = match &self.genres {
            Some(genres) => {
                let copy = genres.clone();
                assert(copy.deep_view() =~= genres.deep_view());
                Some(copy)
            },
            None => None,
        };
        UpdateMediaSchema { title, description, genres, rating: self.rating, status: self.status }
    }
}

impl UpdateMediaSchemaView {
    /// The change meets the rules of the model: a rating, where one is
    /// present, lies between 0 and 5.
    pub open spec fn valid(self) -> bool {
        self.rating matches Some(rating) ==> rating.in_scale()
    }
}

impl UpdateMediaSchema {
    /// Checks the change against the rules of the model.
    pub fn validate(&self) -> (outcome: Result<(), ValidationError>)
        ensures
            self@.valid() ==> outcome is Ok,
            !self@.valid() ==> outcome == Err::<(), ValidationError>(
                ValidationError::RatingOutOfRange,
            ),
    {
        if let Some(rating) = &self.rating {
            if !rating.is_in_scale() {
                return Err(ValidationError::RatingOutOfRange);
            }
        }
        match &self.status {
            Some(status) => validate_media_status(status),
            None => Ok(()),
        }
    }
}

/// The number of entries that a listing returns when none is asked for.
pub const DEFAULT_LIMIT: i64 = 10;

/// What a client may say about a listing. Only `limit` has an effect:
/// `page`, `sort` and `order` are accepted and not applied.
#[derive(Debug)]
pub struct QueryOptions {
    pub page: Option<i64>,
    pub limit: Option<i64>,
    pub sort: Option<String>,
    pub order: Option<i32>,
}

impl QueryOptions {
    /// The limit that the listing runs with.
    pub open spec fn effective_limit(&self) -> i64 {
        match self.limit {
            Some(limit) => limit,
            None => DEFAULT_LIMIT,
        }
    }

    /// The limit that was asked for, or the default of 10.
    pub fn limit_or_default(&self) -> (limit: i64)
        ensures
            limit == self.effective_limit(),
    {
        match self.limit {
            Some(limit) => limit,
            None => DEFAULT_LIMIT,
        }
    }
}

} // verus!
