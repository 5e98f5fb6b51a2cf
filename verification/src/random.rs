//! Chance: the draws that fill a generated entry, and the entry that they
//! give.

use vstd::prelude::*;
use vstd::string::StringExecFns;
use rand::Rng;
use rand::rngs::ThreadRng;
use crate::ident::{hyphenated, is_random_version, new_v4, uuid_text};
use crate::model::{Media, MediaStatus, MediaType, MediaView};
use crate::rating::Rating;
use crate::text::{decimal, push_decimal};

verus! {

/// The handle to the random number generator of a thread,
/// `rand::rngs::ThreadRng`. It is handed to the draws, never looked into.
#[verifier::external_type_specification]
#[verifier::external_body]
pub struct ExThreadRng(ThreadRng);

/// The generator of the current thread, from `rand::thread_rng`.
#[verifier::external_body]
pub(crate) fn thread_rng() -> (rng: ThreadRng) {
    rand::thread_rng()
}

/// A number drawn by `Rng::gen::<u32>`; nothing is claimed of it.
#[verifier::external_body]
pub(crate) fn gen_u32(rng: &mut ThreadRng) -> (number: u32) {
    rng.gen::<u32>()
}

/// An index drawn by `Rng::gen_range` from zero up to, not including,
/// `bound`. The call panics on an empty range, so `bound` is positive.
#[verifier::external_body]
pub(crate) fn gen_index(rng: &mut ThreadRng, bound: usize) -> (index: usize)
    requires
        bound > 0,
    ensures
        index < bound,
{
    rng.gen_range(0..bound)
}

/// A coin flip by `rand::random::<bool>`; nothing is claimed of it.
#[verifier::external_body]
pub(crate) fn random_bool() -> (heads: bool) {
    rand::random::<bool>()
}

/// The labels that a generated entry draws its genres from.
#[derive(Clone, Copy, Debug, PartialEq, Eq, Structural)]
pub enum Genre {
    Action,
    Adventure,
    Comedy,
    Drama,
    SciFi,
}

/// The number of genres in the vocabulary.
pub const GENRE_COUNT: usize = 5;

impl Genre {
    /// The label of the genre.
    pub open spec fn label(self) -> Seq<char> {
        match self {
            Genre::Action => "Action"@,
            Genre::Adventure => "Adventure"@,
            Genre::Comedy => "Comedy"@,
            Genre::Drama => "Drama"@,
            Genre::SciFi => "Sci-Fi"@,
        }
    }

    /// The genre at a place of the vocabulary.
    pub open spec fn at(index: int) -> Genre {
        if index == 0 {
            Genre::Action
        } else if index == 1 {
            Genre::Adventure
        } else if index == 2 {
            Genre::Comedy
        } else if index == 3 {
            Genre::Drama
        } else {
            Genre::SciFi
        }
    }

    /// The label of the genre.
    pub fn as_str(&self) -> (label: &'static str)
        ensures
            label@ == self.label(),
    {
        match self {
            Genre::Action => "Action",
            Genre::Adventure => "Adventure",
            Genre::Comedy => "Comedy",
            Genre::Drama => "Drama",
            Genre::SciFi => "Sci-Fi",
        }
    }

    /// The genre at a place of the vocabulary.
    pub fn from_index(index: usize) -> (genre: Genre)
        requires
            index < GENRE_COUNT,
        ensures
            genre == Genre::at(index as int),
    {
        if index == 0 {
            Genre::Action
        } else if index == 1 {
            Genre::Adventure
        } else if index == 2 {
            Genre::Comedy
        } else if index == 3 {
            Genre::Drama
        } else {
            Genre::SciFi
        }
    }
}

/// What chance decides of one generated entry, but for its rating.
#[derive(Clone, Copy, Debug)]
pub struct Lots {
    pub id: u128,
    pub title_number: u32,
    pub description_number: u32,
    pub genres: (Genre, Genre, Genre),
    pub movie: bool,
}

impl Lots {
    /// Lots that stand in where none are drawn.
    pub fn blank() -> (lots: Lots)
        ensures
            lots == Lots::blank_spec(),
    {
        Lots {
            id: 0,
            title_number: 0,
            description_number: 0,
            genres: (Genre::Action, Genre::Action, Genre::Action),
            movie: false,
        }
    }

    /// Lots that stand in where none are drawn.
    pub open spec fn blank_spec() -> Lots {
        Lots {
            id: 0,
            title_number: 0,
            description_number: 0,
            genres: (Genre::Action, Genre::Action, Genre::Action),
            movie: false,
        }
    }
}

/// Draws the lots of one entry: a fresh identifier, the numbers of the
/// title and of the description, three genres, each drawn from the whole
/// vocabulary, and a coin flip for the kind.
pub fn draw_lots() -> (lots: Lots)
    ensures
        is_random_version(lots.id),
{
    let mut rng = thread_rng();
    let id = new_v4();
    let title_number = gen_u32(&mut rng);
    let description_number = gen_u32(&mut rng);
    let first = Genre::from_index(gen_index(&mut rng, GENRE_COUNT));
    let second = Genre::from_index(gen_index(&mut rng, GENRE_COUNT));
    let third = Genre::from_index(gen_index(&mut rng, GENRE_COUNT));
    let movie = random_bool();
    Lots { id, title_number, description_number, genres: (first, second, third), movie }
}

/// The title of a generated entry.
pub open spec fn generated_title(number: u32) -> Seq<char> {
    "Media #"@ + decimal(number as nat)
}

/// The description of a generated entry.
pub open spec fn generated_description(number: u32) -> Seq<char> {
    "Random description for Media #"@ + decimal(number as nat)
}

/// The entry that the lots and a rating give: it is planned to be watched,
/// and a film where the coin shows heads.
pub open spec fn random_media_spec(lots: Lots, rating: Rating) -> MediaView {
    MediaView {
        id: Some(hyphenated(lots.id)),
        title: generated_title(lots.title_number),
        description: generated_description(lots.description_number),
        genres: seq![lots.genres.0.label(), lots.genres.1.label(), lots.genres.2.label()],
        rating,
        status: MediaStatus::PlanToWatch,
        media_type: if lots.movie {
            MediaType::Movie
        } else {
            MediaType::Show
        },
    }
}

/// Builds the entry that the lots and a rating give.
pub fn random_media(lots: &Lots, rating: Rating) -> (media: Media)
    ensures
        media@ == random_media_spec(*lots, rating),
{
    let mut title = String::from_str("Media #");
    push_decimal(&mut title, lots.title_number as u64);
    let mut description = String::from_str("Random description for Media #");
    push_decimal(&mut description, lots.description_number as u64);
    let mut genres: Vec<String> = Vec::new();
    genres.push(String::from_str(lots.genres.0.as_str()));
    genres.push(String::from_str(lots.genres.1.as_str()));
    genres.push(String::from_str(lots.genres.2.as_str()));
    assert(genres.deep_view() =~= seq![
        lots.genres.0.label(),
        lots.genres.1.label(),
        lots.genres.2.label(),
    ]);
    let media_type = if lots.movie {
        MediaType::Movie
    } else {
        MediaType::Show
    };
    Media {
        id: Some(uuid_text(lots.id)),
        title,
        description,
        genres,
        rating,
        status: MediaStatus::PlanToWatch,
        media_type,
    }
}

} // verus!
