//! What every handler shares: the handle to the collection and the moment
//! the process started.

use vstd::prelude::*;
use std::time::SystemTime;
use crate::model::Media;

verus! {

/// The driver's handle to a collection, `mongodb::Collection`. It is
/// carried, never looked into.
#[verifier::external_type_specification]
#[verifier::external_body]
#[verifier::reject_recursive_types(T)]
pub struct ExCollection<T>(mongodb::Collection<T>);

/// A reading of the system clock, `std::time::SystemTime`. It is carried
/// and handed to `elapsed_seconds`, never looked into.
#[verifier::external_type_specification]
#[verifier::external_body]
pub struct ExSystemTime(SystemTime);

/// The state that the server builds once and hands to every handler.
pub struct AppState {
    pub media_collection: mongodb::Collection<Media>,
    pub start_time: SystemTime,
}

impl AppState {
    /// The state with the given handle and start.
    pub fn new(media_collection: mongodb::Collection<Media>, start_time: SystemTime) -> (state:
        AppState)
        ensures
            state.media_collection == media_collection,
            state.start_time == start_time,
    {
        AppState { media_collection, start_time }
    }
}

/// The whole seconds since `start`, from `SystemTime::elapsed` and
/// `Duration::as_secs`; nothing where the clock has gone back behind
/// `start`. The outcome depends on the clock, so nothing is claimed of it.
#[verifier::external_body]
pub(crate) fn elapsed_seconds(start: &SystemTime) -> (seconds: Option<u64>) {
    match start.elapsed() {
        Ok(duration) => Some(duration.as_secs()),
        Err(_) => None,
    }
}

} // verus!
