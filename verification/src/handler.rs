//! The handlers. Each one is a walk of a few steps: a step either answers
//! the request or sends one command to the store and says where the walk
//! goes on when the store has answered.

use vstd::prelude::*;
use vstd::string::StringExecFns;
use crate::ident::{
    hyphenated, is_random_version, new_v4, parse_uuid, uuid_parse_str, uuid_text,
};
use crate::model::{
    Media, MediaView, QueryOptions, UpdateMediaSchema, UpdateMediaSchemaView, ValidationError,
};
use crate::random::{draw_lots, random_media, random_media_spec, Lots};
use crate::rating::Rating;
use crate::response::{HttpReply, HttpReplyView, StatusCode};
use crate::state::{elapsed_seconds, AppState};
use crate::store::{
    changes_of, StoreAnswer, StoreAnswerView, StoreCommand, StoreCommandView, UpdateDocument,
};
use crate::text::{decimal, push_decimal};

verus! {

/// Where a walk stands while the store works on its command.
#[derive(Debug)]
pub enum Pending {
    /// A listing waits for the entries.
    List,
    /// A lookup waits for the entry.
    Get,
    /// A creation waits to hear whether the title is taken.
    CreateLookup { media: Media },
    /// A creation waits for the entry to be added.
    CreateInsert { media: Media },
    /// A removal waits for the count; `id` is the identifier as the client
    /// wrote it.
    Delete { id: String },
    /// An update waits for the changed entry; `id` is the identifier as the
    /// client wrote it.
    Edit { id: String },
    /// A generation waits for `media` to be added, after those in `made`;
    /// one entry is made for each rating.
    Generate { ratings: Vec<Rating>, made: Vec<Media>, media: Media },
}

/// Where a walk stands, as a mathematical value.
pub enum PendingView {
    List,
    Get,
    CreateLookup { media: MediaView },
    CreateInsert { media: MediaView },
    Delete { id: Seq<char> },
    Edit { id: Seq<char> },
    Generate { ratings: Seq<Rating>, made: Seq<MediaView>, media: MediaView },
}

impl View for Pending {
    type V = PendingView;

    open spec fn view(&self) -> PendingView {
        match self {
            Pending::List => PendingView::List,
            Pending::Get => PendingView::Get,
            Pending::CreateLookup { media } => PendingView::CreateLookup { media: media@ },
            Pending::CreateInsert { media } => PendingView::CreateInsert { media: media@ },
            Pending::Delete { id } => PendingView::Delete { id: id@ },
            Pending::Edit { id } => PendingView::Edit { id: id@ },
            Pending::Generate { ratings, made, media } => PendingView::Generate {
                ratings: ratings@,
                made: made.deep_view(),
                media: media@,
            },
        }
    }
}

impl PendingView {
    /// A bound on the commands that the walk still sends, this one
    /// included.
    pub open spec fn rank(self) -> nat {
        match self {
            PendingView::CreateLookup { .. } => 2,
            PendingView::Generate { ratings, made, .. } => if ratings.len() > made.len() {
                (ratings.len() - made.len()) as nat
            } else {
                1
            },
            _ => 1,
        }
    }
}

/// One step of a walk.
#[derive(Debug)]
pub enum Step {
    /// The request is answered.
    Reply(HttpReply),
    /// The store is to carry `command` out; the walk goes on from `pending`
    /// with its answer.
    Ask { command: StoreCommand, pending: Pending },
}

/// One step of a walk, as a mathematical value.
pub enum StepView {
    Reply(HttpReplyView),
    Ask { command: StoreCommandView, pending: PendingView },
}

impl View for Step {
    type V = StepView;

    open spec fn view(&self) -> StepView {
        match self {
            Step::Reply(reply) => StepView::Reply(reply@),
            Step::Ask { command, pending } => StepView::Ask {
                command: command@,
                pending: pending@,
            },
        }
    }
}

impl StepView {
    /// A bound on the commands that the walk still sends.
    pub open spec fn rank(self) -> nat {
        match self {
            StepView::Reply(_) => 0,
            StepView::Ask { pending, .. } => pending.rank(),
        }
    }
}

/// The message of a health check after `seconds` of running.
pub open spec fn uptime_message(seconds: u64) -> Seq<char> {
    "Server is running (Uptime: "@ + decimal(seconds as nat) + " seconds)"@
}

/// The message that refuses a title that an entry already has.
pub open spec fn title_taken_message(title: Seq<char>) -> Seq<char> {
    "Media with title: '"@ + title + "' already exists"@
}

/// The message that reports that no entry has the identifier.
pub open spec fn id_missing_message(id: Seq<char>) -> Seq<char> {
    "Media with ID: "@ + id + " not found"@
}

/// The message that reports that the entry with the identifier is gone.
pub open spec fn id_deleted_message(id: Seq<char>) -> Seq<char> {
    "Media with ID: "@ + id + " has been deleted"@
}

/// The answer to a path that holds no identifier.
pub open spec fn invalid_id_reply() -> HttpReplyView {
    HttpReplyView::text(StatusCode::BadRequest, "Invalid media ID"@)
}

/// The answer to a payload that breaks a rule of the model.
pub open spec fn invalid_payload_reply(error: ValidationError) -> HttpReplyView {
    HttpReplyView::fail(StatusCode::BadRequest, error.message_spec())
}

/// The answer to a request that has failed on the side of the service.
pub open spec fn server_error_reply(what: Seq<char>) -> HttpReplyView {
    HttpReplyView::text(StatusCode::InternalServerError, what)
}

/// The answer of a health check after `seconds` of running.
pub open spec fn health_reply_spec(seconds: u64) -> HttpReplyView {
    HttpReplyView::success(uptime_message(seconds))
}

/// The answer of a health check after `seconds` of running.
pub fn health_reply(seconds: u64) -> (reply: HttpReply)
    ensures
        reply@ == health_reply_spec(seconds),
{
    let mut message = String::from_str("Server is running (Uptime: ");
    push_decimal(&mut message, seconds);
    message.append(" seconds)");
    HttpReply::success(message)
}

/// The whole seconds that a health check reports: those that have passed,
/// or zero where the clock gives none.
pub fn uptime_or_zero(elapsed: Option<u64>) -> (seconds: u64)
    ensures
        seconds == match elapsed {
            Some(passed) => passed,
            None => 0,
        },
{
    match elapsed {
        Some(passed) => passed,
        None => 0,
    }
}

/// Answers a health check: the service runs, and has done so for the
/// seconds that the clock gives since the start, whatever they are.
pub fn health_checker_handler(data: &AppState) -> (reply: HttpReply)
    ensures
        exists|seconds: u64| reply@ == health_reply_spec(seconds),
{
    let seconds = uptime_or_zero(elapsed_seconds(&data.start_time));
    health_reply(seconds)
}

/// The first step of a listing: ask the store for the entries, cut off at
/// the limit.
pub open spec fn list_begin(limit: i64) -> StepView {
    StepView::Ask { command: StoreCommandView::Find { limit }, pending: PendingView::List }
}

/// What a listing answers once the store has answered: the entries in
/// their envelope, or a failure where there are none.
pub open spec fn list_end(answer: StoreAnswerView) -> HttpReplyView {
    match answer {
        StoreAnswerView::Documents(found) => if found.len() == 0 {
            HttpReplyView::fail(StatusCode::NotFound, "No media found"@)
        } else {
            HttpReplyView::list(found)
        },
        _ => server_error_reply("Error fetching media"@),
    }
}

/// Starts a listing. Of the options only the limit is applied; without one
/// the listing runs with 10.
pub fn media_list_handler(opts: &QueryOptions) -> (step: Step)
    ensures
        step@ == list_begin(opts.effective_limit()),
{
    Step::Ask { command: StoreCommand::Find { limit: opts.limit_or_default() }, pending: Pending::List }
}

/// Ends a listing with the answer of the store.
pub fn media_list_reply(answer: StoreAnswer) -> (reply: HttpReply)
    ensures
        reply@ == list_end(answer@),
{
    match answer {
        StoreAnswer::Documents(found) => {
            if found.len() == 0 {
                HttpReply::fail(StatusCode::NotFound, String::from_str("No media found"))
            } else {
                HttpReply::list(found)
            }
        },
        _ => HttpReply::text(StatusCode::InternalServerError, "Error fetching media"),
    }
}

/// The first step of a lookup, given what the path holds: a refusal where
/// it holds no identifier, else a question to the store by the canonical
/// text of the identifier.
pub open spec fn get_begin(id: Option<u128>) -> StepView {
    match id {
        None => StepView::Reply(invalid_id_reply()),
        Some(value) => StepView::Ask {
            command: StoreCommandView::FindOneById { id: hyphenated(value) },
            pending: PendingView::Get,
        },
    }
}

/// What a lookup answers once the store has answered: the bare entry, or
/// that there is none.
pub open spec fn get_end(answer: StoreAnswerView) -> HttpReplyView {
    match answer {
        StoreAnswerView::Document(Some(media)) => HttpReplyView::media(media),
        StoreAnswerView::Document(None) => HttpReplyView::text(
            StatusCode::NotFound,
            "Media not found"@,
        ),
        _ => server_error_reply("Error fetching media"@),
    }
}

/// Starts a lookup with what was read from the path.
pub fn get_media_by(id: Option<u128>) -> (step: Step)
    ensures
        step@ == get_begin(id),
{
    match id {
        None => Step::Reply(HttpReply::text(StatusCode::BadRequest, "Invalid media ID")),
        Some(value) => Step::Ask {
            command: StoreCommand::FindOneById { id: uuid_text(value) },
            pending: Pending::Get,
        },
    }
}

/// Starts a lookup by the identifier in the path.
pub fn get_media_by_id(path: &str) -> (step: Step)
    ensures
        step@ == get_begin(uuid_parse_str(path@)),
{
    get_media_by(parse_uuid(path))
}

/// Ends a lookup with the answer of the store.
pub fn get_media_reply(answer: StoreAnswer) -> (reply: HttpReply)
    ensures
        reply@ == get_end(answer@),
{
    match answer {
        StoreAnswer::Document(Some(media)) => HttpReply::media(media),
        StoreAnswer::Document(None) => HttpReply::text(StatusCode::NotFound, "Media not found"),
        _ => HttpReply::text(StatusCode::InternalServerError, "Error fetching media"),
    }
}

/// The entry as it is created: the body with the minted identifier in
/// place of whatever identifier it came with.
pub open spec fn with_minted_id(body: MediaView, id: u128) -> MediaView {
    MediaView { id: Some(hyphenated(id)), ..body }
}

/// The first step of a creation with a minted identifier: a refusal where
/// the body breaks a rule, else a question to the store for an entry with
/// the same title. Nothing is written yet.
pub open spec fn create_begin(body: MediaView, id: u128) -> StepView {
    if !body.valid() {
        StepView::Reply(invalid_payload_reply(ValidationError::RatingOutOfRange))
    } else {
        StepView::Ask {
            command: StoreCommandView::FindOneByTitle { title: body.title },
            pending: PendingView::CreateLookup { media: with_minted_id(body, id) },
        }
    }
}

/// The second step of a creation: a conflict where the title is taken,
/// else the command that adds the entry.
pub open spec fn create_lookup_end(media: MediaView, answer: StoreAnswerView) -> StepView {
    match answer {
        StoreAnswerView::Document(Some(_)) => StepView::Reply(
            HttpReplyView::fail(StatusCode::Conflict, title_taken_message(media.title)),
        ),
        StoreAnswerView::Document(None) => StepView::Ask {
            command: StoreCommandView::InsertOne { media },
            pending: PendingView::CreateInsert { media },
        },
        _ => StepView::Reply(server_error_reply("Error checking for existing media"@)),
    }
}

/// What a creation answers once the entry is added: the entry in its
/// envelope.
pub open spec fn create_insert_end(media: MediaView, answer: StoreAnswerView) -> HttpReplyView {
    match answer {
        StoreAnswerView::Inserted => HttpReplyView::single(media),
        _ => server_error_reply("Error inserting media"@),
    }
}

/// Starts a creation with a minted identifier.
pub fn create_media_with(body: Media, id: u128) -> (step: Step)
    ensures
        step@ == create_begin(body@, id),
{
    match body.validate() {
        Err(error) => Step::Reply(HttpReply::fail(StatusCode::BadRequest, error.message())),
        Ok(_) => {
            let title = body.title.clone();
            let media = Media {
                id: Some(uuid_text(id)),
                title: body.title,
                description: body.description,
                genres: body.genres,
                rating: body.rating,
                status: body.status,
                media_type: body.media_type,
            };
            Step::Ask {
                command: StoreCommand::FindOneByTitle { title },
                pending: Pending::CreateLookup { media },
            }
        },
    }
}

/// Starts a creation: mints a fresh identifier and goes on as
/// `create_media_with` does with it, whichever identifier it is.
pub fn create_media_handler(body: Media) -> (step: Step)
    ensures
        exists|id: u128| is_random_version(id) && step@ == create_begin(body@, id),
{
    let id = new_v4();
    create_media_with(body, id)
}

/// Goes on with a creation once the store has looked for the title.
pub fn create_media_checked(media: Media, answer: StoreAnswer) -> (step: Step)
    ensures
        step@ == create_lookup_end(media@, answer@),
{
    match answer {
        StoreAnswer::Document(Some(_)) => {
            let mut message = String::from_str("Media with title: '");
            message.append(media.title.as_str());
            message.append("' already exists");
            Step::Reply(HttpReply::fail(StatusCode::Conflict, message))
        },
        StoreAnswer::Document(None) => {
            let copy = media.clone();
            Step::Ask {
                command: StoreCommand::InsertOne { media: copy },
                pending: Pending::CreateInsert { media },
            }
        },
        _ => Step::Reply(
            HttpReply::text(StatusCode::InternalServerError, "Error checking for existing media"),
        ),
    }
}

/// Ends a creation with the answer of the store.
pub fn create_media_reply(media: Media, answer: StoreAnswer) -> (reply: HttpReply)
    ensures
        reply@ == create_insert_end(media@, answer@),
{
    match answer {
        StoreAnswer::Inserted => HttpReply::single(media),
        _ => HttpReply::text(StatusCode::InternalServerError, "Error inserting media"),
    }
}

/// The first step of a removal, given the path and what it holds: a
/// refusal where it holds no identifier, else the command that removes the
/// entry with the canonical text of the identifier.
pub open spec fn delete_begin(path: Seq<char>, id: Option<u128>) -> StepView {
    match id {
        None => StepView::Reply(invalid_id_reply()),
        Some(value) => StepView::Ask {
            command: StoreCommandView::DeleteOneById { id: hyphenated(value) },
            pending: PendingView::Delete { id: path },
        },
    }
}

/// What a removal answers once the store has answered: a failure where
/// nothing was removed, else a success; either names the identifier as the
/// client wrote it.
pub open spec fn delete_end(id: Seq<char>, answer: StoreAnswerView) -> HttpReplyView {
    match answer {
        StoreAnswerView::Deleted(count) => if count == 0 {
            HttpReplyView::fail(StatusCode::NotFound, id_missing_message(id))
        } else {
            HttpReplyView::success(id_deleted_message(id))
        },
        _ => server_error_reply("Error deleting media"@),
    }
}

/// Starts a removal with what was read from the path.
pub fn delete_media_by(path: &str, id: Option<u128>) -> (step: Step)
    ensures
        step@ == delete_begin(path@, id),
{
    match id {
        None => Step::Reply(HttpReply::text(StatusCode::BadRequest, "Invalid media ID")),
        Some(value) => Step::Ask {
            command: StoreCommand::DeleteOneById { id: uuid_text(value) },
            pending: Pending::Delete { id: String::from_str(path) },
        },
    }
}

/// Starts a removal by the identifier in the path.
pub fn delete_media_handler(path: &str) -> (step: Step)
    ensures
        step@ == delete_begin(path@, uuid_parse_str(path@)),
{
    delete_media_by(path, parse_uuid(path))
}

/// Ends a removal with the answer of the store.
pub fn delete_media_reply(id: &str, answer: StoreAnswer) -> (reply: HttpReply)
    ensures
        reply@ == delete_end(id@, answer@),
{
    match answer {
        StoreAnswer::Deleted(count) => {
            let mut message = String::from_str("Media with ID: ");
            message.append(id);
            if count == 0 {
                message.append(" not found");
                HttpReply::fail(StatusCode::NotFound, message)
            } else {
                message.append(" has been deleted");
                HttpReply::success(message)
            }
        },
        _ => HttpReply::text(StatusCode::InternalServerError, "Error deleting media"),
    }
}

/// The first step of an update, given the path, what it holds and the
/// change: a refusal where the change breaks a rule or the path holds no
/// identifier, else the command that assigns the fields that the change
/// holds, and no others, to the entry with the identifier.
pub open spec fn edit_begin(
    path: Seq<char>,
    id: Option<u128>,
    patch: UpdateMediaSchemaView,
) -> StepView {
    if !patch.valid() {
        StepView::Reply(invalid_payload_reply(ValidationError::RatingOutOfRange))
    } else {
        match id {
            None => StepView::Reply(invalid_id_reply()),
            Some(value) => StepView::Ask {
                command: StoreCommandView::FindOneByIdAndUpdate {
                    id: hyphenated(value),
                    update: changes_of(patch),
                },
                pending: PendingView::Edit { id: path },
            },
        }
    }
}

/// What an update answers once the store has answered: the entry as it is
/// after the update, or a failure where no entry has the identifier.
pub open spec fn edit_end(id: Seq<char>, answer: StoreAnswerView) -> HttpReplyView {
    match answer {
        StoreAnswerView::Document(Some(media)) => HttpReplyView::single(media),
        StoreAnswerView::Document(None) => HttpReplyView::fail(
            StatusCode::NotFound,
            id_missing_message(id),
        ),
        _ => server_error_reply("Error updating media"@),
    }
}

/// Starts an update with what was read from the path.
pub fn edit_media_by(path: &str, id: Option<u128>, body: &UpdateMediaSchema) -> (step: Step)
    ensures
        step@ == edit_begin(path@, id, body@),
{
    match body.validate() {
        Err(error) => Step::Reply(HttpReply::fail(StatusCode::BadRequest, error.message())),
        Ok(_) => match id {
            None => Step::Reply(HttpReply::text(StatusCode::BadRequest, "Invalid media ID")),
            Some(value) => Step::Ask {
                command: StoreCommand::FindOneByIdAndUpdate {
                    id: uuid_text(value),
                    update: UpdateDocument::from_patch(body),
                },
                pending: Pending::Edit { id: String::from_str(path) },
            },
        },
    }
}

/// Starts an update of the entry with the identifier in the path.
pub fn edit_media_handler(path: &str, body: &UpdateMediaSchema) -> (step: Step)
    ensures
        step@ == edit_begin(path@, uuid_parse_str(path@), body@),
{
    edit_media_by(path, parse_uuid(path), body)
}

/// Ends an update with the answer of the store.
pub fn edit_media_reply(id: &str, answer: StoreAnswer) -> (reply: HttpReply)
    ensures
        reply@ == edit_end(id@, answer@),
{
    match answer {
        StoreAnswer::Document(Some(media)) => HttpReply::single(media),
        StoreAnswer::Document(None) => {
            let mut message = String::from_str("Media with ID: ");
            message.append(id);
            message.append(" not found");
            HttpReply::fail(StatusCode::NotFound, message)
        },
        _ => HttpReply::text(StatusCode::InternalServerError, "Error updating media"),
    }
}

/// Every rating is at least 0 and less than 5.
pub open spec fn all_below_top(ratings: Seq<Rating>) -> bool {
    forall|i: int| 0 <= i < ratings.len() ==> (#[trigger] ratings[i]).below_top()
}

/// The step of a generation that has made the entries in `made`: the
/// answer with all of them where there is one for each rating, else the
/// command that adds the next, built from the lots and the next rating.
pub open spec fn generate_next(ratings: Seq<Rating>, made: Seq<MediaView>, lots: Lots) -> StepView {
    if made.len() >= ratings.len() {
        StepView::Reply(HttpReplyView::list(made))
    } else {
        let media = random_media_spec(lots, ratings[made.len() as int]);
        StepView::Ask {
            command: StoreCommandView::InsertOne { media },
            pending: PendingView::Generate { ratings, made, media },
        }
    }
}

/// The first step of a generation of one entry for each rating: a failure
/// where a rating lies outside the range from 0 up to 5, else the step
/// after none is made.
pub open spec fn generate_begin(ratings: Seq<Rating>, lots: Lots) -> StepView {
    if !all_below_top(ratings) {
        StepView::Reply(server_error_reply("Error drawing ratings"@))
    } else {
        generate_next(ratings, Seq::empty(), lots)
    }
}

/// The step of a generation once the store has answered for `media`.
pub open spec fn generate_insert_end(
    ratings: Seq<Rating>,
    made: Seq<MediaView>,
    media: MediaView,
    answer: StoreAnswerView,
    lots: Lots,
) -> StepView {
    match answer {
        StoreAnswerView::Inserted => generate_next(ratings, made.push(media), lots),
        _ => StepView::Reply(server_error_reply("Error inserting media"@)),
    }
}

/// Tests whether every rating is at least 0 and less than 5.
fn check_ratings(ratings: &Vec<Rating>) -> (ok: bool)
    ensures
        ok == all_below_top(ratings@),
{
    let mut at: usize = 0;
    while at < ratings.len()
        invariant
            at <= ratings.len(),
            forall|i: int| 0 <= i < at ==> (#[trigger] ratings@[i]).below_top(),
        decreases ratings.len() - at,
    {
        if !ratings[at].is_below_top() {
            return false;
        }
        at += 1;
    }
    true
}

/// Goes on with a generation that has made the entries in `made`, with the
/// lots for the next.
pub fn generate_media_next(ratings: Vec<Rating>, made: Vec<Media>, lots: &Lots) -> (step: Step)
    ensures
        step@ == generate_next(ratings@, made.deep_view(), *lots),
{
    if made.len() >= ratings.len() {
        Step::Reply(HttpReply::list(made))
    } else {
        let media = random_media(lots, ratings[made.len()]);
        let copy = media.clone();
        Step::Ask {
            command: StoreCommand::InsertOne { media: copy },
            pending: Pending::Generate { ratings, made, media },
        }
    }
}

/// Starts a generation with the lots for the first entry.
pub fn generate_media_with(ratings: Vec<Rating>, lots: &Lots) -> (step: Step)
    ensures
        step@ == generate_begin(ratings@, *lots),
{
    if !check_ratings(&ratings) {
        Step::Reply(HttpReply::text(StatusCode::InternalServerError, "Error drawing ratings"))
    } else {
        let made: Vec<Media> = Vec::new();
        assert(made.deep_view() =~= Seq::<MediaView>::empty());
        generate_media_next(ratings, made, lots)
    }
}

/// Starts a generation of one entry for each rating: draws the lots of the
/// first entry and goes on as `generate_media_with` does with them,
/// whichever they are.
pub fn generate_random_media(ratings: Vec<Rating>) -> (step: Step)
    ensures
        exists|lots: Lots| is_random_version(lots.id) && step@ == generate_begin(ratings@, lots),
{
    let lots = draw_lots();
    generate_media_with(ratings, &lots)
}

/// Goes on with a generation once the store has answered for `media`.
pub fn generate_media_inserted(
    ratings: Vec<Rating>,
    made: Vec<Media>,
    media: Media,
    answer: StoreAnswer,
    lots: &Lots,
) -> (step: Step)
    ensures
        step@ == generate_insert_end(ratings@, made.deep_view(), media@, answer@, *lots),
{
    match answer {
        StoreAnswer::Inserted => {
            let mut made = made;
            let ghost before = made.deep_view();
            made.push(media);
            assert(made.deep_view() =~= before.push(media@));
            generate_media_next(ratings, made, lots)
        },
        _ => Step::Reply(HttpReply::text(StatusCode::InternalServerError, "Error inserting media")),
    }
}

/// The step that follows the answer of the store. The lots count only
/// where a generation goes on to its next entry.
pub open spec fn resume_spec(pending: PendingView, answer: StoreAnswerView, lots: Lots) -> StepView {
    match pending {
        PendingView::List => StepView::Reply(list_end(answer)),
        PendingView::Get => StepView::Reply(get_end(answer)),
        PendingView::CreateLookup { media } => create_lookup_end(media, answer),
        PendingView::CreateInsert { media } => StepView::Reply(create_insert_end(media, answer)),
        PendingView::Delete { id } => StepView::Reply(delete_end(id, answer)),
        PendingView::Edit { id } => StepView::Reply(edit_end(id, answer)),
        PendingView::Generate { ratings, made, media } => generate_insert_end(
            ratings,
            made,
            media,
            answer,
            lots,
        ),
    }
}

/// Takes a walk one step on with the answer of the store and the lots for
/// the next generated entry.
pub fn resume_with(pending: Pending, answer: StoreAnswer, lots: &Lots) -> (step: Step)
    ensures
        step@ == resume_spec(pending@, answer@, *lots),
{
    match pending {
        Pending::List => Step::Reply(media_list_reply(answer)),
        Pending::Get => Step::Reply(get_media_reply(answer)),
        Pending::CreateLookup { media } => create_media_checked(media, answer),
        Pending::CreateInsert { media } => Step::Reply(create_media_reply(media, answer)),
        Pending::Delete { id } => Step::Reply(delete_media_reply(id.as_str(), answer)),
        Pending::Edit { id } => Step::Reply(edit_media_reply(id.as_str(), answer)),
        Pending::Generate { ratings, made, media } => generate_media_inserted(
            ratings,
            made,
            media,
            answer,
            lots,
        ),
    }
}

/// Takes a walk one step on with the answer of the store. A generation
/// that has entries left to make draws the lots of its next entry; the
/// step is the one that `resume_with` takes with them, whichever they are.
pub fn resume(pending: Pending, answer: StoreAnswer) -> (step: Step)
    ensures
        exists|lots: Lots| step@ == resume_spec(pending@, answer@, lots),
{
    let lots = match &pending {
        Pending::Generate { ratings, made, .. } => {
            if made.len() < ratings.len() && ratings.len() - made.len() > 1 {
                draw_lots()
            } else {
                Lots::blank()
            }
        },
        _ => Lots::blank(),
    };
    resume_with(pending, answer, &lots)
}

/// Each step leaves fewer commands to send than the one before.
pub proof fn lemma_resume_lowers_rank(pending: PendingView, answer: StoreAnswerView, lots: Lots)
    ensures
        resume_spec(pending, answer, lots).rank() < pending.rank(),
{
}

} // verus!
