//! What holds of the service, whatever the store holds and whatever chance
//! decides.

use vstd::prelude::*;
use crate::handler::{
    all_below_top, generate_next, id_deleted_message, id_missing_message, invalid_id_reply,
    create_begin, invalid_payload_reply, lemma_resume_lowers_rank, resume_spec,
    server_error_reply, title_taken_message, with_minted_id, PendingView, StepView,
};
use crate::ident::{hyphenated, uuid_parse_str};
use crate::model::{MediaStatus, MediaType, MediaView, UpdateMediaSchemaView, ValidationError};
use crate::random::{random_media_spec, Lots};
use crate::rating::Rating;
use crate::response::{BodyView, HttpReplyView, StatusCode};
use crate::service::{begin_spec, lots_at, outcome, run, RequestView};
use crate::store::{
    apply_changes, changes_of, distinct_ids, execute_spec, first_where,
    lemma_changes_apply_patch, lemma_first_where, lemma_first_where_exists, listed, lookup,
    patched, with_id, with_title, FieldChangeView, StoreAnswerView, StoreCommandView,
};

verus! {

/// A walk that has its answer is at its end.
pub proof fn lemma_run_reply(docs: Seq<MediaView>, reply: HttpReplyView, lots: Seq<Lots>, turn: nat)
    ensures
        run(docs, StepView::Reply(reply), lots, turn) == (docs, reply),
{
}

/// A walk that sends a command goes on from what the store makes of it.
pub proof fn lemma_run_ask(
    docs: Seq<MediaView>,
    command: StoreCommandView,
    pending: PendingView,
    lots: Seq<Lots>,
    turn: nat,
)
    ensures
        run(docs, StepView::Ask { command, pending }, lots, turn) == run(
            execute_spec(docs, command).0,
            resume_spec(pending, execute_spec(docs, command).1, lots_at(lots, turn)),
            lots,
            turn + 1,
        ),
{
}

/// Some entry has the identifier.
pub open spec fn holds_id(docs: Seq<MediaView>, id: Seq<char>) -> bool {
    exists|at: int| 0 <= at < docs.len() && (#[trigger] docs[at]).id == Some(id)
}

/// Some entry has the title.
pub open spec fn holds_title(docs: Seq<MediaView>, title: Seq<char>) -> bool {
    exists|at: int| 0 <= at < docs.len() && (#[trigger] docs[at]).title == title
}

/// A lookup finds an entry exactly where some entry is wanted, and the
/// entry that it finds is wanted.
pub proof fn lemma_lookup(docs: Seq<MediaView>, wanted: spec_fn(MediaView) -> bool)
    ensures
        lookup(docs, wanted) is Some <==> exists|at: int|
            0 <= at < docs.len() && wanted(#[trigger] docs[at]),
        lookup(docs, wanted) matches Some(found) ==> wanted(found),
        0 <= first_where(docs, wanted) <= docs.len(),
{
    lemma_first_where_exists(docs, wanted);
    let first = first_where(docs, wanted);
    if first < docs.len() {
        assert(wanted(docs[first]));
    }
}

/// The first place of an identifier lies in the store exactly where some
/// entry has the identifier, and the entry at that place has it.
pub proof fn lemma_holds_id(docs: Seq<MediaView>, id: Seq<char>)
    ensures
        0 <= first_where(docs, with_id(Some(id))) <= docs.len(),
        holds_id(docs, id) <==> first_where(docs, with_id(Some(id))) < docs.len(),
        holds_id(docs, id) ==> docs[first_where(docs, with_id(Some(id)))].id == Some(id),
{
    let wanted = with_id(Some(id));
    lemma_lookup(docs, wanted);
    let first = first_where(docs, wanted);
    if first < docs.len() {
        assert(wanted(docs[first]));
        assert(docs[first].id == Some(id));
    }
    if holds_id(docs, id) {
        let at = choose|at: int| 0 <= at < docs.len() && (#[trigger] docs[at]).id == Some(id);
        assert(wanted(docs[at]));
    }
}

/// What a listing comes to: the store stays as it was, and the answer is
/// made of the entries up to the limit, or reports that there are none.
pub proof fn law_listing_outcome(docs: Seq<MediaView>, limit: i64, lots: Seq<Lots>)
    ensures
        outcome(docs, RequestView::List { limit }, lots) == (
            docs,
            if listed(docs, limit).len() == 0 {
                HttpReplyView::fail(StatusCode::NotFound, "No media found"@)
            } else {
                HttpReplyView::list(listed(docs, limit))
            },
        ),
{
    lemma_run_ask(docs, StoreCommandView::Find { limit }, PendingView::List, lots, 1);
}

/// What a lookup comes to: the store stays as it was, and the answer is a
/// refusal where the path holds no identifier, else the first entry with
/// the identifier, or the report that there is none.
pub proof fn law_lookup_outcome(docs: Seq<MediaView>, path: Seq<char>, lots: Seq<Lots>)
    ensures
        outcome(docs, RequestView::Get { path }, lots) == (
            docs,
            match uuid_parse_str(path) {
                None => invalid_id_reply(),
                Some(id) => match lookup(docs, with_id(Some(hyphenated(id)))) {
                    Some(media) => HttpReplyView::media(media),
                    None => HttpReplyView::text(StatusCode::NotFound, "Media not found"@),
                },
            },
        ),
{
    if let Some(id) = uuid_parse_str(path) {
        lemma_run_ask(
            docs,
            StoreCommandView::FindOneById { id: hyphenated(id) },
            PendingView::Get,
            lots,
            1,
        );
    }
}

/// What a creation comes to. It is refused where the rating lies outside
/// the range, and is a conflict where an entry has the title; either way
/// the store stays as it was. Else the body, with the minted identifier in
/// place of its own, is added to the store and shown in the answer, unless
/// an entry has the minted identifier, which the store refuses.
pub proof fn law_creation_outcome(docs: Seq<MediaView>, body: MediaView, lots: Seq<Lots>)
    ensures
        ({
            let media = with_minted_id(body, lots_at(lots, 0).id);
            outcome(docs, RequestView::Create { body }, lots) == if !body.rating.in_scale() {
                (docs, invalid_payload_reply(ValidationError::RatingOutOfRange))
            } else if holds_title(docs, body.title) {
                (docs, HttpReplyView::fail(StatusCode::Conflict, title_taken_message(body.title)))
            } else if holds_id(docs, hyphenated(lots_at(lots, 0).id)) {
                (docs, server_error_reply("Error inserting media"@))
            } else {
                (docs.push(media), HttpReplyView::single(media))
            }
        }),
{
    let media = with_minted_id(body, lots_at(lots, 0).id);
    if body.valid() {
        lemma_run_ask(
            docs,
            StoreCommandView::FindOneByTitle { title: body.title },
            PendingView::CreateLookup { media },
            lots,
            1,
        );
        lemma_lookup(docs, with_title(body.title));
        if holds_title(docs, body.title) {
            let at = choose|at: int|
                0 <= at < docs.len() && (#[trigger] docs[at]).title == body.title;
            assert(with_title(body.title)(docs[at]));
        } else {
            if lookup(docs, with_title(body.title)) is Some {
                let at = first_where(docs, with_title(body.title));
                assert(with_title(body.title)(docs[at]));
                assert(docs[at].title == body.title);
            }
            lemma_run_ask(
                docs,
                StoreCommandView::InsertOne { media },
                PendingView::CreateInsert { media },
                lots,
                2,
            );
            lemma_holds_id(docs, hyphenated(lots_at(lots, 0).id));
        }
    }
}

/// What a removal comes to: a refusal where the path holds no identifier;
/// else the first entry with the identifier leaves the store, or the
/// answer reports that there is none and the store stays as it was.
pub proof fn law_removal_outcome(docs: Seq<MediaView>, path: Seq<char>, lots: Seq<Lots>)
    ensures
        outcome(docs, RequestView::Delete { path }, lots) == match uuid_parse_str(path) {
            None => (docs, invalid_id_reply()),
            Some(id) => if holds_id(docs, hyphenated(id)) {
                (
                    docs.remove(first_where(docs, with_id(Some(hyphenated(id))))),
                    HttpReplyView::success(id_deleted_message(path)),
                )
            } else {
                (docs, HttpReplyView::fail(StatusCode::NotFound, id_missing_message(path)))
            },
        },
{
    if let Some(id) = uuid_parse_str(path) {
        lemma_holds_id(docs, hyphenated(id));
        lemma_run_ask(
            docs,
            StoreCommandView::DeleteOneById { id: hyphenated(id) },
            PendingView::Delete { id: path },
            lots,
            1,
        );
    }
}

/// What an update comes to: a refusal where the rating of the change lies
/// outside the range or the path holds no identifier; else the first entry
/// with the identifier has each field that the change holds replaced and
/// every other field left as it was, and the answer shows it, or the
/// answer reports that there is none and the store stays as it was.
pub proof fn law_update_outcome(
    docs: Seq<MediaView>,
    path: Seq<char>,
    patch: UpdateMediaSchemaView,
    lots: Seq<Lots>,
)
    ensures
        outcome(docs, RequestView::Edit { path, patch }, lots) == if !patch.valid() {
            (docs, invalid_payload_reply(ValidationError::RatingOutOfRange))
        } else {
            match uuid_parse_str(path) {
                None => (docs, invalid_id_reply()),
                Some(id) => if holds_id(docs, hyphenated(id)) {
                    let at = first_where(docs, with_id(Some(hyphenated(id))));
                    (
                        docs.update(at, patched(docs[at], patch)),
                        HttpReplyView::single(patched(docs[at], patch)),
                    )
                } else {
                    (docs, HttpReplyView::fail(StatusCode::NotFound, id_missing_message(path)))
                },
            }
        },
{
    if patch.valid() {
        if let Some(id) = uuid_parse_str(path) {
            lemma_holds_id(docs, hyphenated(id));
            let at = first_where(docs, with_id(Some(hyphenated(id))));
            if at < docs.len() {
                lemma_changes_apply_patch(docs[at], patch);
            }
            lemma_run_ask(
                docs,
                StoreCommandView::FindOneByIdAndUpdate {
                    id: hyphenated(id),
                    update: changes_of(patch),
                },
                PendingView::Edit { id: path },
                lots,
                1,
            );
        }
    }
}

/// An entry that is created carries an identifier of 36 characters, it is
/// the entry that the answer shows and that the store gains, and no other
/// entry of the store has its identifier.
pub proof fn law_created_entry_has_its_own_id(docs: Seq<MediaView>, body: MediaView, lots: Seq<Lots>)
    requires
        distinct_ids(docs),
        outcome(docs, RequestView::Create { body }, lots).1.status == StatusCode::Success,
    ensures
        ({
            let (after, reply) = outcome(docs, RequestView::Create { body }, lots);
            let media = with_minted_id(body, lots_at(lots, 0).id);
            &&& reply == HttpReplyView::single(media)
            &&& media.id matches Some(id) && id.len() == 36
            &&& after == docs.push(media)
            &&& forall|at: int| 0 <= at < docs.len() ==> (#[trigger] docs[at]).id != media.id
            &&& distinct_ids(after)
        }),
{
    law_creation_outcome(docs, body, lots);
    law_ids_stay_distinct(docs, RequestView::Create { body }, lots);
}

/// An entry that is created is found afterwards by a lookup with any path
/// that holds its identifier.
pub proof fn law_created_entry_is_found_by_its_id(
    docs: Seq<MediaView>,
    body: MediaView,
    lots: Seq<Lots>,
    path: Seq<char>,
    later_lots: Seq<Lots>,
)
    requires
        outcome(docs, RequestView::Create { body }, lots).1.status == StatusCode::Success,
        uuid_parse_str(path) == Some(lots_at(lots, 0).id),
    ensures
        ({
            let after = outcome(docs, RequestView::Create { body }, lots).0;
            let media = with_minted_id(body, lots_at(lots, 0).id);
            outcome(after, RequestView::Get { path }, later_lots) == (
                after,
                HttpReplyView::media(media),
            )
        }),
{
    let media = with_minted_id(body, lots_at(lots, 0).id);
    let after = docs.push(media);
    law_creation_outcome(docs, body, lots);
    law_lookup_outcome(after, path, later_lots);
    assert forall|before: int| 0 <= before < docs.len() implies !with_id(media.id)(
        #[trigger] after[before],
    ) by {
        assert(after[before] == docs[before]);
    }
    lemma_first_where(after, with_id(media.id), docs.len() as int);
}

/// No two entries share a title.
pub open spec fn distinct_titles(docs: Seq<MediaView>) -> bool {
    forall|i: int, j: int|
        0 <= i < j < docs.len() ==> (#[trigger] docs[i]).title != (#[trigger] docs[j]).title
}

/// Titles are unique at creation: where no two entries of the store share
/// a title, none do after a creation.
pub proof fn law_creation_keeps_titles_distinct(
    docs: Seq<MediaView>,
    body: MediaView,
    lots: Seq<Lots>,
)
    requires
        distinct_titles(docs),
    ensures
        distinct_titles(outcome(docs, RequestView::Create { body }, lots).0),
{
    law_creation_outcome(docs, body, lots);
}

/// The check of the title and the adding of the entry are two commands,
/// and another walk may step in between them: where two creations with
/// one title both look the title up before either adds its entry, both
/// find it free, both entries are added, and both answers report success.
pub proof fn law_interleaved_creations_can_share_a_title(
    docs: Seq<MediaView>,
    first: MediaView,
    second: MediaView,
    first_id: u128,
    second_id: u128,
    lots: Lots,
)
    requires
        first.rating.in_scale(),
        second.rating.in_scale(),
        first.title == second.title,
        !holds_title(docs, first.title),
        !holds_id(docs, hyphenated(first_id)),
        !holds_id(docs, hyphenated(second_id)),
        hyphenated(first_id) != hyphenated(second_id),
    ensures
        ({
            let one = with_minted_id(first, first_id);
            let two = with_minted_id(second, second_id);
            let looked = StoreAnswerView::Document(None);
            let lookup = StoreCommandView::FindOneByTitle { title: first.title };
            let insert_one = StoreCommandView::InsertOne { media: one };
            let insert_two = StoreCommandView::InsertOne { media: two };
            &&& create_begin(first, first_id) == StepView::Ask {
                command: lookup,
                pending: PendingView::CreateLookup { media: one },
            }
            &&& create_begin(second, second_id) == StepView::Ask {
                command: lookup,
                pending: PendingView::CreateLookup { media: two },
            }
            &&& execute_spec(docs, lookup) == (docs, looked)
            &&& resume_spec(PendingView::CreateLookup { media: one }, looked, lots)
                == StepView::Ask {
                command: insert_one,
                pending: PendingView::CreateInsert { media: one },
            }
            &&& resume_spec(PendingView::CreateLookup { media: two }, looked, lots)
                == StepView::Ask {
                command: insert_two,
                pending: PendingView::CreateInsert { media: two },
            }
            &&& execute_spec(docs, insert_one) == (docs.push(one), StoreAnswerView::Inserted)
            &&& execute_spec(docs.push(one), insert_two) == (
                docs.push(one).push(two),
                StoreAnswerView::Inserted,
            )
            &&& resume_spec(
                PendingView::CreateInsert { media: one },
                StoreAnswerView::Inserted,
                lots,
            ) == StepView::Reply(HttpReplyView::single(one))
            &&& resume_spec(
                PendingView::CreateInsert { media: two },
                StoreAnswerView::Inserted,
                lots,
            ) == StepView::Reply(HttpReplyView::single(two))
            &&& !distinct_titles(docs.push(one).push(two))
        }),
{
    let one = with_minted_id(first, first_id);
    let two = with_minted_id(second, second_id);
    let after = docs.push(one);
    lemma_lookup(docs, with_title(first.title));
    if lookup(docs, with_title(first.title)) is Some {
        let at = first_where(docs, with_title(first.title));
        assert(with_title(first.title)(docs[at]));
        assert(docs[at].title == first.title);
    }
    lemma_holds_id(docs, hyphenated(first_id));
    assert forall|at: int| 0 <= at < after.len() implies (#[trigger] after[at]).id != Some(
        hyphenated(second_id),
    ) by {
        if at < docs.len() {
            assert(after[at] == docs[at]);
        }
    }
    lemma_holds_id(after, hyphenated(second_id));
    let both = after.push(two);
    assert(both[docs.len() as int].title == both[docs.len() + 1 as int].title);
}

/// A creation whose rating lies outside the range from 0 to 5 is refused
/// as a client error, and the store stays as it was.
pub proof fn law_invalid_rating_is_refused_before_any_write(
    docs: Seq<MediaView>,
    body: MediaView,
    lots: Seq<Lots>,
)
    requires
        !body.rating.in_scale(),
    ensures
        outcome(docs, RequestView::Create { body }, lots) == (
            docs,
            invalid_payload_reply(ValidationError::RatingOutOfRange),
        ),
        invalid_payload_reply(ValidationError::RatingOutOfRange).status == StatusCode::BadRequest,
{
    law_creation_outcome(docs, body, lots);
}

/// A creation with the title of an entry that the store holds fails with
/// a conflict, and the store stays as it was.
pub proof fn law_taken_title_is_a_conflict(docs: Seq<MediaView>, body: MediaView, lots: Seq<Lots>)
    requires
        body.rating.in_scale(),
        holds_title(docs, body.title),
    ensures
        outcome(docs, RequestView::Create { body }, lots) == (
            docs,
            HttpReplyView::fail(StatusCode::Conflict, title_taken_message(body.title)),
        ),
{
    law_creation_outcome(docs, body, lots);
}

/// A listing of an empty store fails as not found; it is no success with
/// an empty list.
pub proof fn law_empty_listing_is_not_found(limit: i64, lots: Seq<Lots>)
    ensures
        outcome(Seq::empty(), RequestView::List { limit }, lots) == (
            Seq::<MediaView>::empty(),
            HttpReplyView::fail(StatusCode::NotFound, "No media found"@),
        ),
{
    law_listing_outcome(Seq::empty(), limit, lots);
}

/// A listing with a positive limit below the number of entries answers
/// with the first entries of the store, as many as the limit says, and
/// counts them.
pub proof fn law_listing_stops_at_the_limit(docs: Seq<MediaView>, limit: i64, lots: Seq<Lots>)
    requires
        1 <= limit < docs.len(),
    ensures
        outcome(docs, RequestView::List { limit }, lots) == (
            docs,
            HttpReplyView::list(docs.take(limit as int)),
        ),
        docs.take(limit as int).len() == limit,
        HttpReplyView::list(docs.take(limit as int)).body matches BodyView::List(envelope)
            && envelope.results == limit,
{
    law_listing_outcome(docs, limit, lots);
}

/// An update that holds a rating and nothing else leaves the title, the
/// description, the genres, the status, the kind and the identifier of the
/// entry as they were; the answer shows the entry with the new rating, and
/// the store holds it in the place of the old one.
pub proof fn law_rating_update_leaves_the_rest(
    docs: Seq<MediaView>,
    path: Seq<char>,
    rating: Rating,
    lots: Seq<Lots>,
)
    requires
        rating.in_scale(),
        uuid_parse_str(path) matches Some(id) && holds_id(docs, hyphenated(id)),
    ensures
        ({
            let patch = UpdateMediaSchemaView {
                title: None,
                description: None,
                genres: None,
                rating: Some(rating),
                status: None,
            };
            let id = hyphenated(uuid_parse_str(path).unwrap());
            let at = first_where(docs, with_id(Some(id)));
            &&& 0 <= at < docs.len()
            &&& docs[at].id == Some(id)
            &&& outcome(docs, RequestView::Edit { path, patch }, lots) == (
                docs.update(at, MediaView { rating, ..docs[at] }),
                HttpReplyView::single(MediaView { rating, ..docs[at] }),
            )
        }),
{
    let patch = UpdateMediaSchemaView {
        title: None,
        description: None,
        genres: None,
        rating: Some(rating),
        status: None,
    };
    law_update_outcome(docs, path, patch, lots);
    lemma_holds_id(docs, hyphenated(uuid_parse_str(path).unwrap()));
}

/// A removal by an identifier that no entry has fails as not found, and
/// the store stays as it was.
pub proof fn law_removal_of_nothing_is_not_found(
    docs: Seq<MediaView>,
    path: Seq<char>,
    lots: Seq<Lots>,
)
    requires
        uuid_parse_str(path) matches Some(id) && !holds_id(docs, hyphenated(id)),
    ensures
        outcome(docs, RequestView::Delete { path }, lots) == (
            docs,
            HttpReplyView::fail(StatusCode::NotFound, id_missing_message(path)),
        ),
{
    law_removal_outcome(docs, path, lots);
}

/// A removal of an entry that the store holds succeeds and takes the entry
/// out, so that a lookup by the same identifier afterwards finds nothing.
pub proof fn law_removed_entry_is_gone(
    docs: Seq<MediaView>,
    path: Seq<char>,
    lots: Seq<Lots>,
    later_lots: Seq<Lots>,
)
    requires
        distinct_ids(docs),
        uuid_parse_str(path) matches Some(id) && holds_id(docs, hyphenated(id)),
    ensures
        ({
            let id = hyphenated(uuid_parse_str(path).unwrap());
            let (after, reply) = outcome(docs, RequestView::Delete { path }, lots);
            &&& reply == HttpReplyView::success(id_deleted_message(path))
            &&& after == docs.remove(first_where(docs, with_id(Some(id))))
            &&& !holds_id(after, id)
            &&& outcome(after, RequestView::Get { path }, later_lots) == (
                after,
                HttpReplyView::text(StatusCode::NotFound, "Media not found"@),
            )
        }),
{
    let id = hyphenated(uuid_parse_str(path).unwrap());
    let at = first_where(docs, with_id(Some(id)));
    let after = docs.remove(at);
    law_removal_outcome(docs, path, lots);
    lemma_holds_id(docs, id);
    assert forall|other: int| 0 <= other < after.len() implies (#[trigger] after[other]).id
        != Some(id) by {
        if other < at {
            assert(after[other] == docs[other]);
        } else {
            assert(after[other] == docs[other + 1]);
        }
    }
    lemma_holds_id(after, id);
    law_lookup_outcome(after, path, later_lots);
}

/// A path that holds no identifier gets a client error from a lookup, a
/// removal and an update, never a server error, and the store stays as it
/// was.
pub proof fn law_malformed_id_is_a_client_error(
    docs: Seq<MediaView>,
    path: Seq<char>,
    patch: UpdateMediaSchemaView,
    lots: Seq<Lots>,
)
    requires
        uuid_parse_str(path) is None,
    ensures
        outcome(docs, RequestView::Get { path }, lots) == (docs, invalid_id_reply()),
        outcome(docs, RequestView::Delete { path }, lots) == (docs, invalid_id_reply()),
        outcome(docs, RequestView::Edit { path, patch }, lots).0 == docs,
        outcome(docs, RequestView::Edit { path, patch }, lots).1.status == StatusCode::BadRequest,
        invalid_id_reply().status == StatusCode::BadRequest,
{
    law_lookup_outcome(docs, path, lots);
    law_removal_outcome(docs, path, lots);
    law_update_outcome(docs, path, patch, lots);
}

/// The entries that a generation makes: one for each rating, each from the
/// lots of its turn.
pub open spec fn generated(ratings: Seq<Rating>, lots: Seq<Lots>) -> Seq<MediaView> {
    Seq::new(ratings.len(), |i: int| random_media_spec(lots_at(lots, i as nat), ratings[i]))
}

/// From the entry at `from` on, no made entry has the identifier of an
/// entry of the store or of an entry made before it.
pub open spec fn fresh_from(docs: Seq<MediaView>, made: Seq<MediaView>, from: int) -> bool {
    forall|i: int, j: int|
        from <= i < made.len() && 0 <= j < docs.len() + i ==> (#[trigger] (docs + made)[j]).id != (
        #[trigger] made[i]).id
}

/// A generation that has made the first `count` of its entries goes on to
/// make the others; it fails at the first whose identifier is taken.
proof fn lemma_generation_from(
    docs: Seq<MediaView>,
    ratings: Seq<Rating>,
    lots: Seq<Lots>,
    count: nat,
)
    requires
        count <= ratings.len(),
    ensures
        ({
            let made = generated(ratings, lots);
            let end = run(
                docs + made.take(count as int),
                generate_next(ratings, made.take(count as int), lots_at(lots, count)),
                lots,
                count + 1,
            );
            &&& fresh_from(docs, made, count as int) ==> end == (docs + made, HttpReplyView::list(made))
            &&& !fresh_from(docs, made, count as int) ==> end.1 == server_error_reply(
                "Error inserting media"@,
            )
        }),
    decreases ratings.len() - count,
{
    let made = generated(ratings, lots);
    let done = made.take(count as int);
    let held = docs + done;
    if count == ratings.len() {
        assert(done =~= made);
        lemma_run_reply(held, HttpReplyView::list(made), lots, count + 1);
    } else {
        let media = made[count as int];
        let wanted = with_id(media.id);
        let command = StoreCommandView::InsertOne { media };
        let pending = PendingView::Generate { ratings, made: done, media };
        lemma_run_ask(held, command, pending, lots, count + 1);
        lemma_lookup(held, wanted);
        let at = first_where(held, wanted);
        if at < held.len() {
            assert(wanted(held[at]));
            assert(held[at] == (docs + made)[at]);
            assert(!fresh_from(docs, made, count as int));
            lemma_run_reply(held, server_error_reply("Error inserting media"@), lots, count + 2);
        } else {
            assert(held.push(media) =~= docs + made.take(count + 1 as int));
            assert(done.push(media) =~= made.take(count + 1 as int));
            lemma_generation_from(docs, ratings, lots, count + 1);
            if fresh_from(docs, made, count + 1 as int) {
                assert forall|i: int, j: int|
                    count <= i < made.len() && 0 <= j < docs.len() + i implies (#[trigger] (docs
                        + made)[j]).id != (#[trigger] made[i]).id by {
                    if i == count {
                        assert(held[j] == (docs + made)[j]);
                        assert(!wanted(held[j]));
                    }
                }
            }
        }
    }
}

/// A generation succeeds exactly where every rating is at least 0 and
/// less than 5 and no identifier that it draws is taken. It then makes one
/// entry for each rating, adds them to the store in their order and
/// answers with all of them; each has its rating, is planned to be
/// watched, and is a film or a series.
pub proof fn law_generation_makes_one_entry_for_each_rating(
    docs: Seq<MediaView>,
    ratings: Seq<Rating>,
    lots: Seq<Lots>,
)
    ensures
        ({
            let made = generated(ratings, lots);
            let (after, reply) = outcome(docs, RequestView::Generate { ratings }, lots);
            &&& reply.status == StatusCode::Success <==> all_below_top(ratings) && fresh_from(
                docs,
                made,
                0,
            )
            &&& reply.status == StatusCode::Success ==> {
                &&& reply == HttpReplyView::list(made)
                &&& after == docs + made
                &&& made.len() == ratings.len()
                &&& forall|i: int|
                    0 <= i < made.len() ==> {
                        &&& (#[trigger] made[i]).rating == ratings[i]
                        &&& made[i].rating.below_top()
                        &&& made[i].status == MediaStatus::PlanToWatch
                        &&& (made[i].media_type == MediaType::Movie || made[i].media_type
                            == MediaType::Show)
                    }
            }
        }),
{
    let made = generated(ratings, lots);
    if all_below_top(ratings) {
        assert(docs + made.take(0) =~= docs);
        assert(made.take(0) =~= Seq::<MediaView>::empty());
        lemma_generation_from(docs, ratings, lots, 0);
    } else {
        lemma_run_reply(docs, server_error_reply("Error drawing ratings"@), lots, 1);
    }
}

/// The assignments of an update leave the identifier of the entry alone.
pub proof fn lemma_changes_keep_id(media: MediaView, changes: Seq<FieldChangeView>)
    ensures
        apply_changes(media, changes) matches Some(changed) ==> changed.id == media.id,
    decreases changes.len(),
{
    if changes.len() > 0 {
        lemma_changes_keep_id(media, changes.drop_last());
    }
}

/// No command gives two entries of the store the same identifier.
pub proof fn lemma_execute_keeps_ids_distinct(docs: Seq<MediaView>, command: StoreCommandView)
    requires
        distinct_ids(docs),
    ensures
        distinct_ids(execute_spec(docs, command).0),
{
    let after = execute_spec(docs, command).0;
    match command {
        StoreCommandView::InsertOne { media } => {
            lemma_lookup(docs, with_id(media.id));
            if first_where(docs, with_id(media.id)) >= docs.len() {
                assert forall|i: int, j: int| 0 <= i < j < after.len() implies (
                #[trigger] after[i]).id != (#[trigger] after[j]).id by {
                    if j == docs.len() {
                        assert(after[i] == docs[i]);
                        assert(!with_id(media.id)(docs[i]));
                    } else {
                        assert(after[i] == docs[i] && after[j] == docs[j]);
                    }
                }
            }
        },
        StoreCommandView::DeleteOneById { id } => {
            lemma_lookup(docs, with_id(Some(id)));
            let at = first_where(docs, with_id(Some(id)));
            if at < docs.len() {
                assert forall|i: int, j: int| 0 <= i < j < after.len() implies (
                #[trigger] after[i]).id != (#[trigger] after[j]).id by {
                    let before_i = if i < at { i } else { i + 1 };
                    let before_j = if j < at { j } else { j + 1 };
                    assert(after[i] == docs[before_i] && after[j] == docs[before_j]);
                }
            }
        },
        StoreCommandView::FindOneByIdAndUpdate { id, update } => {
            lemma_lookup(docs, with_id(Some(id)));
            let at = first_where(docs, with_id(Some(id)));
            if at < docs.len() {
                lemma_changes_keep_id(docs[at], update);
                if let Some(changed) = apply_changes(docs[at], update) {
                    assert forall|i: int, j: int| 0 <= i < j < after.len() implies (
                    #[trigger] after[i]).id != (#[trigger] after[j]).id by {
                        assert(after[i].id == docs[i].id && after[j].id == docs[j].id);
                    }
                }
            }
        },
        _ => {},
    }
}

/// No walk gives two entries of the store the same identifier.
proof fn lemma_run_keeps_ids_distinct(
    docs: Seq<MediaView>,
    step: StepView,
    lots: Seq<Lots>,
    turn: nat,
)
    requires
        distinct_ids(docs),
    ensures
        distinct_ids(run(docs, step, lots, turn).0),
    decreases step.rank(),
{
    match step {
        StepView::Reply(_) => {},
        StepView::Ask { command, pending } => {
            lemma_execute_keeps_ids_distinct(docs, command);
            let (after, answer) = execute_spec(docs, command);
            lemma_resume_lowers_rank(pending, answer, lots_at(lots, turn));
            lemma_run_keeps_ids_distinct(
                after,
                resume_spec(pending, answer, lots_at(lots, turn)),
                lots,
                turn + 1,
            );
        },
    }
}

/// Identifiers are unique: where no two entries of the store share one,
/// none do after any request.
pub proof fn law_ids_stay_distinct(docs: Seq<MediaView>, request: RequestView, lots: Seq<Lots>)
    requires
        distinct_ids(docs),
    ensures
        distinct_ids(outcome(docs, request, lots).0),
{
    lemma_run_keeps_ids_distinct(docs, begin_spec(request, lots_at(lots, 0)), lots, 1);
}

/// Every entry has a rating between 0 and 5.
pub open spec fn all_in_scale(docs: Seq<MediaView>) -> bool {
    forall|at: int| 0 <= at < docs.len() ==> (#[trigger] docs[at]).valid()
}

/// A command writes no rating outside the range from 0 to 5.
pub open spec fn command_in_scale(command: StoreCommandView) -> bool {
    match command {
        StoreCommandView::InsertOne { media } => media.valid(),
        StoreCommandView::FindOneByIdAndUpdate { update, .. } => forall|at: int|
            0 <= at < update.len() ==> (#[trigger] update[at] matches FieldChangeView::Rating(
                rating,
            ) ==> rating.in_scale()),
        _ => true,
    }
}

/// A walk writes no rating outside the range from 0 to 5, now or later.
pub open spec fn step_in_scale(step: StepView) -> bool {
    match step {
        StepView::Reply(_) => true,
        StepView::Ask { command, pending } => command_in_scale(command) && match pending {
            PendingView::CreateLookup { media } => media.valid(),
            PendingView::Generate { ratings, .. } => all_below_top(ratings),
            _ => true,
        },
    }
}

/// Assignments that hold no rating outside the range leave an entry with
/// a rating inside it.
proof fn lemma_changes_keep_scale(media: MediaView, changes: Seq<FieldChangeView>)
    requires
        media.valid(),
        forall|at: int|
            0 <= at < changes.len() ==> (#[trigger] changes[at] matches FieldChangeView::Rating(
                rating,
            ) ==> rating.in_scale()),
    ensures
        apply_changes(media, changes) matches Some(changed) ==> changed.valid(),
    decreases changes.len(),
{
    if changes.len() > 0 {
        let shorter = changes.drop_last();
        assert forall|at: int| 0 <= at < shorter.len() implies (#[trigger] shorter[at]
            matches FieldChangeView::Rating(rating) ==> rating.in_scale()) by {
            assert(shorter[at] == changes[at]);
        }
        lemma_changes_keep_scale(media, shorter);
        assert(changes.last() == changes[changes.len() - 1]);
    }
}

/// No walk of the service stores a rating outside the range.
proof fn lemma_run_keeps_scale(docs: Seq<MediaView>, step: StepView, lots: Seq<Lots>, turn: nat)
    requires
        all_in_scale(docs),
        step_in_scale(step),
    ensures
        all_in_scale(run(docs, step, lots, turn).0),
    decreases step.rank(),
{
    match step {
        StepView::Reply(_) => {},
        StepView::Ask { command, pending } => {
            let (after, answer) = execute_spec(docs, command);
            let next = resume_spec(pending, answer, lots_at(lots, turn));
            lemma_resume_lowers_rank(pending, answer, lots_at(lots, turn));
            match command {
                StoreCommandView::DeleteOneById { id } => {
                    let at = first_where(docs, with_id(Some(id)));
                    lemma_lookup(docs, with_id(Some(id)));
                    assert forall|i: int| 0 <= i < after.len() implies (#[trigger] after[i]).valid(
                    ) by {
                        if at < docs.len() {
                            let before = if i < at { i } else { i + 1 };
                            assert(after[i] == docs[before]);
                        }
                    }
                },
                StoreCommandView::FindOneByIdAndUpdate { id, update } => {
                    let at = first_where(docs, with_id(Some(id)));
                    lemma_lookup(docs, with_id(Some(id)));
                    if at < docs.len() {
                        lemma_changes_keep_scale(docs[at], update);
                    }
                },
                _ => {},
            }
            assert(all_in_scale(after));
            assert(step_in_scale(next)) by {
                if let PendingView::Generate { ratings, made, media } = pending {
                    if made.len() + 1 < ratings.len() {
                        assert(ratings[made.len() + 1 as int].below_top());
                    }
                }
            }
            lemma_run_keeps_scale(after, next, lots, turn + 1);
        },
    }
}

/// Ratings stay in range: where every entry of the store has a rating
/// between 0 and 5, every entry has one after any request.
pub proof fn law_stored_ratings_stay_in_scale(
    docs: Seq<MediaView>,
    request: RequestView,
    lots: Seq<Lots>,
)
    requires
        all_in_scale(docs),
    ensures
        all_in_scale(outcome(docs, request, lots).0),
{
    let step = begin_spec(request, lots_at(lots, 0));
    assert(step_in_scale(step)) by {
        match request {
            RequestView::Edit { path, patch } => {
                let update = changes_of(patch);
                if patch.valid() {
                    assert forall|at: int| 0 <= at < update.len() implies (#[trigger] update[at]
                        matches FieldChangeView::Rating(rating) ==> rating.in_scale()) by {
                        lemma_changes_ratings(patch, at);
                    }
                }
            },
            RequestView::Generate { ratings } => {
                if all_below_top(ratings) && ratings.len() > 0 {
                    assert(ratings[0].below_top());
                }
            },
            _ => {},
        }
    }
    lemma_run_keeps_scale(docs, step, lots, 1);
}

/// The only rating among the assignments of a partial change is the one
/// that the change holds.
proof fn lemma_changes_ratings(patch: UpdateMediaSchemaView, at: int)
    requires
        0 <= at < changes_of(patch).len(),
    ensures
        changes_of(patch)[at] matches FieldChangeView::Rating(rating) ==> patch.rating == Some(
            rating,
        ),
{
    let title: Seq<FieldChangeView> = match patch.title {
        Some(title) => seq![FieldChangeView::Title(title)],
        None => seq![],
    };
    let description: Seq<FieldChangeView> = match patch.description {
        Some(description) => seq![FieldChangeView::Description(description)],
        None => seq![],
    };
    let genres: Seq<FieldChangeView> = match patch.genres {
        Some(genres) => seq![FieldChangeView::Genres(genres)],
        None => seq![],
    };
    let rating: Seq<FieldChangeView> = match patch.rating {
        Some(rating) => seq![FieldChangeView::Rating(rating)],
        None => seq![],
    };
    let status: Seq<FieldChangeView> = match patch.status {
        Some(status) => seq![FieldChangeView::Status(status.label())],
        None => seq![],
    };
    assert(changes_of(patch) == title + description + genres + rating + status);
}

/// No walk ends in a list with a count that differs from its length.
proof fn lemma_run_counts(docs: Seq<MediaView>, step: StepView, lots: Seq<Lots>, turn: nat)
    requires
        step matches StepView::Reply(reply) ==> reply.counted(),
    ensures
        run(docs, step, lots, turn).1.counted(),
    decreases step.rank(),
{
    match step {
        StepView::Reply(_) => {},
        StepView::Ask { command, pending } => {
            let (after, answer) = execute_spec(docs, command);
            lemma_resume_lowers_rank(pending, answer, lots_at(lots, turn));
            lemma_run_counts(
                after,
                resume_spec(pending, answer, lots_at(lots, turn)),
                lots,
                turn + 1,
            );
        },
    }
}

/// The count of a list is never computed apart from the list: whatever
/// the request, an answer that carries a list counts exactly its entries.
pub proof fn law_lists_are_counted(docs: Seq<MediaView>, request: RequestView, lots: Seq<Lots>)
    ensures
        outcome(docs, request, lots).1.counted(),
{
    lemma_run_counts(docs, begin_spec(request, lots_at(lots, 0)), lots, 1);
}

} // verus!
