use media_api::handler::{
    create_media_checked, create_media_handler, create_media_reply, create_media_with,
    delete_media_by, delete_media_handler, delete_media_reply, edit_media_by, edit_media_handler,
    edit_media_reply, generate_media_inserted, generate_media_next, generate_media_with,
    generate_random_media, get_media_by, get_media_by_id, get_media_reply, health_reply,
    media_list_handler, media_list_reply, resume, resume_with, uptime_or_zero, Pending, Step,
};
use media_api::model::{Media, MediaStatus, MediaType, QueryOptions, UpdateMediaSchema};
use media_api::random::{Genre, Lots};
use media_api::rating::Rating;
use media_api::response::{Body, HttpReply, StatusCode};
use media_api::store::{FieldChange, StoreAnswer, StoreCommand};

const ID: &str = "550e8400-e29b-41d4-a716-446655440000";
const ID_VALUE: u128 = 0x550e8400_e29b_41d4_a716_446655440000;

fn rating(value: f64) -> Rating {
    Rating::from_bits(value.to_bits())
}

fn media(title: &str, value: f64) -> Media {
    Media {
        id: None,
        title: String::from(title),
        description: String::from("text"),
        genres: vec![String::from("Drama")],
        rating: rating(value),
        status: MediaStatus::Watching,
        media_type: MediaType::Show,
    }
}

fn lots(id: u128) -> Lots {
    Lots {
        id,
        title_number: 17,
        description_number: 4000000000,
        genres: (Genre::SciFi, Genre::Action, Genre::SciFi),
        movie: true,
    }
}

fn empty_patch() -> UpdateMediaSchema {
    UpdateMediaSchema { title: None, description: None, genres: None, rating: None, status: None }
}

fn reply_of(step: Step) -> HttpReply {
    match step {
        Step::Reply(reply) => reply,
        other => panic!("expected a reply, got {:?}", other),
    }
}

fn ask_of(step: Step) -> (StoreCommand, Pending) {
    match step {
        Step::Ask { command, pending } => (command, pending),
        other => panic!("expected a command, got {:?}", other),
    }
}

fn text_of(reply: &HttpReply) -> &str {
    match &reply.body {
        Body::Text(text) => text,
        other => panic!("expected a text, got {:?}", other),
    }
}

fn envelope_of(reply: &HttpReply) -> (&str, &str) {
    match &reply.body {
        Body::Generic(envelope) => (&envelope.status, &envelope.message),
        other => panic!("expected an envelope, got {:?}", other),
    }
}

#[test]
fn health_reply_reports_uptime() {
    let reply = health_reply(42);
    assert_eq!(reply.status, StatusCode::Success);
    assert_eq!(envelope_of(&reply), ("success", "Server is running (Uptime: 42 seconds)"));
    let reply = health_reply(0);
    assert_eq!(envelope_of(&reply), ("success", "Server is running (Uptime: 0 seconds)"));
}

#[test]
fn uptime_is_zero_when_the_clock_gives_none() {
    assert_eq!(uptime_or_zero(None), 0);
    assert_eq!(uptime_or_zero(Some(0)), 0);
    assert_eq!(uptime_or_zero(Some(86400)), 86400);
}

#[test]
fn list_asks_for_the_limit() {
    let opts = QueryOptions { page: None, limit: Some(3), sort: None, order: None };
    let (command, pending) = ask_of(media_list_handler(&opts));
    assert!(matches!(command, StoreCommand::Find { limit: 3 }));
    assert!(matches!(pending, Pending::List));
}

#[test]
fn list_asks_for_ten_by_default() {
    let opts = QueryOptions { page: Some(2), limit: None, sort: None, order: Some(1) };
    let (command, _) = ask_of(media_list_handler(&opts));
    assert!(matches!(command, StoreCommand::Find { limit: 10 }));
}

#[test]
fn list_of_nothing_is_not_found() {
    let reply = media_list_reply(StoreAnswer::Documents(Vec::new()));
    assert_eq!(reply.status, StatusCode::NotFound);
    assert_eq!(envelope_of(&reply), ("fail", "No media found"));
}

#[test]
fn list_wraps_what_was_found() {
    let reply = media_list_reply(StoreAnswer::Documents(vec![media("a", 1.0), media("b", 2.0)]));
    assert_eq!(reply.status, StatusCode::Success);
    match reply.body {
        Body::List(envelope) => {
            assert_eq!(envelope.status, "success");
            assert_eq!(envelope.results, 2);
            assert_eq!(envelope.media[0].title, "a");
            assert_eq!(envelope.media[1].title, "b");
        }
        other => panic!("unexpected body {:?}", other),
    }
}

#[test]
fn list_fails_when_the_store_fails() {
    let reply = media_list_reply(StoreAnswer::Failed);
    assert_eq!(reply.status, StatusCode::InternalServerError);
    assert_eq!(text_of(&reply), "Error fetching media");
    let reply = media_list_reply(StoreAnswer::Inserted);
    assert_eq!(reply.status, StatusCode::InternalServerError);
}

#[test]
fn get_refuses_a_malformed_id() {
    for path in ["", "abc", "not-a-uuid", "550e8400-e29b-41d4-a716-44665544000", "123"] {
        let reply = reply_of(get_media_by_id(path));
        assert_eq!(reply.status, StatusCode::BadRequest, "{}", path);
        assert_eq!(text_of(&reply), "Invalid media ID");
    }
    let reply = reply_of(get_media_by(None));
    assert_eq!(reply.status, StatusCode::BadRequest);
}

#[test]
fn get_asks_by_the_canonical_id() {
    for path in [
        ID,
        "550E8400-E29B-41D4-A716-446655440000",
        "550e8400e29b41d4a716446655440000",
        "{550e8400-e29b-41d4-a716-446655440000}",
        "urn:uuid:550e8400-e29b-41d4-a716-446655440000",
    ] {
        let (command, pending) = ask_of(get_media_by_id(path));
        assert!(matches!(command, StoreCommand::FindOneById { id } if id == ID), "{}", path);
        assert!(matches!(pending, Pending::Get));
    }
}

#[test]
fn get_by_value_writes_the_hyphenated_text() {
    let (command, _) = ask_of(get_media_by(Some(ID_VALUE)));
    assert!(matches!(command, StoreCommand::FindOneById { id } if id == ID));
    let (command, _) = ask_of(get_media_by(Some(0)));
    assert!(matches!(command, StoreCommand::FindOneById { id }
        if id == "00000000-0000-0000-0000-000000000000"));
    let (command, _) = ask_of(get_media_by(Some(u128::MAX)));
    assert!(matches!(command, StoreCommand::FindOneById { id }
        if id == "ffffffff-ffff-ffff-ffff-ffffffffffff"));
    let (command, _) = ask_of(get_media_by(Some(0x0123456789abcdef_fedcba9876543210)));
    assert!(matches!(command, StoreCommand::FindOneById { id }
        if id == "01234567-89ab-cdef-fedc-ba9876543210"));
}

#[test]
fn get_reply_is_the_bare_entry() {
    let reply = get_media_reply(StoreAnswer::Document(Some(media("found", 2.0))));
    assert_eq!(reply.status, StatusCode::Success);
    assert!(matches!(&reply.body, Body::Media(found) if found.title == "found"));
}

#[test]
fn get_reply_of_nothing_is_not_found() {
    let reply = get_media_reply(StoreAnswer::Document(None));
    assert_eq!(reply.status, StatusCode::NotFound);
    assert_eq!(text_of(&reply), "Media not found");
}

#[test]
fn get_reply_of_a_store_failure_is_a_server_error() {
    let reply = get_media_reply(StoreAnswer::Failed);
    assert_eq!(reply.status, StatusCode::InternalServerError);
    assert_eq!(text_of(&reply), "Error fetching media");
}

#[test]
fn create_refuses_a_rating_out_of_range() {
    for value in [5.5, -0.5, 1000.0, f64::NAN] {
        let reply = reply_of(create_media_with(media("bad", value), ID_VALUE));
        assert_eq!(reply.status, StatusCode::BadRequest);
        assert_eq!(envelope_of(&reply), ("fail", "rating must be between 0 and 5"));
    }
    let reply = reply_of(create_media_handler(media("bad", 9.0)));
    assert_eq!(reply.status, StatusCode::BadRequest);
}

#[test]
fn create_looks_the_title_up_first() {
    let mut body = media("Dune", 4.5);
    body.id = Some(String::from("client-supplied"));
    let (command, pending) = ask_of(create_media_with(body, ID_VALUE));
    assert!(matches!(command, StoreCommand::FindOneByTitle { title } if title == "Dune"));
    match pending {
        Pending::CreateLookup { media } => {
            assert_eq!(media.id.as_deref(), Some(ID));
            assert_eq!(media.title, "Dune");
            assert_eq!(media.description, "text");
            assert_eq!(media.genres, vec![String::from("Drama")]);
            assert_eq!(media.rating, rating(4.5));
            assert_eq!(media.status, MediaStatus::Watching);
            assert_eq!(media.media_type, MediaType::Show);
        }
        other => panic!("unexpected state {:?}", other),
    }
}

#[test]
fn create_mints_a_random_identifier() {
    let (_, first) = ask_of(create_media_handler(media("a", 1.0)));
    let (_, second) = ask_of(create_media_handler(media("a", 1.0)));
    let id_of = |pending: Pending| match pending {
        Pending::CreateLookup { media } => media.id.expect("an identifier"),
        other => panic!("unexpected state {:?}", other),
    };
    let (first, second) = (id_of(first), id_of(second));
    assert_ne!(first, second);
    for id in [first, second] {
        assert_eq!(id.len(), 36);
        assert_eq!(id.as_bytes()[14], b'4');
        assert!(b"89ab".contains(&id.as_bytes()[19]));
        let parsed = uuid::Uuid::parse_str(&id).expect("a valid identifier");
        assert_eq!(parsed.get_version_num(), 4);
        assert_eq!(parsed.to_string(), id);
    }
}

#[test]
fn create_with_a_taken_title_is_a_conflict() {
    let step = create_media_checked(
        media("Dune", 4.0),
        StoreAnswer::Document(Some(media("Dune", 1.0))),
    );
    let reply = reply_of(step);
    assert_eq!(reply.status, StatusCode::Conflict);
    assert_eq!(envelope_of(&reply), ("fail", "Media with title: 'Dune' already exists"));
}

#[test]
fn create_with_a_free_title_inserts() {
    let mut entry = media("Dune", 4.0);
    entry.id = Some(String::from(ID));
    let (command, pending) = ask_of(create_media_checked(entry, StoreAnswer::Document(None)));
    assert!(matches!(command, StoreCommand::InsertOne { media }
        if media.title == "Dune" && media.id.as_deref() == Some(ID)));
    assert!(matches!(pending, Pending::CreateInsert { media }
        if media.title == "Dune" && media.id.as_deref() == Some(ID)));
}

#[test]
fn create_fails_when_the_lookup_fails() {
    let reply = reply_of(create_media_checked(media("Dune", 4.0), StoreAnswer::Failed));
    assert_eq!(reply.status, StatusCode::InternalServerError);
    assert_eq!(text_of(&reply), "Error checking for existing media");
}

#[test]
fn create_reply_wraps_the_entry() {
    let reply = create_media_reply(media("Dune", 4.0), StoreAnswer::Inserted);
    assert_eq!(reply.status, StatusCode::Success);
    match reply.body {
        Body::Single(envelope) => {
            assert_eq!(envelope.status, "success");
            assert_eq!(envelope.data.media.title, "Dune");
        }
        other => panic!("unexpected body {:?}", other),
    }
    let reply = create_media_reply(media("Dune", 4.0), StoreAnswer::Failed);
    assert_eq!(reply.status, StatusCode::InternalServerError);
    assert_eq!(text_of(&reply), "Error inserting media");
}

#[test]
fn delete_refuses_a_malformed_id() {
    let reply = reply_of(delete_media_handler("nope"));
    assert_eq!(reply.status, StatusCode::BadRequest);
    assert_eq!(text_of(&reply), "Invalid media ID");
    let reply = reply_of(delete_media_by("nope", None));
    assert_eq!(reply.status, StatusCode::BadRequest);
}

#[test]
fn delete_asks_by_the_canonical_id_and_keeps_the_path() {
    let path = "550E8400E29B41D4A716446655440000";
    let (command, pending) = ask_of(delete_media_handler(path));
    assert!(matches!(command, StoreCommand::DeleteOneById { id } if id == ID));
    assert!(matches!(pending, Pending::Delete { id } if id == path));
    let (command, pending) = ask_of(delete_media_by("as written", Some(ID_VALUE)));
    assert!(matches!(command, StoreCommand::DeleteOneById { id } if id == ID));
    assert!(matches!(pending, Pending::Delete { id } if id == "as written"));
}

#[test]
fn delete_reply_depends_on_the_count() {
    let reply = delete_media_reply(ID, StoreAnswer::Deleted(0));
    assert_eq!(reply.status, StatusCode::NotFound);
    assert_eq!(
        envelope_of(&reply),
        ("fail", "Media with ID: 550e8400-e29b-41d4-a716-446655440000 not found")
    );
    let reply = delete_media_reply(ID, StoreAnswer::Deleted(1));
    assert_eq!(reply.status, StatusCode::Success);
    assert_eq!(
        envelope_of(&reply),
        ("success", "Media with ID: 550e8400-e29b-41d4-a716-446655440000 has been deleted")
    );
    let reply = delete_media_reply(ID, StoreAnswer::Deleted(3));
    assert_eq!(reply.status, StatusCode::Success);
    let reply = delete_media_reply(ID, StoreAnswer::Failed);
    assert_eq!(reply.status, StatusCode::InternalServerError);
    assert_eq!(text_of(&reply), "Error deleting media");
}

#[test]
fn edit_refuses_a_malformed_id() {
    let reply = reply_of(edit_media_handler("nope", &empty_patch()));
    assert_eq!(reply.status, StatusCode::BadRequest);
    assert_eq!(text_of(&reply), "Invalid media ID");
}

#[test]
fn edit_refuses_a_rating_out_of_range() {
    let mut patch = empty_patch();
    patch.rating = Some(rating(6.0));
    let reply = reply_of(edit_media_handler(ID, &patch));
    assert_eq!(reply.status, StatusCode::BadRequest);
    assert_eq!(envelope_of(&reply), ("fail", "rating must be between 0 and 5"));
    let reply = reply_of(edit_media_by(ID, None, &patch));
    assert_eq!(reply.status, StatusCode::BadRequest);
    assert_eq!(envelope_of(&reply), ("fail", "rating must be between 0 and 5"));
}

#[test]
fn edit_sets_only_the_fields_that_are_present() {
    let mut patch = empty_patch();
    patch.rating = Some(rating(2.5));
    let (command, pending) = ask_of(edit_media_handler(ID, &patch));
    match command {
        StoreCommand::FindOneByIdAndUpdate { id, update } => {
            assert_eq!(id, ID);
            assert_eq!(update.set.len(), 1);
            assert!(matches!(&update.set[0], FieldChange::Rating(r) if *r == rating(2.5)));
        }
        other => panic!("unexpected command {:?}", other),
    }
    assert!(matches!(pending, Pending::Edit { id } if id == ID));
}

#[test]
fn edit_sets_every_present_field_and_encodes_the_status() {
    let patch = UpdateMediaSchema {
        title: Some(String::from("T")),
        description: None,
        genres: Some(vec![String::from("Comedy"), String::from("Drama")]),
        rating: None,
        status: Some(MediaStatus::PlanToWatch),
    };
    let (command, _) = ask_of(edit_media_by("{raw}", Some(ID_VALUE), &patch));
    match command {
        StoreCommand::FindOneByIdAndUpdate { id, update } => {
            assert_eq!(id, ID);
            assert_eq!(update.set.len(), 3);
            assert!(matches!(&update.set[0], FieldChange::Title(t) if t == "T"));
            assert!(matches!(&update.set[1], FieldChange::Genres(g) if g.len() == 2));
            assert!(matches!(&update.set[2], FieldChange::Status(s) if s == "PlanToWatch"));
        }
        other => panic!("unexpected command {:?}", other),
    }
}

#[test]
fn edit_reply_wraps_the_changed_entry_or_reports_it_missing() {
    let reply = edit_media_reply(ID, StoreAnswer::Document(Some(media("changed", 1.0))));
    assert_eq!(reply.status, StatusCode::Success);
    assert!(matches!(&reply.body, Body::Single(envelope)
        if envelope.status == "success" && envelope.data.media.title == "changed"));
    let reply = edit_media_reply(ID, StoreAnswer::Document(None));
    assert_eq!(reply.status, StatusCode::NotFound);
    assert_eq!(
        envelope_of(&reply),
        ("fail", "Media with ID: 550e8400-e29b-41d4-a716-446655440000 not found")
    );
    let reply = edit_media_reply(ID, StoreAnswer::Failed);
    assert_eq!(reply.status, StatusCode::InternalServerError);
    assert_eq!(text_of(&reply), "Error updating media");
}

#[test]
fn generate_of_nothing_answers_with_an_empty_list() {
    let reply = reply_of(generate_random_media(Vec::new()));
    assert_eq!(reply.status, StatusCode::Success);
    assert!(matches!(&reply.body, Body::List(envelope)
        if envelope.results == 0 && envelope.media.is_empty() && envelope.status == "success"));
}

#[test]
fn generate_refuses_ratings_outside_the_drawn_range() {
    for value in [5.0, 6.0, -1.0, f64::NAN] {
        let reply = reply_of(generate_media_with(vec![rating(1.0), rating(value)], &lots(1)));
        assert_eq!(reply.status, StatusCode::InternalServerError);
        assert_eq!(text_of(&reply), "Error drawing ratings");
    }
    let reply = reply_of(generate_random_media(vec![rating(5.0)]));
    assert_eq!(reply.status, StatusCode::InternalServerError);
}

#[test]
fn generate_builds_the_first_entry_from_the_lots() {
    let (command, pending) =
        ask_of(generate_media_with(vec![rating(4.25), rating(0.5)], &lots(ID_VALUE)));
    let check = |media: &Media| {
        assert_eq!(media.id.as_deref(), Some(ID));
        assert_eq!(media.title, "Media #17");
        assert_eq!(media.description, "Random description for Media #4000000000");
        assert_eq!(media.genres, vec!["Sci-Fi", "Action", "Sci-Fi"]);
        assert_eq!(media.rating, rating(4.25));
        assert_eq!(media.status, MediaStatus::PlanToWatch);
        assert_eq!(media.media_type, MediaType::Movie);
    };
    match command {
        StoreCommand::InsertOne { media } => check(&media),
        other => panic!("unexpected command {:?}", other),
    }
    match pending {
        Pending::Generate { ratings, made, media } => {
            assert_eq!(ratings, vec![rating(4.25), rating(0.5)]);
            assert!(made.is_empty());
            check(&media);
        }
        other => panic!("unexpected state {:?}", other),
    }
}

#[test]
fn generate_goes_on_until_every_rating_has_its_entry() {
    let ratings = vec![rating(1.0), rating(2.0)];
    let first = media("first", 1.0);
    let step = generate_media_inserted(
        ratings.clone(),
        Vec::new(),
        first,
        StoreAnswer::Inserted,
        &Lots { movie: false, ..lots(7) },
    );
    let (command, pending) = ask_of(step);
    assert!(matches!(command, StoreCommand::InsertOne { media }
        if media.rating == rating(2.0) && media.media_type == MediaType::Show));
    let (made, second) = match pending {
        Pending::Generate { made, media, .. } => (made, media),
        other => panic!("unexpected state {:?}", other),
    };
    assert_eq!(made.len(), 1);
    assert_eq!(made[0].title, "first");
    let step = generate_media_inserted(ratings, made, second, StoreAnswer::Inserted, &lots(8));
    let reply = reply_of(step);
    assert_eq!(reply.status, StatusCode::Success);
    match reply.body {
        Body::List(envelope) => {
            assert_eq!(envelope.results, 2);
            assert_eq!(envelope.media[0].title, "first");
            assert_eq!(envelope.media[1].title, "Media #17");
        }
        other => panic!("unexpected body {:?}", other),
    }
}

#[test]
fn generate_next_answers_when_all_are_made() {
    let made = vec![media("a", 1.0), media("b", 2.0)];
    let reply = reply_of(generate_media_next(vec![rating(1.0), rating(2.0)], made, &lots(1)));
    assert_eq!(reply.status, StatusCode::Success);
    assert!(matches!(&reply.body, Body::List(envelope) if envelope.results == 2));
}

#[test]
fn generate_fails_when_the_store_fails() {
    let step = generate_media_inserted(
        vec![rating(1.0)],
        Vec::new(),
        media("x", 1.0),
        StoreAnswer::Failed,
        &lots(1),
    );
    let reply = reply_of(step);
    assert_eq!(reply.status, StatusCode::InternalServerError);
    assert_eq!(text_of(&reply), "Error inserting media");
}

#[test]
fn resume_with_follows_the_state() {
    let blank = Lots::blank();
    let reply = reply_of(resume_with(Pending::List, StoreAnswer::Documents(Vec::new()), &blank));
    assert_eq!(reply.status, StatusCode::NotFound);
    let reply = reply_of(resume_with(Pending::Get, StoreAnswer::Document(None), &blank));
    assert_eq!(text_of(&reply), "Media not found");
    let step = resume_with(
        Pending::CreateLookup { media: media("t", 1.0) },
        StoreAnswer::Document(None),
        &blank,
    );
    assert!(matches!(step, Step::Ask { command: StoreCommand::InsertOne { .. }, .. }));
    let reply = reply_of(resume_with(
        Pending::CreateInsert { media: media("t", 1.0) },
        StoreAnswer::Inserted,
        &blank,
    ));
    assert_eq!(reply.status, StatusCode::Success);
    let reply = reply_of(resume_with(
        Pending::Delete { id: String::from("raw") },
        StoreAnswer::Deleted(1),
        &blank,
    ));
    assert_eq!(envelope_of(&reply), ("success", "Media with ID: raw has been deleted"));
    let reply = reply_of(resume_with(
        Pending::Edit { id: String::from("raw") },
        StoreAnswer::Document(None),
        &blank,
    ));
    assert_eq!(envelope_of(&reply), ("fail", "Media with ID: raw not found"));
    let step = resume_with(
        Pending::Generate {
            ratings: vec![rating(1.0), rating(2.0)],
            made: Vec::new(),
            media: media("t", 1.0),
        },
        StoreAnswer::Inserted,
        &lots(3),
    );
    assert!(matches!(step, Step::Ask { command: StoreCommand::InsertOne { media }, .. }
        if media.title == "Media #17" && media.rating == rating(2.0)));
}

#[test]
fn resume_answers_a_mismatched_answer_with_a_server_error() {
    let reply = reply_of(resume(Pending::Get, StoreAnswer::Deleted(1)));
    assert_eq!(reply.status, StatusCode::InternalServerError);
    let reply = reply_of(resume(Pending::List, StoreAnswer::Document(None)));
    assert_eq!(reply.status, StatusCode::InternalServerError);
    let reply = reply_of(resume(
        Pending::Delete { id: String::from("raw") },
        StoreAnswer::Documents(Vec::new()),
    ));
    assert_eq!(reply.status, StatusCode::InternalServerError);
}

#[test]
fn resume_draws_lots_for_the_next_generated_entry() {
    let step = resume(
        Pending::Generate {
            ratings: vec![rating(1.0), rating(3.0)],
            made: Vec::new(),
            media: media("t", 1.0),
        },
        StoreAnswer::Inserted,
    );
    let (command, _) = ask_of(step);
    match command {
        StoreCommand::InsertOne { media } => {
            assert!(media.title.starts_with("Media #"));
            assert!(media.title["Media #".len()..].parse::<u32>().is_ok());
            assert!(media.description.starts_with("Random description for Media #"));
            assert_eq!(media.genres.len(), 3);
            assert_eq!(media.rating, rating(3.0));
            assert_eq!(media.status, MediaStatus::PlanToWatch);
            assert_eq!(media.id.expect("an identifier").len(), 36);
        }
        other => panic!("unexpected command {:?}", other),
    }
}
