use media_api::memory::MemoryStore;
use media_api::model::{Media, MediaStatus, MediaType, UpdateMediaSchema};
use media_api::rating::Rating;
use media_api::store::{FieldChange, StoreAnswer, StoreCommand, UpdateDocument};

fn rating(value: f64) -> Rating {
    Rating::from_bits(value.to_bits())
}

fn media(id: &str, title: &str) -> Media {
    Media {
        id: Some(String::from(id)),
        title: String::from(title),
        description: String::from("text"),
        genres: vec![String::from("Action"), String::from("Comedy")],
        rating: rating(3.0),
        status: MediaStatus::PlanToWatch,
        media_type: MediaType::Movie,
    }
}

fn filled(count: usize) -> MemoryStore {
    let mut store = MemoryStore::new();
    for i in 0..count {
        let answer = store.execute(StoreCommand::InsertOne {
            media: media(&format!("id-{}", i), &format!("title-{}", i)),
        });
        assert!(matches!(answer, StoreAnswer::Inserted));
    }
    store
}

fn titles(docs: &[Media]) -> Vec<String> {
    docs.iter().map(|m| m.title.clone()).collect()
}

fn find(store: &mut MemoryStore, limit: i64) -> Vec<Media> {
    match store.execute(StoreCommand::Find { limit }) {
        StoreAnswer::Documents(found) => found,
        other => panic!("unexpected answer {:?}", other),
    }
}

#[test]
fn update_document_holds_only_present_fields() {
    let patch = UpdateMediaSchema {
        title: None,
        description: Some(String::from("new text")),
        genres: None,
        rating: Some(rating(1.5)),
        status: None,
    };
    let update = UpdateDocument::from_patch(&patch);
    assert_eq!(update.set.len(), 2);
    assert!(matches!(&update.set[0], FieldChange::Description(text) if text == "new text"));
    assert!(matches!(&update.set[1], FieldChange::Rating(r) if *r == rating(1.5)));
}

#[test]
fn update_document_of_an_empty_patch_is_empty() {
    let patch = UpdateMediaSchema {
        title: None,
        description: None,
        genres: None,
        rating: None,
        status: None,
    };
    assert!(UpdateDocument::from_patch(&patch).set.is_empty());
}

#[test]
fn update_document_orders_fields_and_writes_status_as_label() {
    let patch = UpdateMediaSchema {
        title: Some(String::from("T")),
        description: Some(String::from("D")),
        genres: Some(vec![String::from("Drama")]),
        rating: Some(rating(0.0)),
        status: Some(MediaStatus::OnHold),
    };
    let update = UpdateDocument::from_patch(&patch);
    assert_eq!(update.set.len(), 5);
    assert!(matches!(&update.set[0], FieldChange::Title(text) if text == "T"));
    assert!(matches!(&update.set[1], FieldChange::Description(text) if text == "D"));
    assert!(matches!(&update.set[2], FieldChange::Genres(list) if list == &vec![String::from("Drama")]));
    assert!(matches!(&update.set[3], FieldChange::Rating(r) if *r == rating(0.0)));
    assert!(matches!(&update.set[4], FieldChange::Status(label) if label == "OnHold"));
}

#[test]
fn status_label_is_the_same_on_create_and_update() {
    for status in [
        MediaStatus::Watching,
        MediaStatus::Watched,
        MediaStatus::Dropped,
        MediaStatus::OnHold,
        MediaStatus::PlanToWatch,
    ] {
        let patch = UpdateMediaSchema {
            title: None,
            description: None,
            genres: None,
            rating: None,
            status: Some(status),
        };
        let update = UpdateDocument::from_patch(&patch);
        assert!(matches!(&update.set[0], FieldChange::Status(label) if label == status.as_str()));
        assert_eq!(format!("{:?}", status), status.as_str());
    }
}

#[test]
fn new_store_is_empty() {
    let mut store = MemoryStore::new();
    assert_eq!(store.len(), 0);
    assert!(store.documents().is_empty());
    assert!(find(&mut store, 10).is_empty());
}

#[test]
fn insert_appends_in_order() {
    let store = filled(3);
    assert_eq!(store.len(), 3);
    assert_eq!(titles(&store.documents()), vec!["title-0", "title-1", "title-2"]);
}

#[test]
fn insert_refuses_a_taken_identifier() {
    let mut store = filled(2);
    let answer = store.execute(StoreCommand::InsertOne { media: media("id-1", "other") });
    assert!(matches!(answer, StoreAnswer::Failed));
    assert_eq!(store.len(), 2);
    assert_eq!(titles(&store.documents()), vec!["title-0", "title-1"]);
}

#[test]
fn insert_treats_a_missing_identifier_as_one_value() {
    let mut store = MemoryStore::new();
    let mut first = media("x", "first");
    first.id = None;
    let mut second = media("x", "second");
    second.id = None;
    assert!(matches!(store.execute(StoreCommand::InsertOne { media: first }), StoreAnswer::Inserted));
    assert!(matches!(store.execute(StoreCommand::InsertOne { media: second }), StoreAnswer::Failed));
    assert_eq!(store.len(), 1);
}

#[test]
fn find_cuts_off_at_the_limit() {
    let mut store = filled(5);
    assert_eq!(titles(&find(&mut store, 2)), vec!["title-0", "title-1"]);
    assert_eq!(find(&mut store, 1).len(), 1);
    assert_eq!(find(&mut store, 4).len(), 4);
    assert_eq!(find(&mut store, 5).len(), 5);
    assert_eq!(find(&mut store, 6).len(), 5);
    assert_eq!(find(&mut store, i64::MAX).len(), 5);
    assert_eq!(store.len(), 5);
}

#[test]
fn find_with_a_limit_that_is_not_positive_returns_nothing() {
    let mut store = filled(3);
    assert!(find(&mut store, 0).is_empty());
    assert!(find(&mut store, -1).is_empty());
    assert!(find(&mut store, i64::MIN).is_empty());
}

#[test]
fn find_one_by_id_finds_the_entry_or_nothing() {
    let mut store = filled(3);
    match store.execute(StoreCommand::FindOneById { id: String::from("id-1") }) {
        StoreAnswer::Document(Some(found)) => assert_eq!(found.title, "title-1"),
        other => panic!("unexpected answer {:?}", other),
    }
    let answer = store.execute(StoreCommand::FindOneById { id: String::from("id-9") });
    assert!(matches!(answer, StoreAnswer::Document(None)));
    assert_eq!(store.len(), 3);
}

#[test]
fn find_one_by_title_finds_the_first_match() {
    let mut store = filled(2);
    store.execute(StoreCommand::InsertOne { media: media("id-dup", "title-0") });
    match store.execute(StoreCommand::FindOneByTitle { title: String::from("title-0") }) {
        StoreAnswer::Document(Some(found)) => assert_eq!(found.id.as_deref(), Some("id-0")),
        other => panic!("unexpected answer {:?}", other),
    }
    let answer = store.execute(StoreCommand::FindOneByTitle { title: String::from("nothing") });
    assert!(matches!(answer, StoreAnswer::Document(None)));
}

#[test]
fn delete_removes_the_entry_and_counts_it() {
    let mut store = filled(3);
    let answer = store.execute(StoreCommand::DeleteOneById { id: String::from("id-1") });
    assert!(matches!(answer, StoreAnswer::Deleted(1)));
    assert_eq!(titles(&store.documents()), vec!["title-0", "title-2"]);
    let answer = store.execute(StoreCommand::DeleteOneById { id: String::from("id-1") });
    assert!(matches!(answer, StoreAnswer::Deleted(0)));
    assert_eq!(store.len(), 2);
}

#[test]
fn update_assigns_the_fields_and_returns_the_changed_entry() {
    let mut store = filled(3);
    let update = UpdateDocument {
        set: vec![
            FieldChange::Title(String::from("renamed")),
            FieldChange::Rating(rating(4.5)),
            FieldChange::Status(String::from("Dropped")),
        ],
    };
    match store.execute(StoreCommand::FindOneByIdAndUpdate { id: String::from("id-2"), update }) {
        StoreAnswer::Document(Some(changed)) => {
            assert_eq!(changed.title, "renamed");
            assert_eq!(changed.rating, rating(4.5));
            assert_eq!(changed.status, MediaStatus::Dropped);
            assert_eq!(changed.description, "text");
            assert_eq!(changed.id.as_deref(), Some("id-2"));
        }
        other => panic!("unexpected answer {:?}", other),
    }
    let docs = store.documents();
    assert_eq!(titles(&docs), vec!["title-0", "title-1", "renamed"]);
    assert_eq!(docs[2].status, MediaStatus::Dropped);
    assert_eq!(docs[0].status, MediaStatus::PlanToWatch);
}

#[test]
fn update_of_a_missing_entry_changes_nothing() {
    let mut store = filled(2);
    let update = UpdateDocument { set: vec![FieldChange::Title(String::from("renamed"))] };
    let answer =
        store.execute(StoreCommand::FindOneByIdAndUpdate { id: String::from("id-7"), update });
    assert!(matches!(answer, StoreAnswer::Document(None)));
    assert_eq!(titles(&store.documents()), vec!["title-0", "title-1"]);
}

#[test]
fn update_with_an_unknown_status_label_fails_and_changes_nothing() {
    let mut store = filled(2);
    let update = UpdateDocument {
        set: vec![
            FieldChange::Title(String::from("renamed")),
            FieldChange::Status(String::from("Paused")),
        ],
    };
    let answer =
        store.execute(StoreCommand::FindOneByIdAndUpdate { id: String::from("id-0"), update });
    assert!(matches!(answer, StoreAnswer::Failed));
    assert_eq!(titles(&store.documents()), vec!["title-0", "title-1"]);
}

#[test]
fn update_with_an_empty_document_returns_the_entry_as_it_is() {
    let mut store = filled(1);
    let update = UpdateDocument { set: Vec::new() };
    match store.execute(StoreCommand::FindOneByIdAndUpdate { id: String::from("id-0"), update }) {
        StoreAnswer::Document(Some(same)) => {
            assert_eq!(same.title, "title-0");
            assert_eq!(same.genres, vec![String::from("Action"), String::from("Comedy")]);
        }
        other => panic!("unexpected answer {:?}", other),
    }
}

#[test]
fn update_replaces_genres_and_description() {
    let mut store = filled(1);
    let update = UpdateDocument {
        set: vec![
            FieldChange::Description(String::from("fresh")),
            FieldChange::Genres(vec![String::from("Drama")]),
        ],
    };
    match store.execute(StoreCommand::FindOneByIdAndUpdate { id: String::from("id-0"), update }) {
        StoreAnswer::Document(Some(changed)) => {
            assert_eq!(changed.description, "fresh");
            assert_eq!(changed.genres, vec![String::from("Drama")]);
            assert_eq!(changed.title, "title-0");
        }
        other => panic!("unexpected answer {:?}", other),
    }
}
