use notes_api::db::DB;
use notes_api::error::Error;
use notes_api::oid::NoteId;
use notes_api::schema::{CreateNoteSchema, UpdateNoteSchema};

fn store() -> DB {
    DB::init(
        Some("mongodb://localhost:27017".to_string()),
        Some("notes".to_string()),
        Some("notes".to_string()),
    )
    .unwrap()
}

fn id_of(n: u8) -> NoteId {
    NoteId { bytes: [0, 0, 0, 0, 0, 0, 0, 0, 0, 0, 0, n] }
}

fn create(title: &str, content: &str) -> CreateNoteSchema {
    CreateNoteSchema {
        title: title.to_string(),
        content: content.to_string(),
        category: None,
        published: None,
    }
}

fn no_change() -> UpdateNoteSchema {
    UpdateNoteSchema { title: None, content: None, category: None, published: None }
}

#[test]
fn init_names_the_first_missing_setting() {
    let all = DB::init(Some("u".to_string()), Some("d".to_string()), Some("c".to_string())).unwrap();
    assert_eq!(all.count(), 0);
    assert_eq!(all.config().uri, "u");
    assert_eq!(all.config().database, "d");
    assert_eq!(all.config().collection, "c");
    assert_eq!(
        DB::init(None, None, None),
        Err(Error::MongoError("DATABASE_URL must be set.".to_string()))
    );
    assert_eq!(
        DB::init(Some("u".to_string()), None, None),
        Err(Error::MongoError("MONGO_INITDB_DATABASE must be set.".to_string()))
    );
    assert_eq!(
        DB::init(Some("u".to_string()), Some("d".to_string()), None),
        Err(Error::MongoError("MONGODB_NOTE_COLLECTION must be set.".to_string()))
    );
}

#[test]
fn second_create_with_same_title_is_a_duplicate() {
    let mut db = store();
    let first = db.insert_note(&create("t1", "c1"), id_of(1), 1_000).unwrap().unwrap();
    let mut other = create("t1", "something else");
    other.category = Some("x".to_string());
    let second = db.insert_note(&other, id_of(2), 2_000);
    assert_eq!(
        second,
        Err(Error::MongoDuplicateError("E11000 duplicate key error collection".to_string()))
    );
    assert_eq!(db.count(), 1);
    let read = db.get_note("000000000000000000000001").unwrap().unwrap();
    assert_eq!(read, first);
    assert_eq!(read.data.note.content, "c1");
}

#[test]
fn create_refuses_an_identifier_that_is_taken() {
    let mut db = store();
    db.insert_note(&create("t1", "c1"), id_of(1), 1_000).unwrap();
    let again = db.insert_note(&create("t2", "c2"), id_of(1), 2_000);
    assert!(matches!(again, Err(Error::MongoDuplicateError(_))));
    assert_eq!(db.count(), 1);
}

#[test]
fn create_then_get_round_trips() {
    let mut db = store();
    let body = CreateNoteSchema {
        title: "groceries".to_string(),
        content: "milk, eggs".to_string(),
        category: Some("home".to_string()),
        published: Some(true),
    };
    let id = NoteId { bytes: [0x65, 0x1f, 0xa0, 0x0b, 0xff, 0x10, 0x00, 0x9c, 0x7d, 0x42, 0xe3, 0x01] };
    let made = db.insert_note(&body, id, 1_700_000_000_123).unwrap().unwrap();
    assert_eq!(made.status, "success");
    assert_eq!(made.data.note.id, "651fa00bff10009c7d42e301");
    assert_eq!(made.data.note.title, "groceries");
    assert_eq!(made.data.note.content, "milk, eggs");
    assert_eq!(made.data.note.category, "home");
    assert!(made.data.note.published);
    assert_eq!(made.data.note.created_at, 1_700_000_000_123);
    assert_eq!(made.data.note.updated_at, 1_700_000_000_123);
    let read = db.get_note("651fa00bff10009c7d42e301").unwrap().unwrap();
    assert_eq!(read, made);
    let upper = db.get_note("651FA00BFF10009C7D42E301").unwrap().unwrap();
    assert_eq!(upper, made);
}

#[test]
fn create_fills_in_the_defaults() {
    let mut db = store();
    let made = db.insert_note(&create("t1", "c1"), id_of(7), 5).unwrap().unwrap();
    assert_eq!(made.data.note.category, "");
    assert!(!made.data.note.published);
}

#[test]
fn create_note_assigns_identifier_and_time() {
    let mut db = store();
    let a = db.create_note(&create("a", "1")).unwrap().unwrap();
    let b = db.create_note(&create("b", "2")).unwrap().unwrap();
    assert_eq!(a.data.note.id.len(), 24);
    assert_ne!(a.data.note.id, b.data.note.id);
    assert_eq!(a.data.note.created_at, a.data.note.updated_at);
    assert!(a.data.note.created_at > 1_500_000_000_000);
    assert_eq!(db.get_note(&a.data.note.id).unwrap().unwrap(), a);
    assert_eq!(db.get_note(&b.data.note.id).unwrap().unwrap(), b);
    assert!(matches!(db.create_note(&create("a", "3")), Err(Error::MongoDuplicateError(_))));
    assert_eq!(db.count(), 2);
}

#[test]
fn update_overwrites_only_the_fields_it_names() {
    let mut db = store();
    let mut body = create("title", "content");
    body.category = Some("a".to_string());
    let before = db.insert_note(&body, id_of(3), 1_000).unwrap().unwrap();
    let mut change = no_change();
    change.category = Some("b".to_string());
    let after = db.update_note("000000000000000000000003", &change, 2_000).unwrap().unwrap();
    assert_eq!(after.data.note.category, "b");
    assert_eq!(after.data.note.title, "title");
    assert_eq!(after.data.note.content, "content");
    assert_eq!(after.data.note.published, before.data.note.published);
    assert_eq!(after.data.note.id, before.data.note.id);
    assert_eq!(after.data.note.created_at, 1_000);
    assert_eq!(after.data.note.updated_at, 2_000);
    assert!(after.data.note.updated_at > before.data.note.updated_at);
    assert_eq!(db.get_note("000000000000000000000003").unwrap().unwrap(), after);
}

#[test]
fn update_names_every_field() {
    let mut db = store();
    db.insert_note(&create("t", "c"), id_of(3), 1_000).unwrap();
    let change = UpdateNoteSchema {
        title: Some("t2".to_string()),
        content: Some("c2".to_string()),
        category: Some("k".to_string()),
        published: Some(true),
    };
    let after = db.update_note("000000000000000000000003", &change, 1_500).unwrap().unwrap();
    assert_eq!(after.data.note.title, "t2");
    assert_eq!(after.data.note.content, "c2");
    assert_eq!(after.data.note.category, "k");
    assert!(after.data.note.published);
    assert_eq!(after.data.note.updated_at, 1_500);
}

#[test]
fn update_with_no_field_refreshes_the_time() {
    let mut db = store();
    let before = db.insert_note(&create("t", "c"), id_of(3), 1_000).unwrap().unwrap();
    let after = db.update_note("000000000000000000000003", &no_change(), 1_001).unwrap().unwrap();
    assert_eq!(after.data.note.title, before.data.note.title);
    assert_eq!(after.data.note.updated_at, 1_001);
    assert_eq!(after.data.note.created_at, 1_000);
}

#[test]
fn update_never_moves_the_time_back() {
    let mut db = store();
    db.insert_note(&create("t", "c"), id_of(3), 1_000).unwrap();
    let after = db.update_note("000000000000000000000003", &no_change(), 400).unwrap().unwrap();
    assert_eq!(after.data.note.updated_at, 1_000);
    assert_eq!(after.data.note.created_at, 1_000);
}

#[test]
fn update_to_a_title_held_elsewhere_is_refused() {
    let mut db = store();
    db.insert_note(&create("one", "c"), id_of(1), 1_000).unwrap();
    let two = db.insert_note(&create("two", "c"), id_of(2), 1_000).unwrap().unwrap();
    let mut change = no_change();
    change.title = Some("one".to_string());
    let r = db.update_note("000000000000000000000002", &change, 2_000);
    assert_eq!(
        r,
        Err(Error::MongoQueryError("E11000 duplicate key error collection".to_string()))
    );
    assert_eq!(db.get_note("000000000000000000000002").unwrap().unwrap(), two);
    let mut same = no_change();
    same.title = Some("two".to_string());
    let kept = db.update_note("000000000000000000000002", &same, 2_000).unwrap().unwrap();
    assert_eq!(kept.data.note.title, "two");
    assert_eq!(kept.data.note.updated_at, 2_000);
}

#[test]
fn update_of_an_absent_or_malformed_identifier() {
    let mut db = store();
    db.insert_note(&create("one", "c"), id_of(1), 1_000).unwrap();
    let mut change = no_change();
    change.content = Some("x".to_string());
    assert_eq!(db.update_note("000000000000000000000009", &change, 2_000), Ok(None));
    assert_eq!(
        db.update_note("nope", &change, 2_000),
        Err(Error::InvalidIDError("nope".to_string()))
    );
    assert_eq!(db.edit_note("000000000000000000000009", &change), Ok(None));
    let read = db.get_note("000000000000000000000001").unwrap().unwrap();
    assert_eq!(read.data.note.content, "c");
    assert_eq!(read.data.note.updated_at, 1_000);
}

#[test]
fn edit_note_reads_the_clock() {
    let mut db = store();
    db.insert_note(&create("one", "c"), id_of(1), 1_000).unwrap();
    let mut change = no_change();
    change.published = Some(true);
    let after = db.edit_note("000000000000000000000001", &change).unwrap().unwrap();
    assert!(after.data.note.published);
    assert_eq!(after.data.note.created_at, 1_000);
    assert!(after.data.note.updated_at > 1_500_000_000_000);
}

#[test]
fn pages_of_fifteen_notes_by_ten() {
    let mut db = store();
    for n in 0..15u8 {
        db.insert_note(&create(&format!("note {}", n), "c"), id_of(n), 1_000 + n as i64).unwrap();
    }
    let first = db.fetch_notes(10, 1).unwrap();
    assert_eq!(first.status, "success");
    assert_eq!(first.results, 10);
    assert_eq!(first.notes.len(), 10);
    assert_eq!(first.notes[0].title, "note 0");
    assert_eq!(first.notes[9].title, "note 9");
    let second = db.fetch_notes(10, 2).unwrap();
    assert_eq!(second.results, 5);
    assert_eq!(second.notes.len(), 5);
    assert_eq!(second.notes[0].title, "note 10");
    assert_eq!(second.notes[4].title, "note 14");
    let third = db.fetch_notes(10, 3).unwrap();
    assert_eq!(third.results, 0);
    assert!(third.notes.is_empty());
}

#[test]
fn pages_at_the_edges() {
    let mut db = store();
    assert_eq!(db.fetch_notes(10, 1).unwrap().results, 0);
    for n in 0..4u8 {
        db.insert_note(&create(&format!("n{}", n), "c"), id_of(n), 1).unwrap();
    }
    assert_eq!(db.fetch_notes(4, 1).unwrap().results, 4);
    assert_eq!(db.fetch_notes(4, 2).unwrap().results, 0);
    assert_eq!(db.fetch_notes(1, 4).unwrap().notes[0].title, "n3");
    assert_eq!(db.fetch_notes(3, 2).unwrap().notes[0].title, "n3");
    assert_eq!(db.fetch_notes(i64::MAX, 1).unwrap().results, 4);
    assert_eq!(db.fetch_notes(1, i64::MAX).unwrap().results, 0);
    assert_eq!(db.fetch_notes(2, 4_611_686_018_427_387_904).unwrap().results, 0);
}

#[test]
fn absent_identifier_is_no_failure() {
    let mut db = store();
    db.insert_note(&create("one", "c"), id_of(1), 1_000).unwrap();
    assert_eq!(db.get_note("000000000000000000000000"), Ok(None));
    assert_eq!(
        db.get_note("not-an-id"),
        Err(Error::InvalidIDError("not-an-id".to_string()))
    );
    assert_eq!(db.get_note(""), Err(Error::InvalidIDError("".to_string())));
}

#[test]
fn delete_succeeds_once() {
    let mut db = store();
    db.insert_note(&create("one", "c"), id_of(1), 1_000).unwrap();
    db.insert_note(&create("two", "c"), id_of(2), 1_000).unwrap();
    db.insert_note(&create("three", "c"), id_of(3), 1_000).unwrap();
    assert_eq!(db.delete_note("000000000000000000000002"), Ok(Some(())));
    assert_eq!(db.count(), 2);
    assert_eq!(db.delete_note("000000000000000000000002"), Ok(None));
    assert_eq!(db.count(), 2);
    assert_eq!(db.get_note("000000000000000000000002"), Ok(None));
    let left = db.fetch_notes(10, 1).unwrap();
    assert_eq!(left.notes[0].title, "one");
    assert_eq!(left.notes[1].title, "three");
    assert_eq!(
        db.delete_note("zz0000000000000000000002"),
        Err(Error::InvalidIDError("zz0000000000000000000002".to_string()))
    );
}

#[test]
fn a_deleted_title_can_be_used_again() {
    let mut db = store();
    db.insert_note(&create("one", "c"), id_of(1), 1_000).unwrap();
    db.delete_note("000000000000000000000001").unwrap();
    let again = db.insert_note(&create("one", "d"), id_of(1), 2_000).unwrap().unwrap();
    assert_eq!(again.data.note.content, "d");
}
