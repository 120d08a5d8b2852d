use notes_api::db::{StoreConfig, DB};
use notes_api::error::Error;
use notes_api::flow::{
    advance, begin_create, begin_delete, begin_list, begin_read, begin_update, show_all,
    show_found, skip_of, Outcome, Pending, Step, StoreAnswer, StoreCall,
};
use notes_api::model::NoteModel;
use notes_api::oid::NoteId;
use notes_api::schema::{CreateNoteSchema, UpdateNoteSchema};

const ALL_PENDING: [Pending; 6] = [
    Pending::List,
    Pending::Insert,
    Pending::ReadBack,
    Pending::Read,
    Pending::Update,
    Pending::Delete,
];

fn note(n: u8, title: &str) -> NoteModel {
    NoteModel {
        id: NoteId { bytes: [n; 12] },
        title: title.to_string(),
        content: "c".to_string(),
        category: Some("k".to_string()),
        published: Some(false),
        created_at: 10,
        updated_at: 20,
    }
}

fn unexpected() -> Step {
    Step::Done(Outcome::Failed(Error::MongoQueryError(
        "unexpected answer from the store".to_string(),
    )))
}

fn store() -> DB {
    DB::init(Some("u".to_string()), Some("d".to_string()), Some("c".to_string())).unwrap()
}

#[test]
fn settings_are_read_in_order() {
    let config =
        StoreConfig::read(Some("u".to_string()), Some("d".to_string()), Some("c".to_string()))
            .unwrap();
    assert_eq!(config.uri, "u");
    assert_eq!(config.database, "d");
    assert_eq!(config.collection, "c");
    assert_eq!(
        StoreConfig::read(None, Some("d".to_string()), None),
        Err(Error::MongoError("DATABASE_URL must be set.".to_string()))
    );
    assert_eq!(
        StoreConfig::read(Some("u".to_string()), None, Some("c".to_string())),
        Err(Error::MongoError("MONGO_INITDB_DATABASE must be set.".to_string()))
    );
    assert_eq!(
        StoreConfig::read(Some("u".to_string()), Some("d".to_string()), None),
        Err(Error::MongoError("MONGODB_NOTE_COLLECTION must be set.".to_string()))
    );
}

#[test]
fn a_list_begins_with_the_page() {
    assert_eq!(skip_of(10, 1), 0);
    assert_eq!(skip_of(10, 3), 20);
    assert_eq!(skip_of(7, 5), 28);
    assert_eq!(skip_of(1, i64::MAX), (i64::MAX - 1) as u64);
    assert_eq!(
        begin_list(10, 2),
        Step::Call(Pending::List, StoreCall::Find { skip: 10, limit: 10 })
    );
}

#[test]
fn a_create_begins_with_the_new_record() {
    let body = CreateNoteSchema {
        title: "t".to_string(),
        content: "c".to_string(),
        category: None,
        published: Some(true),
    };
    let id = NoteId { bytes: [3; 12] };
    let expected = NoteModel {
        id,
        title: "t".to_string(),
        content: "c".to_string(),
        category: Some(String::new()),
        published: Some(true),
        created_at: 77,
        updated_at: 77,
    };
    assert_eq!(
        begin_create(&body, id, 77),
        Step::Call(Pending::Insert, StoreCall::InsertOne(expected))
    );
}

#[test]
fn operations_on_one_note_begin_with_its_identifier() {
    let id = NoteId { bytes: [0xab; 12] };
    let text = "abababababababababababab";
    assert_eq!(begin_read(text), Step::Call(Pending::Read, StoreCall::FindOne(id)));
    assert_eq!(begin_delete(text), Step::Call(Pending::Delete, StoreCall::DeleteOne(id)));
    let update = UpdateNoteSchema {
        title: None,
        content: Some("x".to_string()),
        category: None,
        published: None,
    };
    assert_eq!(
        begin_update(text, update.clone(), 5),
        Step::Call(Pending::Update, StoreCall::FindOneAndUpdate { id, update: update.clone(), now: 5 })
    );
    let invalid = Step::Done(Outcome::Failed(Error::InvalidIDError("nope".to_string())));
    assert_eq!(begin_read("nope"), invalid);
    assert_eq!(begin_delete("nope"), invalid);
    assert_eq!(begin_update("nope", update, 5), invalid);
}

#[test]
fn an_insert_is_read_back() {
    let id = NoteId { bytes: [9; 12] };
    assert_eq!(
        advance(Pending::Insert, StoreAnswer::Inserted(id)),
        Step::Call(Pending::ReadBack, StoreCall::FindOne(id))
    );
    for pending in ALL_PENDING {
        if pending != Pending::Insert {
            assert_eq!(advance(pending, StoreAnswer::Inserted(id)), unexpected());
        }
    }
}

#[test]
fn a_failed_insert_is_classified() {
    let dup = "E11000 duplicate key error collection: notes index: title_1".to_string();
    assert_eq!(
        advance(Pending::Insert, StoreAnswer::Failed { code: None, message: dup.clone() }),
        Step::Done(Outcome::Failed(Error::MongoDuplicateError(dup.clone())))
    );
    assert_eq!(
        advance(Pending::Insert, StoreAnswer::Failed { code: Some(11000), message: "w".to_string() }),
        Step::Done(Outcome::Failed(Error::MongoDuplicateError("w".to_string())))
    );
    assert_eq!(
        advance(Pending::Insert, StoreAnswer::Failed { code: Some(6), message: "down".to_string() }),
        Step::Done(Outcome::Failed(Error::MongoQueryError("down".to_string())))
    );
    for pending in ALL_PENDING {
        if pending != Pending::Insert {
            assert_eq!(
                advance(pending, StoreAnswer::Failed { code: Some(11000), message: dup.clone() }),
                Step::Done(Outcome::Failed(Error::MongoQueryError(dup.clone())))
            );
        }
    }
}

#[test]
fn what_cannot_be_encoded_is_a_serialization_failure() {
    for pending in ALL_PENDING {
        assert_eq!(
            advance(pending, StoreAnswer::NotEncoded { message: "bad".to_string() }),
            Step::Done(Outcome::Failed(Error::MongoSerializeBsonError("bad".to_string())))
        );
    }
}

#[test]
fn a_found_note_ends_a_read() {
    for pending in [Pending::ReadBack, Pending::Read, Pending::Update] {
        assert_eq!(advance(pending, StoreAnswer::Found(None)), Step::Done(Outcome::Note(None)));
        match advance(pending, StoreAnswer::Found(Some(note(1, "t")))) {
            Step::Done(Outcome::Note(Some(envelope))) => {
                assert_eq!(envelope.status, "success");
                assert_eq!(envelope.data.note.id, "010101010101010101010101");
                assert_eq!(envelope.data.note.title, "t");
                assert_eq!(envelope.data.note.category, "k");
                assert_eq!(envelope.data.note.created_at, 10);
                assert_eq!(envelope.data.note.updated_at, 20);
            }
            other => panic!("unexpected step {:?}", other),
        }
        let mut broken = note(1, "t");
        broken.published = None;
        assert_eq!(
            advance(pending, StoreAnswer::Found(Some(broken))),
            Step::Done(Outcome::Failed(Error::MongoDataError("published".to_string())))
        );
    }
    for pending in [Pending::List, Pending::Insert, Pending::Delete] {
        assert_eq!(advance(pending, StoreAnswer::Found(None)), unexpected());
    }
}

#[test]
fn a_count_ends_a_delete() {
    assert_eq!(
        advance(Pending::Delete, StoreAnswer::Deleted(0)),
        Step::Done(Outcome::Deleted(None))
    );
    assert_eq!(
        advance(Pending::Delete, StoreAnswer::Deleted(1)),
        Step::Done(Outcome::Deleted(Some(())))
    );
    assert_eq!(
        advance(Pending::Delete, StoreAnswer::Deleted(3)),
        Step::Done(Outcome::Deleted(Some(())))
    );
    for pending in ALL_PENDING {
        if pending != Pending::Delete {
            assert_eq!(advance(pending, StoreAnswer::Deleted(1)), unexpected());
        }
    }
}

#[test]
fn notes_end_a_list() {
    let notes = vec![note(1, "a"), note(2, "b")];
    match advance(Pending::List, StoreAnswer::Notes(notes.clone())) {
        Step::Done(Outcome::List(list)) => {
            assert_eq!(list.status, "success");
            assert_eq!(list.results, 2);
            assert_eq!(list.notes[0].title, "a");
            assert_eq!(list.notes[1].id, "020202020202020202020202");
        }
        other => panic!("unexpected step {:?}", other),
    }
    match advance(Pending::List, StoreAnswer::Notes(Vec::new())) {
        Step::Done(Outcome::List(list)) => {
            assert_eq!(list.results, 0);
            assert!(list.notes.is_empty());
        }
        other => panic!("unexpected step {:?}", other),
    }
    for pending in ALL_PENDING {
        if pending != Pending::List {
            assert_eq!(advance(pending, StoreAnswer::Notes(notes.clone())), unexpected());
        }
    }
}

#[test]
fn the_first_record_that_cannot_be_shown_fails_the_list() {
    let mut second = note(2, "b");
    second.category = None;
    second.published = None;
    let mut third = note(3, "c");
    third.published = None;
    assert_eq!(
        show_all(&vec![note(1, "a"), second, third.clone()]),
        Outcome::Failed(Error::MongoDataError("category".to_string()))
    );
    assert_eq!(
        show_all(&vec![note(1, "a"), third.clone()]),
        Outcome::Failed(Error::MongoDataError("published".to_string()))
    );
    assert_eq!(
        show_found(&Some(third)),
        Outcome::Failed(Error::MongoDataError("published".to_string()))
    );
    assert_eq!(show_found(&None), Outcome::Note(None));
}

#[test]
fn outcomes_are_taken_by_their_operation() {
    let unexpected = Error::MongoQueryError("unexpected answer from the store".to_string());
    assert_eq!(Outcome::Note(None).into_note(), Ok(None));
    assert_eq!(Outcome::Deleted(Some(())).into_deleted(), Ok(Some(())));
    assert_eq!(Outcome::Deleted(None).into_deleted(), Ok(None));
    assert_eq!(
        Outcome::Failed(Error::InvalidIDError("x".to_string())).into_note(),
        Err(Error::InvalidIDError("x".to_string()))
    );
    assert_eq!(
        Outcome::Failed(Error::InvalidIDError("x".to_string())).into_list(),
        Err(Error::InvalidIDError("x".to_string()))
    );
    assert_eq!(
        Outcome::Failed(Error::InvalidIDError("x".to_string())).into_deleted(),
        Err(Error::InvalidIDError("x".to_string()))
    );
    assert_eq!(Outcome::Deleted(None).into_note(), Err(unexpected.clone()));
    assert_eq!(Outcome::Note(None).into_list(), Err(unexpected.clone()));
    assert_eq!(Outcome::Note(None).into_deleted(), Err(unexpected));
}

#[test]
fn the_collection_answers_each_call() {
    let mut db = store();
    assert_eq!(
        db.answer(StoreCall::InsertOne(note(1, "a"))),
        StoreAnswer::Inserted(NoteId { bytes: [1; 12] })
    );
    assert_eq!(
        db.answer(StoreCall::InsertOne(note(2, "b"))),
        StoreAnswer::Inserted(NoteId { bytes: [2; 12] })
    );
    let refused = StoreAnswer::Failed {
        code: Some(11000),
        message: "E11000 duplicate key error collection".to_string(),
    };
    assert_eq!(db.answer(StoreCall::InsertOne(note(3, "a"))), refused);
    assert_eq!(db.answer(StoreCall::InsertOne(note(1, "c"))), refused);
    assert_eq!(db.count(), 2);
    assert_eq!(
        db.look(&StoreCall::FindOne(NoteId { bytes: [2; 12] })),
        StoreAnswer::Found(Some(note(2, "b")))
    );
    assert_eq!(db.look(&StoreCall::FindOne(NoteId { bytes: [7; 12] })), StoreAnswer::Found(None));
    assert_eq!(
        db.look(&StoreCall::Find { skip: 1, limit: 5 }),
        StoreAnswer::Notes(vec![note(2, "b")])
    );
    assert_eq!(
        db.answer(StoreCall::Find { skip: 0, limit: 1 }),
        StoreAnswer::Notes(vec![note(1, "a")])
    );
    assert_eq!(db.look(&StoreCall::Find { skip: 2, limit: 5 }), StoreAnswer::Notes(Vec::new()));
    assert_eq!(
        db.look(&StoreCall::Find { skip: u64::MAX, limit: i64::MAX }),
        StoreAnswer::Notes(Vec::new())
    );
    let rename = UpdateNoteSchema {
        title: Some("a".to_string()),
        content: None,
        category: None,
        published: None,
    };
    assert_eq!(
        db.answer(StoreCall::FindOneAndUpdate {
            id: NoteId { bytes: [2; 12] },
            update: rename.clone(),
            now: 30
        }),
        refused
    );
    assert_eq!(
        db.answer(StoreCall::FindOneAndUpdate {
            id: NoteId { bytes: [7; 12] },
            update: rename.clone(),
            now: 30
        }),
        StoreAnswer::Found(None)
    );
    let mut renamed = note(1, "a");
    renamed.updated_at = 30;
    assert_eq!(
        db.answer(StoreCall::FindOneAndUpdate {
            id: NoteId { bytes: [1; 12] },
            update: rename,
            now: 30
        }),
        StoreAnswer::Found(Some(renamed))
    );
    assert_eq!(db.answer(StoreCall::DeleteOne(NoteId { bytes: [1; 12] })), StoreAnswer::Deleted(1));
    assert_eq!(db.answer(StoreCall::DeleteOne(NoteId { bytes: [1; 12] })), StoreAnswer::Deleted(0));
    assert_eq!(db.count(), 1);
}

#[test]
fn an_operation_is_settled_on_the_collection() {
    let mut db = store();
    let body = CreateNoteSchema {
        title: "t".to_string(),
        content: "c".to_string(),
        category: None,
        published: None,
    };
    let id = NoteId { bytes: [5; 12] };
    let made = db.settle(begin_create(&body, id, 100)).into_note().unwrap().unwrap();
    assert_eq!(made.data.note.id, "050505050505050505050505");
    assert_eq!(
        db.settle_read(begin_read("050505050505050505050505")).into_note(),
        Ok(Some(made.clone()))
    );
    assert_eq!(
        db.settle(begin_create(&body, NoteId { bytes: [6; 12] }, 100)),
        Outcome::Failed(Error::MongoDuplicateError(
            "E11000 duplicate key error collection".to_string()
        ))
    );
    let list = db.settle_read(begin_list(10, 1)).into_list().unwrap();
    assert_eq!(list.results, 1);
    assert_eq!(list.notes[0], made.data.note);
    assert_eq!(
        db.settle(begin_delete("050505050505050505050505")),
        Outcome::Deleted(Some(()))
    );
    assert_eq!(db.settle(begin_delete("050505050505050505050505")), Outcome::Deleted(None));
    assert_eq!(
        db.settle(Step::Done(Outcome::Note(None))),
        Outcome::Note(None)
    );
}
