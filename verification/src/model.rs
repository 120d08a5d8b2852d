//! The note record as the store holds it, how a record is made from a
//! create request, how an update is merged into it, and how it is shown.

use vstd::prelude::*;
use crate::error::{Error, ErrorKind, ErrorView};
use crate::oid::{encode_hex, NoteId};
use crate::response::{NoteData, NoteResponse, NoteView, SingleNoteResponse, SingleNoteView};
use crate::schema::{copy_text, CreateNoteSchema, CreateView, UpdateNoteSchema, UpdateView};

verus! {

/// A stored note. Times are milliseconds since the Unix epoch.
#[derive(Clone, Debug, PartialEq, Eq)]
pub struct NoteModel {
    pub id: NoteId,
    pub title: String,
    pub content: String,
    pub category: Option<String>,
    pub published: Option<bool>,
    pub created_at: i64,
    pub updated_at: i64,
}

/// What a `NoteModel` holds.
pub struct NoteRecord {
    pub id: Seq<u8>,
    pub title: Seq<char>,
    pub content: Seq<char>,
    pub category: Option<Seq<char>>,
    pub published: Option<bool>,
    pub created_at: int,
    pub updated_at: int,
}

impl View for NoteModel {
    type V = NoteRecord;

    open spec fn view(&self) -> NoteRecord {
        NoteRecord {
            id: self.id@,
            title: self.title@,
            content: self.content@,
            category: match self.category {
                Some(c) => Some(c@),
                None => None,
            },
            published: self.published,
            created_at: self.created_at as int,
            updated_at: self.updated_at as int,
        }
    }
}

/// What a list of notes holds.
pub open spec fn records_of(notes: Seq<NoteModel>) -> Seq<NoteRecord> {
    Seq::new(notes.len(), |i: int| notes[i]@)
}

impl NoteRecord {
    /// Whether the record has every field that a shown note needs, and was
    /// not updated before it was created.
    pub open spec fn complete(&self) -> bool {
        &&& self.id.len() == 12
        &&& self.category.is_some()
        &&& self.published.is_some()
        &&& self.created_at <= self.updated_at
    }
}

/// The record of a new note: title and content as asked for, the empty
/// category and `false` where the request names none, and both times set to
/// the time of creation.
pub open spec fn new_record(body: CreateView, id: Seq<u8>, now: int) -> NoteRecord {
    NoteRecord {
        id,
        title: body.title,
        content: body.content,
        category: Some(
            match body.category {
                Some(c) => c,
                None => Seq::<char>::empty(),
            },
        ),
        published: Some(
            match body.published {
                Some(p) => p,
                None => false,
            },
        ),
        created_at: now,
        updated_at: now,
    }
}

/// The later of two times.
pub open spec fn later(a: int, b: int) -> int {
    if a >= b {
        a
    } else {
        b
    }
}

/// A record after an update: each field that the update names is
/// overwritten, every other field stays, the identifier and the time of
/// creation stay, and the time of the last update becomes the current time,
/// or stays where the clock has gone back behind it.
pub open spec fn merged(note: NoteRecord, update: UpdateView, now: int) -> NoteRecord {
    NoteRecord {
        id: note.id,
        title: match update.title {
            Some(t) => t,
            None => note.title,
        },
        content: match update.content {
            Some(c) => c,
            None => note.content,
        },
        category: match update.category {
            Some(c) => Some(c),
            None => note.category,
        },
        published: match update.published {
            Some(p) => Some(p),
            None => note.published,
        },
        created_at: note.created_at,
        updated_at: later(now, note.updated_at),
    }
}

/// A record as it is shown: the identifier as text, the other fields as
/// they are.
pub open spec fn shown(note: NoteRecord) -> NoteView {
    NoteView {
        id: encode_hex(note.id),
        title: note.title,
        content: note.content,
        category: note.category.unwrap(),
        published: note.published.unwrap(),
        created_at: note.created_at,
        updated_at: note.updated_at,
    }
}

/// The envelope around one shown note.
pub open spec fn note_envelope(note: NoteRecord) -> SingleNoteView {
    SingleNoteView { status: "success"@, note: shown(note) }
}

/// What showing a record gives: the shown note, or the name of the first
/// field that the record lacks.
pub open spec fn shown_or_missing(note: NoteRecord) -> Result<NoteView, ErrorView> {
    if note.category.is_none() {
        Err(ErrorView { kind: ErrorKind::DataAccess, cause: "category"@ })
    } else if note.published.is_none() {
        Err(ErrorView { kind: ErrorKind::DataAccess, cause: "published"@ })
    } else {
        Ok(shown(note))
    }
}

/// What a shown note, or the failure to show one, holds.
pub open spec fn shown_view(r: Result<NoteResponse, Error>) -> Result<NoteView, ErrorView> {
    match r {
        Ok(n) => Ok(n@),
        Err(e) => Err(e@),
    }
}

/// Calls `chrono::Utc::now` and `timestamp_millis` on what it returns: the
/// clock's time in milliseconds since the Unix epoch. Nothing is promised
/// of it. The call panics where the clock stands before 1970.
#[verifier::external_body]
fn clock_millis() -> (r: i64) {
    chrono::Utc::now().timestamp_millis()
}

/// The current time, in milliseconds since the Unix epoch.
pub fn now_millis() -> (r: i64) {
    clock_millis()
}

impl NoteModel {
    /// The record of a new note with this identifier, created at `now`.
    pub fn new(body: &CreateNoteSchema, id: NoteId, now: i64) -> (r: NoteModel)
        ensures
            r@ == new_record(body@, id@, now as int),
            r@.complete(),
    {
        let category: String = match &body.category {
            Some(c) => c.clone(),
            None => String::new(),
        };
        let published: bool = match body.published {
            Some(p) => p,
            None => false,
        };
        NoteModel {
            id,
            title: body.title.clone(),
            content: body.content.clone(),
            category: Some(category),
            published: Some(published),
            created_at: now,
            updated_at: now,
        }
    }

    /// A copy of this record.
    pub fn duplicate(&self) -> (r: NoteModel)
        ensures
            r@ == self@,
    {
        NoteModel {
            id: self.id,
            title: self.title.clone(),
            content: self.content.clone(),
            category: copy_text(&self.category),
            published: self.published,
            created_at: self.created_at,
            updated_at: self.updated_at,
        }
    }

    /// This record after `update` has been merged into it at `now`.
    pub fn merge(&self, update: &UpdateNoteSchema, now: i64) -> (r: NoteModel)
        ensures
            r@ == merged(self@, update@, now as int),
            self@.complete() ==> r@.complete(),
    {
        let title: String = match &update.title {
            Some(t) => t.clone(),
            None => self.title.clone(),
        };
        let content: String = match &update.content {
            Some(c) => c.clone(),
            None => self.content.clone(),
        };
        let category: Option<String> = match &update.category {
            Some(c) => Some(c.clone()),
            None => copy_text(&self.category),
        };
        let published: Option<bool> = match update.published {
            Some(p) => Some(p),
            None => self.published,
        };
        let updated_at: i64 = if now >= self.updated_at {
            now
        } else {
            self.updated_at
        };
        NoteModel {
            id: self.id,
            title,
            content,
            category,
            published,
            created_at: self.created_at,
            updated_at,
        }
    }
}

/// Shows a stored note. A record that lacks its category or its
/// publication mark cannot be shown: that is a fault in the stored data.
pub fn doc_to_note(note: &NoteModel) -> (r: Result<NoteResponse, Error>)
    ensures
        shown_view(r) == shown_or_missing(note@),
{
    let category: String = match &note.category {
        Some(c) => c.clone(),
        None => {
            return Err(Error::MongoDataError(String::from_str("category")));
        },
    };
    let published: bool = match note.published {
        Some(p) => p,
        None => {
            return Err(Error::MongoDataError(String::from_str("published")));
        },
    };
    Ok(
        NoteResponse {
            id: note.id.to_hex(),
            title: note.title.clone(),
            content: note.content.clone(),
            category,
            published,
            created_at: note.created_at,
            updated_at: note.updated_at,
        },
    )
}

/// Puts a shown note into the envelope of a successful answer.
pub fn single_note_response(note: NoteResponse) -> (r: SingleNoteResponse)
    ensures
        r@ == (SingleNoteView { status: "success"@, note: note@ }),
{
    SingleNoteResponse { status: String::from_str("success"), data: NoteData { note } }
}

} // verus!
