//! What the service answers: the envelopes, and a reply made of a status
//! code and a body.

use vstd::prelude::*;

verus! {

pub const STATUS_OK: u16 = 200;

pub const STATUS_CREATED: u16 = 201;

pub const STATUS_NO_CONTENT: u16 = 204;

pub const STATUS_BAD_REQUEST: u16 = 400;

pub const STATUS_NOT_FOUND: u16 = 404;

pub const STATUS_METHOD_NOT_ALLOWED: u16 = 405;

pub const STATUS_CONFLICT: u16 = 409;

pub const STATUS_INTERNAL_SERVER_ERROR: u16 = 500;

/// The envelope of an answer that carries no note: a status word and a
/// message.
#[derive(Clone, Debug, PartialEq, Eq)]
pub struct GenericResponse {
    pub status: String,
    pub message: String,
}

/// What a `GenericResponse` holds.
pub struct GenericView {
    pub status: Seq<char>,
    pub message: Seq<char>,
}

impl View for GenericResponse {
    type V = GenericView;

    open spec fn view(&self) -> GenericView {
        GenericView { status: self.status@, message: self.message@ }
    }
}

/// A note as it is shown to a client.
#[derive(Clone, Debug, PartialEq, Eq)]
pub struct NoteResponse {
    pub id: String,
    pub title: String,
    pub content: String,
    pub category: String,
    pub published: bool,
    pub created_at: i64,
    pub updated_at: i64,
}

/// What a `NoteResponse` holds.
pub struct NoteView {
    pub id: Seq<char>,
    pub title: Seq<char>,
    pub content: Seq<char>,
    pub category: Seq<char>,
    pub published: bool,
    pub created_at: int,
    pub updated_at: int,
}

impl View for NoteResponse {
    type V = NoteView;

    open spec fn view(&self) -> NoteView {
        NoteView {
            id: self.id@,
            title: self.title@,
            content: self.content@,
            category: self.category@,
            published: self.published,
            created_at: self.created_at as int,
            updated_at: self.updated_at as int,
        }
    }
}

/// The `data` member of a single-note envelope.
#[derive(Clone, Debug, PartialEq, Eq)]
pub struct NoteData {
    pub note: NoteResponse,
}

/// The envelope of an answer that carries one note.
#[derive(Clone, Debug, PartialEq, Eq)]
pub struct SingleNoteResponse {
    pub status: String,
    pub data: NoteData,
}

/// What a `SingleNoteResponse` holds.
pub struct SingleNoteView {
    pub status: Seq<char>,
    pub note: NoteView,
}

impl View for SingleNoteResponse {
    type V = SingleNoteView;

    open spec fn view(&self) -> SingleNoteView {
        SingleNoteView { status: self.status@, note: self.data.note@ }
    }
}

/// The envelope of an answer that carries a page of notes and their count.
#[derive(Clone, Debug, PartialEq, Eq)]
pub struct NoteListResponse {
    pub status: String,
    pub results: usize,
    pub notes: Vec<NoteResponse>,
}

/// What a `NoteListResponse` holds.
pub struct NoteListView {
    pub status: Seq<char>,
    pub results: nat,
    pub notes: Seq<NoteView>,
}

impl View for NoteListResponse {
    type V = NoteListView;

    open spec fn view(&self) -> NoteListView {
        NoteListView {
            status: self.status@,
            results: self.results as nat,
            notes: Seq::new(self.notes@.len(), |i: int| self.notes@[i]@),
        }
    }
}

/// The body of a reply.
#[derive(Clone, Debug, PartialEq, Eq)]
pub enum Body {
    /// A status word and a message.
    Generic(GenericResponse),
    /// One note.
    Note(SingleNoteResponse),
    /// A page of notes.
    List(NoteListResponse),
    /// The JSON value `null`.
    Null,
    /// Nothing.
    Empty,
}

/// What a `Body` holds.
pub enum BodyView {
    Generic(GenericView),
    Note(SingleNoteView),
    List(NoteListView),
    Null,
    Empty,
}

impl View for Body {
    type V = BodyView;

    open spec fn view(&self) -> BodyView {
        match self {
            Body::Generic(g) => BodyView::Generic(g@),
            Body::Note(n) => BodyView::Note(n@),
            Body::List(l) => BodyView::List(l@),
            Body::Null => BodyView::Null,
            Body::Empty => BodyView::Empty,
        }
    }
}

/// An answer to a request: the HTTP status code and the body.
#[derive(Clone, Debug, PartialEq, Eq)]
pub struct Reply {
    pub code: u16,
    pub body: Body,
}

/// What a `Reply` holds.
pub struct ReplyView {
    pub code: int,
    pub body: BodyView,
}

impl View for Reply {
    type V = ReplyView;

    open spec fn view(&self) -> ReplyView {
        ReplyView { code: self.code as int, body: self.body@ }
    }
}

/// The reply that carries a status word and a message.
pub open spec fn generic_reply(code: int, status: Seq<char>, message: Seq<char>) -> ReplyView {
    ReplyView { code, body: BodyView::Generic(GenericView { status, message }) }
}

impl GenericResponse {
    /// An envelope with this status word and this message.
    pub fn new(status: &str, message: &str) -> (r: GenericResponse)
        ensures
            r@.status == status@,
            r@.message == message@,
    {
        GenericResponse { status: String::from_str(status), message: String::from_str(message) }
    }
}

impl Reply {
    /// A reply that carries a status word and a message.
    pub fn generic(code: u16, status: &str, message: &str) -> (r: Reply)
        ensures
            r@ == generic_reply(code as int, status@, message@),
    {
        Reply { code, body: Body::Generic(GenericResponse::new(status, message)) }
    }
}

} // verus!
