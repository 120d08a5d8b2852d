//! The request handlers: each calls the data-access layer and turns what
//! it gives into a reply, or into a rejection where the layer failed.

use vstd::prelude::*;
use crate::db::{
    create_outcome, created_state, delete_outcome, deleted_state, edit_outcome, edited_state,
    get_outcome, list_outcome, DB,
};
use crate::error::{handle_rejection, rejection_reply, ErrorView, Rejection, RejectionView};
use crate::response::{
    generic_reply, Body, BodyView, NoteListResponse, NoteListView, Reply, ReplyView,
    SingleNoteResponse, SingleNoteView, STATUS_CREATED, STATUS_NOT_FOUND, STATUS_NO_CONTENT,
    STATUS_OK,
};
use crate::schema::{
    CreateNoteSchema, FilterOptions, UpdateNoteSchema, DEFAULT_LIMIT, DEFAULT_PAGE,
};

verus! {

/// What a handler gives: a reply, or a rejection.
pub open spec fn handled(r: Result<Reply, Rejection>) -> Result<ReplyView, RejectionView> {
    match r {
        Ok(reply) => Ok(reply@),
        Err(rejection) => Err(rejection@),
    }
}

/// The rejection that holds a failure of the data-access layer and no
/// other reason.
pub open spec fn rejected(err: ErrorView) -> RejectionView {
    RejectionView { not_found: false, invalid_body: false, error: Some(err), method_not_allowed: false }
}

/// The message that names an identifier no note has.
pub open spec fn not_found_message(id: Seq<char>) -> Seq<char> {
    "Note with ID: "@ + id + " not found"@
}

/// The reply where no note has the identifier.
pub open spec fn absent_reply(id: Seq<char>) -> ReplyView {
    generic_reply(STATUS_NOT_FOUND as int, "fail"@, not_found_message(id))
}

/// The reply to a liveness probe.
pub open spec fn health_reply() -> ReplyView {
    generic_reply(STATUS_OK as int, "success"@, "Build CRUD API with Rust and MongoDB"@)
}

/// The reply that carries a page of notes.
pub open spec fn list_reply(list: NoteListView) -> ReplyView {
    ReplyView { code: STATUS_OK as int, body: BodyView::List(list) }
}

/// The reply to a create that the layer carried out.
pub open spec fn created_reply(made: Option<SingleNoteView>) -> ReplyView {
    ReplyView {
        code: STATUS_CREATED as int,
        body: match made {
            Some(note) => BodyView::Note(note),
            None => BodyView::Null,
        },
    }
}

/// The reply to a read or an update: the note, or the answer that none
/// has the identifier.
pub open spec fn note_reply(id: Seq<char>, found: Option<SingleNoteView>) -> ReplyView {
    match found {
        Some(note) => ReplyView { code: STATUS_OK as int, body: BodyView::Note(note) },
        None => absent_reply(id),
    }
}

/// The reply to a delete: no content, or the answer that no note has the
/// identifier.
pub open spec fn deleted_reply(id: Seq<char>, done: Option<()>) -> ReplyView {
    match done {
        Some(_) => ReplyView { code: STATUS_NO_CONTENT as int, body: BodyView::Empty },
        None => absent_reply(id),
    }
}

/// What a handler makes of the layer's outcome on one note.
pub open spec fn note_handled(
    id: Seq<char>,
    outcome: Result<Option<SingleNoteView>, ErrorView>,
) -> Result<ReplyView, RejectionView> {
    match outcome {
        Ok(found) => Ok(note_reply(id, found)),
        Err(e) => Err(rejected(e)),
    }
}

/// What the create handler makes of the layer's outcome.
pub open spec fn create_handled(outcome: Result<Option<SingleNoteView>, ErrorView>) -> Result<
    ReplyView,
    RejectionView,
> {
    match outcome {
        Ok(made) => Ok(created_reply(made)),
        Err(e) => Err(rejected(e)),
    }
}

/// What the delete handler makes of the layer's outcome.
pub open spec fn delete_handled(id: Seq<char>, outcome: Result<Option<()>, ErrorView>) -> Result<
    ReplyView,
    RejectionView,
> {
    match outcome {
        Ok(done) => Ok(deleted_reply(id, done)),
        Err(e) => Err(rejected(e)),
    }
}

/// The reply that a client gets in the end: the handler's, or the answer
/// to its rejection.
pub open spec fn final_reply(outcome: Result<ReplyView, RejectionView>) -> ReplyView {
    match outcome {
        Ok(reply) => reply,
        Err(rejection) => rejection_reply(rejection),
    }
}

/// Answers that no note has this identifier.
pub fn reply_absent(id: &str) -> (r: Reply)
    ensures
        r@ == absent_reply(id@),
{
    let message: String = String::from_str("Note with ID: ").concat(id).concat(" not found");
    Reply::generic(STATUS_NOT_FOUND, "fail", message.as_str())
}

/// Answers a list request that the layer carried out.
pub fn reply_list(list: NoteListResponse) -> (r: Reply)
    ensures
        r@ == list_reply(list@),
{
    Reply { code: STATUS_OK, body: Body::List(list) }
}

/// Answers a create that the layer carried out.
pub fn reply_created(made: Option<SingleNoteResponse>) -> (r: Reply)
    ensures
        r@ == created_reply(
            match made {
                Some(n) => Some(n@),
                None => None,
            },
        ),
{
    match made {
        Some(note) => Reply { code: STATUS_CREATED, body: Body::Note(note) },
        None => Reply { code: STATUS_CREATED, body: Body::Null },
    }
}

/// Answers a read or an update that the layer carried out.
pub fn reply_note(id: &str, found: Option<SingleNoteResponse>) -> (r: Reply)
    ensures
        r@ == note_reply(
            id@,
            match found {
                Some(n) => Some(n@),
                None => None,
            },
        ),
{
    match found {
        Some(note) => Reply { code: STATUS_OK, body: Body::Note(note) },
        None => reply_absent(id),
    }
}

/// Answers a delete that the layer carried out.
pub fn reply_deleted(id: &str, done: Option<()>) -> (r: Reply)
    ensures
        r@ == deleted_reply(id@, done),
{
    match done {
        Some(_) => Reply { code: STATUS_NO_CONTENT, body: Body::Empty },
        None => reply_absent(id),
    }
}

/// Answers a liveness probe.
pub fn health_checker_handler() -> (r: Result<Reply, Rejection>)
    ensures
        handled(r) == Ok::<ReplyView, RejectionView>(health_reply()),
{
    Ok(Reply::generic(STATUS_OK, "success", "Build CRUD API with Rust and MongoDB"))
}

/// Lists one page of notes: ten notes and the first page where the request
/// names none.
pub fn notes_list_handler(opts: FilterOptions, db: &DB) -> (r: Result<Reply, Rejection>)
    requires
        db.wf(),
        opts.in_range(),
    ensures
        handled(r) == Ok::<ReplyView, RejectionView>(
            list_reply(list_outcome(db@, opts.limit_or_default(), opts.page_or_default())),
        ),
{
    let limit: usize = match opts.limit {
        Some(l) => l,
        None => DEFAULT_LIMIT,
    };
    let page: usize = match opts.page {
        Some(p) => p,
        None => DEFAULT_PAGE,
    };
    match db.fetch_notes(limit as i64, page as i64) {
        Ok(list) => Ok(reply_list(list)),
        Err(e) => Err(e.reject()),
    }
}

/// Creates a note and answers with it.
pub fn create_note_handler(body: CreateNoteSchema, db: &mut DB) -> (r: Result<Reply, Rejection>)
    requires
        old(db).wf(),
    ensures
        final(db).wf(),
        exists|id: Seq<u8>, now: int|
            {
                &&& id.len() == 12
                &&& final(db)@ == #[trigger] created_state(old(db)@, body@, id, now)
                &&& handled(r) == create_handled(create_outcome(old(db)@, body@, id, now))
            },
{
    match db.create_note(&body) {
        Ok(made) => Ok(reply_created(made)),
        Err(e) => Err(e.reject()),
    }
}

/// Reads the note with this identifier and answers with it.
pub fn get_note_handler(id: String, db: &DB) -> (r: Result<Reply, Rejection>)
    requires
        db.wf(),
    ensures
        handled(r) == note_handled(id@, get_outcome(db@, id@)),
{
    match db.get_note(id.as_str()) {
        Ok(found) => Ok(reply_note(id.as_str(), found)),
        Err(e) => Err(e.reject()),
    }
}

/// Changes the note with this identifier and answers with the note after
/// the change.
pub fn edit_note_handler(id: String, body: UpdateNoteSchema, db: &mut DB) -> (r: Result<
    Reply,
    Rejection,
>)
    requires
        old(db).wf(),
    ensures
        final(db).wf(),
        exists|now: int|
            {
                &&& final(db)@ == #[trigger] edited_state(old(db)@, id@, body@, now)
                &&& handled(r) == note_handled(id@, edit_outcome(old(db)@, id@, body@, now))
            },
{
    match db.edit_note(id.as_str(), &body) {
        Ok(found) => Ok(reply_note(id.as_str(), found)),
        Err(e) => Err(e.reject()),
    }
}

/// Deletes the note with this identifier.
pub fn delete_note_handler(id: String, db: &mut DB) -> (r: Result<Reply, Rejection>)
    requires
        old(db).wf(),
    ensures
        final(db).wf(),
        final(db)@ == deleted_state(old(db)@, id@),
        handled(r) == delete_handled(id@, delete_outcome(old(db)@, id@)),
{
    match db.delete_note(id.as_str()) {
        Ok(done) => Ok(reply_deleted(id.as_str(), done)),
        Err(e) => Err(e.reject()),
    }
}

/// The reply that a client gets in the end: a handler's own, or the answer
/// to its rejection.
pub fn recover(outcome: Result<Reply, Rejection>) -> (r: Reply)
    ensures
        r@ == final_reply(handled(outcome)),
{
    match outcome {
        Ok(reply) => reply,
        Err(rejection) => handle_rejection(&rejection),
    }
}

} // verus!
