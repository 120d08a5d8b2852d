//! The exchange between the data-access layer and its store. An operation
//! begins with a step: either it is done at once, or it has a call for the
//! store. Each answer of the store gives the next step, until the
//! operation is done. Whoever holds the store makes the calls.

use vstd::prelude::*;
use crate::error::{classify_insert_failure, insert_failure_kind, Error, ErrorKind, ErrorView};
use crate::model::{
    doc_to_note, new_record, records_of, shown, shown_or_missing, single_note_response, NoteModel,
    NoteRecord,
};
use crate::oid::{decode_hex, is_object_id_text, NoteId};
use crate::response::{
    NoteListResponse, NoteListView, NoteResponse, SingleNoteResponse, SingleNoteView,
};
use crate::schema::{page_in_range, CreateNoteSchema, CreateView, UpdateNoteSchema, UpdateView};

verus! {

/// What the layer asks of the store.
#[derive(Clone, Debug, PartialEq, Eq)]
pub enum StoreCall {
    /// The notes that follow the first `skip`, up to `limit` of them.
    Find { skip: u64, limit: i64 },
    /// Put this note into the collection, under the unique index on titles.
    InsertOne(NoteModel),
    /// The note with this identifier.
    FindOne(NoteId),
    /// Merge the update into the note with this identifier, and give the
    /// note after the merge.
    FindOneAndUpdate { id: NoteId, update: UpdateNoteSchema, now: i64 },
    /// Delete the note with this identifier.
    DeleteOne(NoteId),
}

/// What a `StoreCall` holds.
pub enum CallView {
    Find { skip: int, limit: int },
    InsertOne(NoteRecord),
    FindOne(Seq<u8>),
    FindOneAndUpdate { id: Seq<u8>, update: UpdateView, now: int },
    DeleteOne(Seq<u8>),
}

impl View for StoreCall {
    type V = CallView;

    open spec fn view(&self) -> CallView {
        match self {
            StoreCall::Find { skip, limit } => CallView::Find {
                skip: *skip as int,
                limit: *limit as int,
            },
            StoreCall::InsertOne(note) => CallView::InsertOne(note@),
            StoreCall::FindOne(id) => CallView::FindOne(id@),
            StoreCall::FindOneAndUpdate { id, update, now } => CallView::FindOneAndUpdate {
                id: id@,
                update: update@,
                now: *now as int,
            },
            StoreCall::DeleteOne(id) => CallView::DeleteOne(id@),
        }
    }
}

/// What the store answers.
#[derive(Clone, Debug, PartialEq, Eq)]
pub enum StoreAnswer {
    /// The notes found, in the store's order.
    Notes(Vec<NoteModel>),
    /// The identifier under which the note was put in.
    Inserted(NoteId),
    /// The note found, if any.
    Found(Option<NoteModel>),
    /// The number of notes deleted.
    Deleted(u64),
    /// The call's argument could not be put into the store's document form.
    NotEncoded { message: String },
    /// The store failed: its code, where it gave one, and its message.
    Failed { code: Option<i32>, message: String },
}

/// What a `StoreAnswer` holds.
pub enum AnswerView {
    Notes(Seq<NoteRecord>),
    Inserted(Seq<u8>),
    Found(Option<NoteRecord>),
    Deleted(int),
    NotEncoded { message: Seq<char> },
    Failed { code: Option<i32>, message: Seq<char> },
}

/// What an optional note holds.
pub open spec fn found_view(found: Option<NoteModel>) -> Option<NoteRecord> {
    match found {
        Some(n) => Some(n@),
        None => None,
    }
}

impl View for StoreAnswer {
    type V = AnswerView;

    open spec fn view(&self) -> AnswerView {
        match self {
            StoreAnswer::Notes(notes) => AnswerView::Notes(records_of(notes@)),
            StoreAnswer::Inserted(id) => AnswerView::Inserted(id@),
            StoreAnswer::Found(found) => AnswerView::Found(found_view(*found)),
            StoreAnswer::Deleted(n) => AnswerView::Deleted(*n as int),
            StoreAnswer::NotEncoded { message } => AnswerView::NotEncoded { message: message@ },
            StoreAnswer::Failed { code, message } => AnswerView::Failed {
                code: *code,
                message: message@,
            },
        }
    }
}

/// The answer that an operation waits for.
#[derive(Clone, Copy, Debug, PartialEq, Eq, Structural)]
pub enum Pending {
    /// The notes of a page.
    List,
    /// The identifier of the note put in.
    Insert,
    /// The note that was put in, read back.
    ReadBack,
    /// The note asked for.
    Read,
    /// The note after the update.
    Update,
    /// The number of notes deleted.
    Delete,
}

/// What an operation gives in the end.
#[derive(Clone, Debug, PartialEq, Eq)]
pub enum Outcome {
    /// A page of notes.
    List(NoteListResponse),
    /// One note, or nothing where no note has the identifier.
    Note(Option<SingleNoteResponse>),
    /// Done, or nothing where no note has the identifier.
    Deleted(Option<()>),
    /// A failure.
    Failed(Error),
}

/// What an `Outcome` holds.
pub enum OutcomeView {
    List(NoteListView),
    Note(Option<SingleNoteView>),
    Deleted(Option<()>),
    Failed(ErrorView),
}

impl View for Outcome {
    type V = OutcomeView;

    open spec fn view(&self) -> OutcomeView {
        match self {
            Outcome::List(l) => OutcomeView::List(l@),
            Outcome::Note(Some(n)) => OutcomeView::Note(Some(n@)),
            Outcome::Note(None) => OutcomeView::Note(None),
            Outcome::Deleted(d) => OutcomeView::Deleted(*d),
            Outcome::Failed(e) => OutcomeView::Failed(e@),
        }
    }
}

/// One step of an operation: a call for the store and the answer awaited,
/// or the end.
#[derive(Clone, Debug, PartialEq, Eq)]
pub enum Step {
    Call(Pending, StoreCall),
    Done(Outcome),
}

/// What a `Step` holds.
pub enum StepView {
    Call(Pending, CallView),
    Done(OutcomeView),
}

impl View for Step {
    type V = StepView;

    open spec fn view(&self) -> StepView {
        match self {
            Step::Call(p, c) => StepView::Call(*p, c@),
            Step::Done(o) => StepView::Done(o@),
        }
    }
}

/// The failure of an identifier that is not well formed: it carries the
/// offending text.
pub open spec fn invalid_id(text: Seq<char>) -> ErrorView {
    ErrorView { kind: ErrorKind::InvalidId, cause: text }
}

/// The failure of an answer that does not fit the call.
pub open spec fn unexpected_answer() -> ErrorView {
    ErrorView { kind: ErrorKind::Query, cause: "unexpected answer from the store"@ }
}

/// The first step of a list: ask for the page.
pub open spec fn list_first(limit: int, page: int) -> StepView {
    StepView::Call(Pending::List, CallView::Find { skip: (page - 1) * limit, limit })
}

/// The first step of a create: put the new record in.
pub open spec fn create_first(body: CreateView, id: Seq<u8>, now: int) -> StepView {
    StepView::Call(Pending::Insert, CallView::InsertOne(new_record(body, id, now)))
}

/// The first step of a read: an ill-formed identifier ends it, a
/// well-formed one is asked for.
pub open spec fn read_first(text: Seq<char>) -> StepView {
    if is_object_id_text(text) {
        StepView::Call(Pending::Read, CallView::FindOne(decode_hex(text)))
    } else {
        StepView::Done(OutcomeView::Failed(invalid_id(text)))
    }
}

/// The first step of an update.
pub open spec fn update_first(text: Seq<char>, update: UpdateView, now: int) -> StepView {
    if is_object_id_text(text) {
        StepView::Call(
            Pending::Update,
            CallView::FindOneAndUpdate { id: decode_hex(text), update, now },
        )
    } else {
        StepView::Done(OutcomeView::Failed(invalid_id(text)))
    }
}

/// The first step of a delete.
pub open spec fn delete_first(text: Seq<char>) -> StepView {
    if is_object_id_text(text) {
        StepView::Call(Pending::Delete, CallView::DeleteOne(decode_hex(text)))
    } else {
        StepView::Done(OutcomeView::Failed(invalid_id(text)))
    }
}

/// Whether every record up to `end` can be shown.
pub open spec fn all_shown(notes: Seq<NoteRecord>, end: int) -> bool {
    forall|i: int| 0 <= i < end ==> shown_or_missing(#[trigger] notes[i]) is Ok
}

/// The place of the first record that cannot be shown.
pub open spec fn first_unshown(notes: Seq<NoteRecord>) -> int {
    choose|i: int|
        0 <= i < notes.len() && shown_or_missing(#[trigger] notes[i]) is Err && all_shown(notes, i)
}

/// What listing records gives: every record as it is shown, with the
/// count, or the failure of the first record that cannot be shown.
pub open spec fn list_result(notes: Seq<NoteRecord>) -> OutcomeView {
    if all_shown(notes, notes.len() as int) {
        OutcomeView::List(
            NoteListView {
                status: "success"@,
                results: notes.len(),
                notes: Seq::new(notes.len(), |i: int| shown(notes[i])),
            },
        )
    } else {
        match shown_or_missing(notes[first_unshown(notes)]) {
            Err(e) => OutcomeView::Failed(e),
            Ok(_) => OutcomeView::Failed(unexpected_answer()),
        }
    }
}

/// What a found note gives: the note in its envelope, nothing where none
/// was found, a failure where the record cannot be shown.
pub open spec fn found_result(found: Option<NoteRecord>) -> OutcomeView {
    match found {
        None => OutcomeView::Note(None),
        Some(note) => match shown_or_missing(note) {
            Ok(v) => OutcomeView::Note(Some(SingleNoteView { status: "success"@, note: v })),
            Err(e) => OutcomeView::Failed(e),
        },
    }
}

/// The step that follows an answer. A failed insert is classified; any
/// other failure of the store is a failed query; an argument that could not
/// be encoded is a serialization failure; an answer that does not fit the
/// call is a failed query too.
pub open spec fn next_step(pending: Pending, answer: AnswerView) -> StepView {
    match answer {
        AnswerView::NotEncoded { message } => StepView::Done(
            OutcomeView::Failed(ErrorView { kind: ErrorKind::Serialization, cause: message }),
        ),
        AnswerView::Failed { code, message } => StepView::Done(
            OutcomeView::Failed(
                ErrorView {
                    kind: if pending == Pending::Insert {
                        insert_failure_kind(code, message)
                    } else {
                        ErrorKind::Query
                    },
                    cause: message,
                },
            ),
        ),
        AnswerView::Notes(notes) => StepView::Done(
            if pending == Pending::List {
                list_result(notes)
            } else {
                OutcomeView::Failed(unexpected_answer())
            },
        ),
        AnswerView::Inserted(id) => if pending == Pending::Insert {
            StepView::Call(Pending::ReadBack, CallView::FindOne(id))
        } else {
            StepView::Done(OutcomeView::Failed(unexpected_answer()))
        },
        AnswerView::Found(found) => StepView::Done(
            if pending == Pending::ReadBack || pending == Pending::Read || pending
                == Pending::Update {
                found_result(found)
            } else {
                OutcomeView::Failed(unexpected_answer())
            },
        ),
        AnswerView::Deleted(n) => StepView::Done(
            if pending == Pending::Delete {
                OutcomeView::Deleted(
                    if n == 0 {
                        None
                    } else {
                        Some(())
                    },
                )
            } else {
                OutcomeView::Failed(unexpected_answer())
            },
        ),
    }
}

/// What an operation on one note makes of its outcome.
pub open spec fn as_note(outcome: OutcomeView) -> Result<Option<SingleNoteView>, ErrorView> {
    match outcome {
        OutcomeView::Note(n) => Ok(n),
        OutcomeView::Failed(e) => Err(e),
        _ => Err(unexpected_answer()),
    }
}

/// What a list makes of its outcome.
pub open spec fn as_list(outcome: OutcomeView) -> Result<NoteListView, ErrorView> {
    match outcome {
        OutcomeView::List(l) => Ok(l),
        OutcomeView::Failed(e) => Err(e),
        _ => Err(unexpected_answer()),
    }
}

/// What a delete makes of its outcome.
pub open spec fn as_deleted(outcome: OutcomeView) -> Result<Option<()>, ErrorView> {
    match outcome {
        OutcomeView::Deleted(d) => Ok(d),
        OutcomeView::Failed(e) => Err(e),
        _ => Err(unexpected_answer()),
    }
}

/// What an operation on one note gives: the note in its envelope, nothing
/// where no note has the identifier, or a failure.
pub open spec fn note_outcome(
    r: Result<Option<SingleNoteResponse>, Error>,
) -> Result<Option<SingleNoteView>, ErrorView> {
    match r {
        Ok(Some(n)) => Ok(Some(n@)),
        Ok(None) => Ok(None),
        Err(e) => Err(e@),
    }
}

/// What a delete gives: done, nothing where no note has the identifier, or
/// a failure.
pub open spec fn delete_outcome_view(r: Result<Option<()>, Error>) -> Result<Option<()>, ErrorView> {
    match r {
        Ok(done) => Ok(done),
        Err(e) => Err(e@),
    }
}

/// What a list gives: the page, or a failure.
pub open spec fn list_outcome_view(r: Result<NoteListResponse, Error>) -> Result<
    NoteListView,
    ErrorView,
> {
    match r {
        Ok(l) => Ok(l@),
        Err(e) => Err(e@),
    }
}

fn unexpected() -> (r: Error)
    ensures
        r@ == unexpected_answer(),
{
    Error::MongoQueryError(String::from_str("unexpected answer from the store"))
}

fn invalid(id: &str) -> (r: Step)
    ensures
        r@ == StepView::Done(OutcomeView::Failed(invalid_id(id@))),
{
    Step::Done(Outcome::Failed(Error::InvalidIDError(String::from_str(id))))
}

impl Outcome {
    /// The outcome of an operation on one note.
    pub fn into_note(self) -> (r: Result<Option<SingleNoteResponse>, Error>)
        ensures
            note_outcome(r) == as_note(self@),
    {
        match self {
            Outcome::Note(n) => Ok(n),
            Outcome::Failed(e) => Err(e),
            _ => Err(unexpected()),
        }
    }

    /// The outcome of a list.
    pub fn into_list(self) -> (r: Result<NoteListResponse, Error>)
        ensures
            list_outcome_view(r) == as_list(self@),
    {
        match self {
            Outcome::List(l) => Ok(l),
            Outcome::Failed(e) => Err(e),
            _ => Err(unexpected()),
        }
    }

    /// The outcome of a delete.
    pub fn into_deleted(self) -> (r: Result<Option<()>, Error>)
        ensures
            delete_outcome_view(r) == as_deleted(self@),
    {
        match self {
            Outcome::Deleted(d) => Ok(d),
            Outcome::Failed(e) => Err(e),
            _ => Err(unexpected()),
        }
    }
}

/// The number of notes that come before a page: `(page - 1) * limit`.
pub fn skip_of(limit: i64, page: i64) -> (r: u64)
    requires
        page_in_range(limit as int, page as int),
    ensures
        r == (page - 1) * limit,
{
    assert((page - 1) * limit >= 0) by (nonlinear_arith)
        requires
            page >= 1,
            limit >= 1,
    ;
    let skip: i64 = (page - 1) * limit;
    skip as u64
}

/// Begins a list of one page.
pub fn begin_list(limit: i64, page: i64) -> (r: Step)
    requires
        page_in_range(limit as int, page as int),
    ensures
        r@ == list_first(limit as int, page as int),
{
    Step::Call(Pending::List, StoreCall::Find { skip: skip_of(limit, page), limit })
}

/// Begins a create: the new note gets this identifier and is created at
/// `now`.
pub fn begin_create(body: &CreateNoteSchema, id: NoteId, now: i64) -> (r: Step)
    ensures
        r@ == create_first(body@, id@, now as int),
{
    Step::Call(Pending::Insert, StoreCall::InsertOne(NoteModel::new(body, id, now)))
}

/// Begins a read of the note with this identifier.
pub fn begin_read(id: &str) -> (r: Step)
    ensures
        r@ == read_first(id@),
{
    match NoteId::parse(id) {
        Some(oid) => Step::Call(Pending::Read, StoreCall::FindOne(oid)),
        None => invalid(id),
    }
}

/// Begins an update of the note with this identifier, at `now`.
pub fn begin_update(id: &str, update: UpdateNoteSchema, now: i64) -> (r: Step)
    ensures
        r@ == update_first(id@, update@, now as int),
{
    match NoteId::parse(id) {
        Some(oid) => Step::Call(
            Pending::Update,
            StoreCall::FindOneAndUpdate { id: oid, update, now },
        ),
        None => invalid(id),
    }
}

/// Begins a delete of the note with this identifier.
pub fn begin_delete(id: &str) -> (r: Step)
    ensures
        r@ == delete_first(id@),
{
    match NoteId::parse(id) {
        Some(oid) => Step::Call(Pending::Delete, StoreCall::DeleteOne(oid)),
        None => invalid(id),
    }
}

/// Shows every note of a list, and puts them into the envelope of a
/// successful answer with their count. The first record that cannot be
/// shown fails the list.
pub fn show_all(notes: &Vec<NoteModel>) -> (r: Outcome)
    ensures
        r@ == list_result(records_of(notes@)),
{
    let ghost records = records_of(notes@);
    let n: usize = notes.len();
    let mut out: Vec<NoteResponse> = Vec::new();
    let mut i: usize = 0;
    while i < n
        invariant
            n == notes@.len(),
            records == records_of(notes@),
            i <= n,
            out@.len() == i,
            all_shown(records, i as int),
            forall|k: int| 0 <= k < i ==> (#[trigger] out@[k])@ == shown(records[k]),
        decreases n - i,
    {
        match doc_to_note(&notes[i]) {
            Ok(note) => {
                out.push(note);
            },
            Err(e) => {
                proof {
                    let first = first_unshown(records);
                    assert(shown_or_missing(records[i as int]) is Err);
                    assert(0 <= first < records.len() && shown_or_missing(records[first]) is Err
                        && all_shown(records, first));
                    assert(first == i);
                }
                return Outcome::Failed(e);
            },
        }
        i = i + 1;
    }
    let list = NoteListResponse { status: String::from_str("success"), results: out.len(), notes: out };
    assert(list@.notes =~= Seq::new(records.len(), |i: int| shown(records[i])));
    Outcome::List(list)
}

/// Shows a found note in its envelope.
pub fn show_found(found: &Option<NoteModel>) -> (r: Outcome)
    ensures
        r@ == found_result(found_view(*found)),
{
    match found {
        None => Outcome::Note(None),
        Some(note) => match doc_to_note(note) {
            Ok(shown_note) => Outcome::Note(Some(single_note_response(shown_note))),
            Err(e) => Outcome::Failed(e),
        },
    }
}

/// The step that follows the store's answer to a call.
pub fn advance(pending: Pending, answer: StoreAnswer) -> (r: Step)
    ensures
        r@ == next_step(pending, answer@),
{
    match answer {
        StoreAnswer::NotEncoded { message } => Step::Done(
            Outcome::Failed(Error::MongoSerializeBsonError(message)),
        ),
        StoreAnswer::Failed { code, message } => {
            if pending == Pending::Insert {
                Step::Done(Outcome::Failed(classify_insert_failure(code, message)))
            } else {
                Step::Done(Outcome::Failed(Error::MongoQueryError(message)))
            }
        },
        StoreAnswer::Notes(notes) => {
            if pending == Pending::List {
                Step::Done(show_all(&notes))
            } else {
                Step::Done(Outcome::Failed(unexpected()))
            }
        },
        StoreAnswer::Inserted(id) => {
            if pending == Pending::Insert {
                Step::Call(Pending::ReadBack, StoreCall::FindOne(id))
            } else {
                Step::Done(Outcome::Failed(unexpected()))
            }
        },
        StoreAnswer::Found(found) => {
            if pending == Pending::ReadBack || pending == Pending::Read || pending
                == Pending::Update {
                Step::Done(show_found(&found))
            } else {
                Step::Done(Outcome::Failed(unexpected()))
            }
        },
        StoreAnswer::Deleted(n) => {
            if pending == Pending::Delete {
                Step::Done(
                    Outcome::Deleted(
                        if n == 0 {
                            None
                        } else {
                            Some(())
                        },
                    ),
                )
            } else {
                Step::Done(Outcome::Failed(unexpected()))
            }
        },
    }
}

} // verus!
