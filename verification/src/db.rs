//! The data-access layer: a collection of notes in which no title and no
//! identifier occurs twice, and the operations that list, create, read,
//! change and delete notes.

use vstd::prelude::*;
use crate::error::{duplicate_key_signature, Error, ErrorKind, ErrorView, DUPLICATE_KEY_CODE};
use crate::flow::{
    advance, all_shown, begin_create, begin_delete, begin_list, begin_read, begin_update,
    create_first, delete_first, delete_outcome_view, invalid_id, list_first, list_outcome_view,
    next_step, note_outcome, read_first, update_first, AnswerView, CallView, Outcome, OutcomeView,
    Pending, Step, StepView, StoreAnswer, StoreCall,
};
use crate::model::{
    merged, new_record, note_envelope, now_millis, records_of, shown, shown_or_missing, NoteModel,
    NoteRecord,
};
use crate::oid::{decode_hex, is_object_id_text, NoteId};
use crate::response::{NoteListResponse, NoteListView, SingleNoteResponse, SingleNoteView};
use crate::schema::{
    page_in_range, text_view, CreateNoteSchema, CreateView, UpdateNoteSchema, UpdateView,
};

verus! {

/// Whether some note of the collection has this identifier.
pub open spec fn has_id(notes: Seq<NoteRecord>, id: Seq<u8>) -> bool {
    exists|i: int| 0 <= i < notes.len() && (#[trigger] notes[i]).id == id
}

/// The place of a note with this identifier, where there is one.
pub open spec fn index_of_id(notes: Seq<NoteRecord>, id: Seq<u8>) -> int {
    choose|i: int| 0 <= i < notes.len() && (#[trigger] notes[i]).id == id
}

/// Whether some note of the collection has this title.
pub open spec fn has_title(notes: Seq<NoteRecord>, title: Seq<char>) -> bool {
    exists|i: int| 0 <= i < notes.len() && (#[trigger] notes[i]).title == title
}

/// Whether a note other than the one at `at` has this title.
pub open spec fn title_held_elsewhere(notes: Seq<NoteRecord>, title: Seq<char>, at: int) -> bool {
    exists|i: int| 0 <= i < notes.len() && i != at && (#[trigger] notes[i]).title == title
}

/// What holds of a collection at all times: every record is complete, and
/// no two records share an identifier or a title.
pub open spec fn well_formed(notes: Seq<NoteRecord>) -> bool {
    &&& forall|i: int| 0 <= i < notes.len() ==> (#[trigger] notes[i]).complete()
    &&& forall|i: int, j: int|
        0 <= i < j < notes.len() ==> (#[trigger] notes[i]).id != (#[trigger] notes[j]).id
            && notes[i].title != notes[j].title
}

/// The failure with which the collection's unique index refuses a note.
pub open spec fn duplicate_key() -> ErrorView {
    ErrorView { kind: ErrorKind::DuplicateKey, cause: duplicate_key_signature() }
}

/// The failure of an update that the collection's unique index refuses.
pub open spec fn refused_update() -> ErrorView {
    ErrorView { kind: ErrorKind::Query, cause: duplicate_key_signature() }
}

/// The notes that follow the first `skip`, up to `limit` of them, in the
/// collection's order; none where `skip` reaches behind the last note.
pub open spec fn window(notes: Seq<NoteRecord>, skip: int, limit: int) -> Seq<NoteRecord> {
    let start = if skip < notes.len() {
        skip
    } else {
        notes.len() as int
    };
    let end = if skip + limit < notes.len() {
        skip + limit
    } else {
        notes.len() as int
    };
    notes.subrange(start, end)
}

/// The notes of one page: those that follow the first `(page - 1) * limit`,
/// up to `limit` of them. A page behind the last note is empty.
pub open spec fn page_of(notes: Seq<NoteRecord>, limit: int, page: int) -> Seq<NoteRecord> {
    window(notes, (page - 1) * limit, limit)
}

/// What listing a page gives: its notes as they are shown, and their count.
pub open spec fn list_outcome(notes: Seq<NoteRecord>, limit: int, page: int) -> NoteListView {
    let chosen = page_of(notes, limit, page);
    NoteListView {
        status: "success"@,
        results: chosen.len(),
        notes: Seq::new(chosen.len(), |i: int| shown(chosen[i])),
    }
}

/// Whether the collection refuses a new note: its title or its identifier
/// is taken.
pub open spec fn insert_refused(notes: Seq<NoteRecord>, body: CreateView, id: Seq<u8>) -> bool {
    has_title(notes, body.title) || has_id(notes, id)
}

/// The collection after a create: the new record comes last, or nothing
/// changes where the collection refuses it.
pub open spec fn created_state(
    notes: Seq<NoteRecord>,
    body: CreateView,
    id: Seq<u8>,
    now: int,
) -> Seq<NoteRecord> {
    if insert_refused(notes, body, id) {
        notes
    } else {
        notes.push(new_record(body, id, now))
    }
}

/// What a create gives: the new note, or a duplicate-key failure.
pub open spec fn create_outcome(
    notes: Seq<NoteRecord>,
    body: CreateView,
    id: Seq<u8>,
    now: int,
) -> Result<Option<SingleNoteView>, ErrorView> {
    if insert_refused(notes, body, id) {
        Err(duplicate_key())
    } else {
        Ok(Some(note_envelope(new_record(body, id, now))))
    }
}

/// What reading a note gives: the note with this identifier, nothing where
/// there is none, a failure where the text is no identifier.
pub open spec fn get_outcome(notes: Seq<NoteRecord>, text: Seq<char>) -> Result<
    Option<SingleNoteView>,
    ErrorView,
> {
    if !is_object_id_text(text) {
        Err(invalid_id(text))
    } else if !has_id(notes, decode_hex(text)) {
        Ok(None)
    } else {
        Ok(Some(note_envelope(notes[index_of_id(notes, decode_hex(text))])))
    }
}

/// Whether the collection refuses an update of the note at `at`: it names
/// a title that another note holds.
pub open spec fn update_refused(notes: Seq<NoteRecord>, at: int, update: UpdateView) -> bool {
    match update.title {
        Some(t) => title_held_elsewhere(notes, t, at),
        None => false,
    }
}

/// Whether an update changes the collection: the text is an identifier, a
/// note has it, and the collection does not refuse the update.
pub open spec fn update_applies(notes: Seq<NoteRecord>, text: Seq<char>, update: UpdateView) -> bool {
    &&& is_object_id_text(text)
    &&& has_id(notes, decode_hex(text))
    &&& !update_refused(notes, index_of_id(notes, decode_hex(text)), update)
}

/// The collection after an update: the note with this identifier holds the
/// merged record, every other note is as it was.
pub open spec fn edited_state(
    notes: Seq<NoteRecord>,
    text: Seq<char>,
    update: UpdateView,
    now: int,
) -> Seq<NoteRecord> {
    if update_applies(notes, text, update) {
        let at = index_of_id(notes, decode_hex(text));
        notes.update(at, merged(notes[at], update, now))
    } else {
        notes
    }
}

/// What an update gives: the note after the merge, nothing where no note
/// has the identifier, or a failure.
pub open spec fn edit_outcome(
    notes: Seq<NoteRecord>,
    text: Seq<char>,
    update: UpdateView,
    now: int,
) -> Result<Option<SingleNoteView>, ErrorView> {
    if !is_object_id_text(text) {
        Err(invalid_id(text))
    } else if !has_id(notes, decode_hex(text)) {
        Ok(None)
    } else {
        let at = index_of_id(notes, decode_hex(text));
        if update_refused(notes, at, update) {
            Err(refused_update())
        } else {
            Ok(Some(note_envelope(merged(notes[at], update, now))))
        }
    }
}

/// The collection after a delete: the note with this identifier is gone,
/// the others keep their order.
pub open spec fn deleted_state(notes: Seq<NoteRecord>, text: Seq<char>) -> Seq<NoteRecord> {
    if is_object_id_text(text) && has_id(notes, decode_hex(text)) {
        notes.remove(index_of_id(notes, decode_hex(text)))
    } else {
        notes
    }
}

/// What a delete gives: done, nothing where no note has the identifier, a
/// failure where the text is no identifier.
pub open spec fn delete_outcome(notes: Seq<NoteRecord>, text: Seq<char>) -> Result<
    Option<()>,
    ErrorView,
> {
    if !is_object_id_text(text) {
        Err(invalid_id(text))
    } else if !has_id(notes, decode_hex(text)) {
        Ok(None)
    } else {
        Ok(Some(()))
    }
}

/// The note with this identifier, if the collection has one.
pub open spec fn find(notes: Seq<NoteRecord>, id: Seq<u8>) -> Option<NoteRecord> {
    if has_id(notes, id) {
        Some(notes[index_of_id(notes, id)])
    } else {
        None
    }
}

/// The calls that the collection takes: a page has room for a note at
/// least, and a record that is put in is complete.
pub open spec fn call_in_range(call: CallView) -> bool {
    match call {
        CallView::Find { skip, limit } => 0 <= skip && 1 <= limit,
        CallView::InsertOne(note) => note.complete(),
        _ => true,
    }
}

/// The steps whose call the collection takes.
pub open spec fn step_in_range(step: StepView) -> bool {
    match step {
        StepView::Call(_, call) => call_in_range(call),
        StepView::Done(_) => true,
    }
}

/// The calls that only read the collection.
pub open spec fn reads_only(call: CallView) -> bool {
    call is Find || call is FindOne
}

/// The steps that only read the collection.
pub open spec fn step_reads_only(step: StepView) -> bool {
    match step {
        StepView::Call(pending, call) => reads_only(call) && pending != Pending::Insert,
        StepView::Done(_) => true,
    }
}

/// The answer with which the unique index refuses a write.
pub open spec fn refusal() -> AnswerView {
    AnswerView::Failed { code: Some(DUPLICATE_KEY_CODE), message: duplicate_key_signature() }
}

/// Whether the collection refuses a record: its title or its identifier is
/// taken.
pub open spec fn record_refused(notes: Seq<NoteRecord>, note: NoteRecord) -> bool {
    has_title(notes, note.title) || has_id(notes, note.id)
}

/// What the collection answers to a call.
pub open spec fn store_answer(notes: Seq<NoteRecord>, call: CallView) -> AnswerView {
    match call {
        CallView::Find { skip, limit } => AnswerView::Notes(window(notes, skip, limit)),
        CallView::InsertOne(note) => if record_refused(notes, note) {
            refusal()
        } else {
            AnswerView::Inserted(note.id)
        },
        CallView::FindOne(id) => AnswerView::Found(find(notes, id)),
        CallView::FindOneAndUpdate { id, update, now } => if !has_id(notes, id) {
            AnswerView::Found(None)
        } else if update_refused(notes, index_of_id(notes, id), update) {
            refusal()
        } else {
            AnswerView::Found(Some(merged(notes[index_of_id(notes, id)], update, now)))
        },
        CallView::DeleteOne(id) => AnswerView::Deleted(
            if has_id(notes, id) {
                1
            } else {
                0
            },
        ),
    }
}

/// The collection after a call.
pub open spec fn store_after(notes: Seq<NoteRecord>, call: CallView) -> Seq<NoteRecord> {
    match call {
        CallView::InsertOne(note) => if record_refused(notes, note) {
            notes
        } else {
            notes.push(note)
        },
        CallView::FindOneAndUpdate { id, update, now } => if has_id(notes, id) && !update_refused(
            notes,
            index_of_id(notes, id),
            update,
        ) {
            notes.update(index_of_id(notes, id), merged(notes[index_of_id(notes, id)], update, now))
        } else {
            notes
        },
        CallView::DeleteOne(id) => if has_id(notes, id) {
            notes.remove(index_of_id(notes, id))
        } else {
            notes
        },
        _ => notes,
    }
}

/// The number of calls that a step may still lead to.
pub open spec fn calls_left(step: StepView) -> nat {
    match step {
        StepView::Done(_) => 0,
        StepView::Call(pending, _) => if pending == Pending::Insert {
            2
        } else {
            1
        },
    }
}

/// An operation carried out on the collection from a step on: the
/// collection after it, and what it gives.
pub open spec fn settled(notes: Seq<NoteRecord>, step: StepView) -> (Seq<NoteRecord>, OutcomeView)
    decreases calls_left(step),
{
    match step {
        StepView::Done(outcome) => (notes, outcome),
        StepView::Call(pending, call) => settled(
            store_after(notes, call),
            next_step(pending, store_answer(notes, call)),
        ),
    }
}

/// The outcome of an operation on one note, as an operation ends with it.
pub open spec fn note_end(r: Result<Option<SingleNoteView>, ErrorView>) -> OutcomeView {
    match r {
        Ok(n) => OutcomeView::Note(n),
        Err(e) => OutcomeView::Failed(e),
    }
}

/// The outcome of a delete, as an operation ends with it.
pub open spec fn delete_end(r: Result<Option<()>, ErrorView>) -> OutcomeView {
    match r {
        Ok(d) => OutcomeView::Deleted(d),
        Err(e) => OutcomeView::Failed(e),
    }
}

/// In a well-formed collection the note with an identifier has one place.
pub proof fn lemma_index_of_id(notes: Seq<NoteRecord>, id: Seq<u8>, at: int)
    requires
        well_formed(notes),
        0 <= at < notes.len(),
        notes[at].id == id,
    ensures
        has_id(notes, id),
        index_of_id(notes, id) == at,
{
    let found = index_of_id(notes, id);
    assert(0 <= found < notes.len() && notes[found].id == id);
    if found < at {
        assert(notes[found].id != notes[at].id);
    } else if at < found {
        assert(notes[at].id != notes[found].id);
    }
}

/// A call leaves the collection well formed.
pub proof fn lemma_call_keeps_well_formed(notes: Seq<NoteRecord>, call: CallView)
    requires
        well_formed(notes),
        call_in_range(call),
    ensures
        well_formed(store_after(notes, call)),
{
    let after = store_after(notes, call);
    match call {
        CallView::InsertOne(note) => {
            if !record_refused(notes, note) {
                assert forall|i: int, j: int| 0 <= i < j < after.len() implies (
                #[trigger] after[i]).id != (#[trigger] after[j]).id && after[i].title
                    != after[j].title by {
                    if j == notes.len() {
                        assert(notes[i].id != note.id);
                        assert(notes[i].title != note.title);
                    } else {
                        assert(notes[i].id != notes[j].id);
                    }
                }
                assert forall|i: int| 0 <= i < after.len() implies (
                #[trigger] after[i]).complete() by {
                    if i < notes.len() {
                        assert(notes[i].complete());
                    }
                }
            }
        },
        CallView::FindOneAndUpdate { id, update, now } => {
            if has_id(notes, id) && !update_refused(notes, index_of_id(notes, id), update) {
                let at = index_of_id(notes, id);
                let record = merged(notes[at], update, now);
                assert forall|i: int, j: int| 0 <= i < j < after.len() implies (
                #[trigger] after[i]).id != (#[trigger] after[j]).id && after[i].title
                    != after[j].title by {
                    assert(notes[i].id != notes[j].id);
                    assert(notes[i].title != notes[j].title);
                    if i == at {
                        assert(notes[j].title != record.title);
                    } else if j == at {
                        assert(notes[i].title != record.title);
                    }
                }
                assert forall|i: int| 0 <= i < after.len() implies (
                #[trigger] after[i]).complete() by {
                    assert(notes[i].complete());
                }
            }
        },
        CallView::DeleteOne(id) => {
            if has_id(notes, id) {
                let at = index_of_id(notes, id);
                assert forall|i: int| 0 <= i < after.len() implies (
                #[trigger] after[i]).complete() by {
                    if i < at {
                        assert(notes[i].complete());
                    } else {
                        assert(notes[i + 1].complete());
                    }
                }
                assert forall|i: int, j: int| 0 <= i < j < after.len() implies (
                #[trigger] after[i]).id != (#[trigger] after[j]).id && after[i].title
                    != after[j].title by {
                    let a = if i < at {
                        i
                    } else {
                        i + 1
                    };
                    let b = if j < at {
                        j
                    } else {
                        j + 1
                    };
                    assert(notes[a].id != notes[b].id);
                }
            }
        },
        _ => {},
    }
}

/// A list carried out on the collection gives the page, and changes
/// nothing.
pub proof fn lemma_list_settles(notes: Seq<NoteRecord>, limit: int, page: int)
    requires
        well_formed(notes),
        page_in_range(limit, page),
    ensures
        step_in_range(list_first(limit, page)),
        settled(notes, list_first(limit, page)) == (
            notes,
            OutcomeView::List(list_outcome(notes, limit, page)),
        ),
{
    reveal_with_fuel(settled, 3);
    assert((page - 1) * limit >= 0) by (nonlinear_arith)
        requires
            page >= 1,
            limit >= 1,
    ;
    let chosen = page_of(notes, limit, page);
    assert forall|i: int| 0 <= i < chosen.len() implies shown_or_missing(
        #[trigger] chosen[i],
    ) is Ok by {
        let skip = (page - 1) * limit;
        assert(notes[skip + i].complete());
    }
    assert(all_shown(chosen, chosen.len() as int));
}

/// A create carried out on the collection gives what `create_outcome`
/// says, and leaves the collection as `created_state` says.
pub proof fn lemma_create_settles(notes: Seq<NoteRecord>, body: CreateView, id: Seq<u8>, now: int)
    requires
        well_formed(notes),
        id.len() == 12,
    ensures
        step_in_range(create_first(body, id, now)),
        settled(notes, create_first(body, id, now)) == (
            created_state(notes, body, id, now),
            note_end(create_outcome(notes, body, id, now)),
        ),
{
    reveal_with_fuel(settled, 3);
    let record = new_record(body, id, now);
    if !insert_refused(notes, body, id) {
        let after = notes.push(record);
        lemma_call_keeps_well_formed(notes, CallView::InsertOne(record));
        lemma_index_of_id(after, id, notes.len() as int);
        assert(store_after(after, CallView::FindOne(id)) == after);
    }
}

/// A read carried out on the collection gives what `get_outcome` says, and
/// changes nothing.
pub proof fn lemma_read_settles(notes: Seq<NoteRecord>, text: Seq<char>)
    requires
        well_formed(notes),
    ensures
        step_in_range(read_first(text)),
        settled(notes, read_first(text)) == (notes, note_end(get_outcome(notes, text))),
{
    reveal_with_fuel(settled, 3);
    if is_object_id_text(text) && has_id(notes, decode_hex(text)) {
        assert(notes[index_of_id(notes, decode_hex(text))].complete());
    }
}

/// An update carried out on the collection gives what `edit_outcome` says,
/// and leaves the collection as `edited_state` says.
pub proof fn lemma_update_settles(
    notes: Seq<NoteRecord>,
    text: Seq<char>,
    update: UpdateView,
    now: int,
)
    requires
        well_formed(notes),
    ensures
        step_in_range(update_first(text, update, now)),
        settled(notes, update_first(text, update, now)) == (
            edited_state(notes, text, update, now),
            note_end(edit_outcome(notes, text, update, now)),
        ),
{
    reveal_with_fuel(settled, 3);
    if is_object_id_text(text) && has_id(notes, decode_hex(text)) {
        assert(notes[index_of_id(notes, decode_hex(text))].complete());
    }
}

/// A delete carried out on the collection gives what `delete_outcome`
/// says, and leaves the collection as `deleted_state` says.
pub proof fn lemma_delete_settles(notes: Seq<NoteRecord>, text: Seq<char>)
    requires
        well_formed(notes),
    ensures
        step_in_range(delete_first(text)),
        settled(notes, delete_first(text)) == (
            deleted_state(notes, text),
            delete_end(delete_outcome(notes, text)),
        ),
{
    reveal_with_fuel(settled, 3);
}

/// Where the store is found: its address, the database and the collection.
#[derive(Clone, Debug, PartialEq, Eq)]
pub struct StoreConfig {
    pub uri: String,
    pub database: String,
    pub collection: String,
}

/// What a `StoreConfig` holds.
pub struct ConfigView {
    pub uri: Seq<char>,
    pub database: Seq<char>,
    pub collection: Seq<char>,
}

impl View for StoreConfig {
    type V = ConfigView;

    open spec fn view(&self) -> ConfigView {
        ConfigView { uri: self.uri@, database: self.database@, collection: self.collection@ }
    }
}

/// The failure that names the first setting that is missing, taken in the
/// order address, database, collection; nothing where all three are given.
pub open spec fn missing_setting(
    uri: Option<Seq<char>>,
    database: Option<Seq<char>>,
    collection: Option<Seq<char>>,
) -> Option<ErrorView> {
    if uri.is_none() {
        Some(ErrorView { kind: ErrorKind::Connection, cause: "DATABASE_URL must be set."@ })
    } else if database.is_none() {
        Some(ErrorView { kind: ErrorKind::Connection, cause: "MONGO_INITDB_DATABASE must be set."@ })
    } else if collection.is_none() {
        Some(
            ErrorView { kind: ErrorKind::Connection, cause: "MONGODB_NOTE_COLLECTION must be set."@ },
        )
    } else {
        None
    }
}

impl StoreConfig {
    /// Reads the settings. All three must be given: the first that is
    /// missing is named in the failure.
    pub fn read(uri: Option<String>, database: Option<String>, collection: Option<String>) -> (r:
        Result<StoreConfig, Error>)
        ensures
            match r {
                Ok(config) => {
                    &&& missing_setting(text_view(uri), text_view(database), text_view(collection))
                        is None
                    &&& Some(config@.uri) == text_view(uri)
                    &&& Some(config@.database) == text_view(database)
                    &&& Some(config@.collection) == text_view(collection)
                },
                Err(e) => Some(e@) == missing_setting(
                    text_view(uri),
                    text_view(database),
                    text_view(collection),
                ),
            },
    {
        let uri: String = match uri {
            Some(u) => u,
            None => {
                return Err(Error::MongoError(String::from_str("DATABASE_URL must be set.")));
            },
        };
        let database: String = match database {
            Some(d) => d,
            None => {
                return Err(Error::MongoError(String::from_str("MONGO_INITDB_DATABASE must be set.")));
            },
        };
        let collection: String = match collection {
            Some(c) => c,
            None => {
                return Err(
                    Error::MongoError(String::from_str("MONGODB_NOTE_COLLECTION must be set.")),
                );
            },
        };
        Ok(StoreConfig { uri, database, collection })
    }
}

/// The data-access layer and the collection it owns.
#[derive(Clone, Debug, PartialEq, Eq)]
pub struct DB {
    config: StoreConfig,
    notes: Vec<NoteModel>,
}

impl View for DB {
    type V = Seq<NoteRecord>;

    closed spec fn view(&self) -> Seq<NoteRecord> {
        records_of(self.notes@)
    }
}

impl DB {
    /// Whether the collection is well formed.
    pub open spec fn wf(&self) -> bool {
        well_formed(self@)
    }

    /// The settings that the layer was set up with.
    pub closed spec fn settings(&self) -> ConfigView {
        self.config@
    }

    /// Sets the layer up over an empty collection. All three settings must
    /// be given: the first that is missing is named in the failure.
    pub fn init(uri: Option<String>, database: Option<String>, collection: Option<String>) -> (r:
        Result<DB, Error>)
        ensures
            match r {
                Ok(db) => {
                    &&& missing_setting(text_view(uri), text_view(database), text_view(collection))
                        is None
                    &&& db.wf()
                    &&& db@ == Seq::<NoteRecord>::empty()
                    &&& Some(db.settings().uri) == text_view(uri)
                    &&& Some(db.settings().database) == text_view(database)
                    &&& Some(db.settings().collection) == text_view(collection)
                },
                Err(e) => Some(e@) == missing_setting(
                    text_view(uri),
                    text_view(database),
                    text_view(collection),
                ),
            },
    {
        match StoreConfig::read(uri, database, collection) {
            Ok(config) => {
                let db = DB { config, notes: Vec::new() };
                assert(db@ =~= Seq::<NoteRecord>::empty());
                Ok(db)
            },
            Err(e) => Err(e),
        }
    }

    /// The settings that the layer was set up with.
    pub fn config(&self) -> (r: &StoreConfig)
        ensures
            r@ == self.settings(),
    {
        &self.config
    }

    /// The number of notes in the collection.
    pub fn count(&self) -> (r: usize)
        ensures
            r == self@.len(),
    {
        self.notes.len()
    }

    /// The place of the note with this identifier.
    fn position(&self, id: &NoteId) -> (r: Option<usize>)
        requires
            self.wf(),
        ensures
            r.is_some() == has_id(self@, id@),
            r matches Some(at) ==> at < self@.len() && at == index_of_id(self@, id@)
                && self@[at as int].id == id@ && self.notes@[at as int]@ == self@[at as int],
    {
        let n: usize = self.notes.len();
        let mut i: usize = 0;
        while i < n
            invariant
                self.wf(),
                n == self.notes@.len(),
                n == self@.len(),
                i <= n,
                forall|k: int| 0 <= k < i ==> (#[trigger] self@[k]).id != id@,
            decreases n - i,
        {
            if self.notes[i].id.same(id) {
                proof {
                    assert(self@[i as int].id == id@);
                    lemma_index_of_id(self@, id@, i as int);
                }
                return Some(i);
            }
            i = i + 1;
        }
        None
    }

    /// Whether a note other than the one at `skip` has this title.
    fn title_taken(&self, title: &String, skip: Option<usize>) -> (r: bool)
        ensures
            r == match skip {
                Some(at) => title_held_elsewhere(self@, title@, at as int),
                None => has_title(self@, title@),
            },
    {
        let n: usize = self.notes.len();
        let mut i: usize = 0;
        while i < n
            invariant
                n == self.notes@.len(),
                n == self@.len(),
                i <= n,
                forall|k: int|
                    0 <= k < i && Some(k as usize) != skip ==> (#[trigger] self@[k]).title
                        != title@,
            decreases n - i,
        {
            let skipped: bool = match skip {
                Some(at) => at == i,
                None => false,
            };
            if !skipped && self.notes[i].title == *title {
                assert(self@[i as int].title == title@);
                return true;
            }
            i = i + 1;
        }
        false
    }


    /// Answers a call that only reads the collection.
    pub fn look(&self, call: &StoreCall) -> (r: StoreAnswer)
        requires
            self.wf(),
            call_in_range(call@),
            reads_only(call@),
        ensures
            r@ == store_answer(self@, call@),
            self@ == store_after(self@, call@),
    {
        match call {
            StoreCall::Find { skip, limit } => {
                let n: usize = self.notes.len();
                let start: usize = if *skip < (n as u64) {
                    *skip as usize
                } else {
                    n
                };
                let room: u64 = (n - start) as u64;
                let end: usize = if (*limit as u64) < room {
                    start + (*limit as usize)
                } else {
                    n
                };
                let ghost chosen = window(self@, *skip as int, *limit as int);
                assert(chosen == self@.subrange(start as int, end as int));
                let mut found: Vec<NoteModel> = Vec::new();
                let mut i: usize = start;
                while i < end
                    invariant
                        n == self.notes@.len(),
                        n == self@.len(),
                        start <= i <= end <= n,
                        chosen == self@.subrange(start as int, end as int),
                        found@.len() == i - start,
                        forall|k: int| 0 <= k < i - start ==> (#[trigger] found@[k])@ == chosen[k],
                    decreases end - i,
                {
                    found.push(self.notes[i].duplicate());
                    i = i + 1;
                }
                assert(records_of(found@) =~= chosen);
                StoreAnswer::Notes(found)
            },
            StoreCall::FindOne(id) => {
                match self.position(id) {
                    Some(at) => StoreAnswer::Found(Some(self.notes[at].duplicate())),
                    None => StoreAnswer::Found(None),
                }
            },
            _ => vstd::pervasive::unreached(),
        }
    }

    /// Answers one call on the collection.
    pub fn answer(&mut self, call: StoreCall) -> (r: StoreAnswer)
        requires
            old(self).wf(),
            call_in_range(call@),
        ensures
            final(self).wf(),
            final(self)@ == store_after(old(self)@, call@),
            r@ == store_answer(old(self)@, call@),
    {
        proof {
            lemma_call_keeps_well_formed(self@, call@);
        }
        match call {
            StoreCall::InsertOne(note) => {
                if self.title_taken(&note.title, None) || self.position(&note.id).is_some() {
                    StoreAnswer::Failed {
                        code: Some(DUPLICATE_KEY_CODE),
                        message: String::from_str("E11000 duplicate key error collection"),
                    }
                } else {
                    let id: NoteId = note.id;
                    self.notes.push(note);
                    assert(self@ =~= old(self)@.push(note@));
                    StoreAnswer::Inserted(id)
                }
            },
            StoreCall::FindOneAndUpdate { id, update, now } => {
                let at: usize = match self.position(&id) {
                    Some(at) => at,
                    None => {
                        return StoreAnswer::Found(None);
                    },
                };
                let refused: bool = match &update.title {
                    Some(t) => self.title_taken(t, Some(at)),
                    None => false,
                };
                if refused {
                    return StoreAnswer::Failed {
                        code: Some(DUPLICATE_KEY_CODE),
                        message: String::from_str("E11000 duplicate key error collection"),
                    };
                }
                let note: NoteModel = self.notes[at].merge(&update, now);
                let copy: NoteModel = note.duplicate();
                self.notes.set(at, note);
                assert(self@ =~= old(self)@.update(at as int, copy@));
                StoreAnswer::Found(Some(copy))
            },
            StoreCall::DeleteOne(id) => {
                match self.position(&id) {
                    Some(at) => {
                        self.notes.remove(at);
                        assert(self@ =~= old(self)@.remove(at as int));
                        StoreAnswer::Deleted(1)
                    },
                    None => StoreAnswer::Deleted(0),
                }
            },
            other => self.look(&other),
        }
    }

    /// Carries out an operation that only reads the collection.
    pub fn settle_read(&self, step: Step) -> (r: Outcome)
        requires
            self.wf(),
            step_in_range(step@),
            step_reads_only(step@),
        ensures
            (self@, r@) == settled(self@, step@),
    {
        proof {
            reveal_with_fuel(settled, 3);
        }
        match step {
            Step::Done(outcome) => outcome,
            Step::Call(pending, call) => {
                match advance(pending, self.look(&call)) {
                    Step::Done(outcome) => outcome,
                    Step::Call(_, _) => vstd::pervasive::unreached(),
                }
            },
        }
    }

    /// Carries an operation out on the collection, from this step to its
    /// end.
    pub fn settle(&mut self, step: Step) -> (r: Outcome)
        requires
            old(self).wf(),
            step_in_range(step@),
        ensures
            final(self).wf(),
            (final(self)@, r@) == settled(old(self)@, step@),
        decreases calls_left(step@),
    {
        match step {
            Step::Done(outcome) => outcome,
            Step::Call(pending, call) => {
                let answer: StoreAnswer = self.answer(call);
                let next: Step = advance(pending, answer);
                self.settle(next)
            },
        }
    }

    /// Lists one page of notes, in the collection's order.
    pub fn fetch_notes(&self, limit: i64, page: i64) -> (r: Result<NoteListResponse, Error>)
        requires
            self.wf(),
            page_in_range(limit as int, page as int),
        ensures
            list_outcome_view(r) == Ok::<NoteListView, ErrorView>(
                list_outcome(self@, limit as int, page as int),
            ),
    {
        proof {
            lemma_list_settles(self@, limit as int, page as int);
        }
        self.settle_read(begin_list(limit, page)).into_list()
    }

    /// Puts a new note with this identifier into the collection, created at
    /// `now`. The collection refuses a note whose title or identifier is
    /// taken, and is then left as it was.
    pub fn insert_note(&mut self, body: &CreateNoteSchema, id: NoteId, now: i64) -> (r: Result<
        Option<SingleNoteResponse>,
        Error,
    >)
        requires
            old(self).wf(),
        ensures
            final(self).wf(),
            final(self)@ == created_state(old(self)@, body@, id@, now as int),
            note_outcome(r) == create_outcome(old(self)@, body@, id@, now as int),
    {
        proof {
            lemma_create_settles(self@, body@, id@, now as int);
        }
        self.settle(begin_create(body, id, now)).into_note()
    }

    /// Creates a note: the identifier is made anew and the time is read
    /// from the clock, then the note is put into the collection. Whatever
    /// the two are, the outcome is that of `insert_note` with them.
    pub fn create_note(&mut self, body: &CreateNoteSchema) -> (r: Result<
        Option<SingleNoteResponse>,
        Error,
    >)
        requires
            old(self).wf(),
        ensures
            final(self).wf(),
            exists|id: Seq<u8>, now: int|
                {
                    &&& id.len() == 12
                    &&& final(self)@ == #[trigger] created_state(old(self)@, body@, id, now)
                    &&& note_outcome(r) == create_outcome(old(self)@, body@, id, now)
                },
    {
        let now: i64 = now_millis();
        let id: NoteId = NoteId::generate();
        let r = self.insert_note(body, id, now);
        assert(self@ == created_state(old(self)@, body@, id@, now as int));
        r
    }

    /// Reads the note with this identifier.
    pub fn get_note(&self, id: &str) -> (r: Result<Option<SingleNoteResponse>, Error>)
        requires
            self.wf(),
        ensures
            note_outcome(r) == get_outcome(self@, id@),
    {
        proof {
            lemma_read_settles(self@, id@);
        }
        self.settle_read(begin_read(id)).into_note()
    }

    /// Merges an update into the note with this identifier, at `now`. The
    /// collection refuses a title that another note holds, and is then left
    /// as it was.
    pub fn update_note(&mut self, id: &str, body: &UpdateNoteSchema, now: i64) -> (r: Result<
        Option<SingleNoteResponse>,
        Error,
    >)
        requires
            old(self).wf(),
        ensures
            final(self).wf(),
            final(self)@ == edited_state(old(self)@, id@, body@, now as int),
            note_outcome(r) == edit_outcome(old(self)@, id@, body@, now as int),
    {
        proof {
            lemma_update_settles(self@, id@, body@, now as int);
        }
        self.settle(begin_update(id, body.duplicate(), now)).into_note()
    }

    /// Changes the note with this identifier: the time is read from the
    /// clock, then the update is merged. Whatever the time is, the outcome
    /// is that of `update_note` with it.
    pub fn edit_note(&mut self, id: &str, body: &UpdateNoteSchema) -> (r: Result<
        Option<SingleNoteResponse>,
        Error,
    >)
        requires
            old(self).wf(),
        ensures
            final(self).wf(),
            exists|now: int|
                {
                    &&& final(self)@ == #[trigger] edited_state(old(self)@, id@, body@, now)
                    &&& note_outcome(r) == edit_outcome(old(self)@, id@, body@, now)
                },
    {
        let now: i64 = now_millis();
        let r = self.update_note(id, body, now);
        assert(self@ == edited_state(old(self)@, id@, body@, now as int));
        r
    }

    /// Deletes the note with this identifier.
    pub fn delete_note(&mut self, id: &str) -> (r: Result<Option<()>, Error>)
        requires
            old(self).wf(),
        ensures
            final(self).wf(),
            final(self)@ == deleted_state(old(self)@, id@),
            delete_outcome_view(r) == delete_outcome(old(self)@, id@),
    {
        proof {
            lemma_delete_settles(self@, id@);
        }
        self.settle(begin_delete(id)).into_deleted()
    }
}

} // verus!
