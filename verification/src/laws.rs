//! What holds of the data-access layer whatever the collection holds and
//! whatever identifiers and times come in from outside.

use vstd::prelude::*;
use crate::db::{
    create_outcome, created_state, delete_outcome, deleted_state, duplicate_key, edit_outcome,
    edited_state, get_outcome, has_id, has_title, insert_refused,
    lemma_call_keeps_well_formed, lemma_index_of_id, list_outcome, page_of, update_refused,
    well_formed,
};
use crate::error::{error_reply, rejection_reply, ErrorKind, ErrorView, RejectionView};
use crate::flow::{invalid_id, CallView};
use crate::model::{merged, new_record, note_envelope, NoteRecord};
use crate::oid::{decode_hex, encode_hex, is_object_id_text, lemma_hex_round_trip};
use crate::response::SingleNoteView;
use crate::schema::{page_in_range, CreateView, UpdateView};

verus! {

/// A title is held by one note at most: after a note has been created, a
/// second create with the same title fails as a duplicate, whatever its
/// other fields, its identifier and its time are; the collection stays as
/// the first create left it, and the first note is read back unchanged.
pub proof fn law_title_is_unique(
    notes: Seq<NoteRecord>,
    first: CreateView,
    first_id: Seq<u8>,
    first_now: int,
    second: CreateView,
    second_id: Seq<u8>,
    second_now: int,
)
    requires
        well_formed(notes),
        first_id.len() == 12,
        !insert_refused(notes, first, first_id),
        second.title == first.title,
    ensures
        create_outcome(created_state(notes, first, first_id, first_now), second, second_id, second_now)
            == Err::<Option<SingleNoteView>, ErrorView>(duplicate_key()),
        created_state(created_state(notes, first, first_id, first_now), second, second_id, second_now)
            == created_state(notes, first, first_id, first_now),
        get_outcome(
            created_state(
                created_state(notes, first, first_id, first_now),
                second,
                second_id,
                second_now,
            ),
            encode_hex(first_id),
        ) == create_outcome(notes, first, first_id, first_now),
{
    let after = created_state(notes, first, first_id, first_now);
    assert(after[notes.len() as int].title == second.title);
    assert(has_title(after, second.title));
    law_create_then_get(notes, first, first_id, first_now);
}

/// A note that was created is read back as it was returned: the title and
/// the content of the request, its category or the empty one, its
/// publication mark or `false`, under the identifier and the time that the
/// create was given.
pub proof fn law_create_then_get(notes: Seq<NoteRecord>, body: CreateView, id: Seq<u8>, now: int)
    requires
        well_formed(notes),
        id.len() == 12,
        !insert_refused(notes, body, id),
    ensures
        get_outcome(created_state(notes, body, id, now), encode_hex(id)) == create_outcome(
            notes,
            body,
            id,
            now,
        ),
        create_outcome(notes, body, id, now) matches Ok(Some(made)) && {
            &&& made.status == "success"@
            &&& made.note.id == encode_hex(id)
            &&& made.note.title == body.title
            &&& made.note.content == body.content
            &&& made.note.category == match body.category {
                Some(c) => c,
                None => Seq::<char>::empty(),
            }
            &&& made.note.published == match body.published {
                Some(p) => p,
                None => false,
            }
            &&& made.note.created_at == now
            &&& made.note.updated_at == now
        },
{
    let after = created_state(notes, body, id, now);
    lemma_hex_round_trip(id);
    law_collection_stays_well_formed(notes, body, id, encode_hex(id), UpdateView {
        title: None,
        content: None,
        category: None,
        published: None,
    }, now);
    lemma_index_of_id(after, id, notes.len() as int);
}

/// An update overwrites the fields it names and no others: the note keeps
/// its identifier and its time of creation, each field that the update
/// leaves out stays as it was, and the time of the last update does not go
/// back; it is the time of the update where that is later than the one
/// before. Every other note stays as it was.
pub proof fn law_update_is_partial(
    notes: Seq<NoteRecord>,
    at: int,
    update: UpdateView,
    now: int,
)
    requires
        well_formed(notes),
        0 <= at < notes.len(),
        !update_refused(notes, at, update),
    ensures
        edit_outcome(notes, encode_hex(notes[at].id), update, now) == Ok::<
            Option<SingleNoteView>,
            ErrorView,
        >(Some(note_envelope(merged(notes[at], update, now)))),
        edited_state(notes, encode_hex(notes[at].id), update, now) == notes.update(
            at,
            merged(notes[at], update, now),
        ),
        get_outcome(
            edited_state(notes, encode_hex(notes[at].id), update, now),
            encode_hex(notes[at].id),
        ) == edit_outcome(notes, encode_hex(notes[at].id), update, now),
        merged(notes[at], update, now).id == notes[at].id,
        merged(notes[at], update, now).created_at == notes[at].created_at,
        update.title is None ==> merged(notes[at], update, now).title == notes[at].title,
        update.content is None ==> merged(notes[at], update, now).content == notes[at].content,
        update.category is None ==> merged(notes[at], update, now).category == notes[at].category,
        update.published is None ==> merged(notes[at], update, now).published
            == notes[at].published,
        update.title matches Some(t) ==> merged(notes[at], update, now).title == t,
        update.content matches Some(c) ==> merged(notes[at], update, now).content == c,
        update.category matches Some(c) ==> merged(notes[at], update, now).category == Some(c),
        update.published matches Some(p) ==> merged(notes[at], update, now).published == Some(p),
        merged(notes[at], update, now).updated_at >= notes[at].updated_at,
        now > notes[at].updated_at ==> merged(notes[at], update, now).updated_at == now,
        forall|i: int|
            0 <= i < notes.len() && i != at ==> (#[trigger] edited_state(
                notes,
                encode_hex(notes[at].id),
                update,
                now,
            )[i]) == notes[i],
{
    let id = notes[at].id;
    let text = encode_hex(id);
    assert(notes[at].complete());
    lemma_hex_round_trip(id);
    lemma_index_of_id(notes, id, at);
    let after = edited_state(notes, text, update, now);
    lemma_call_keeps_well_formed(
        notes,
        CallView::FindOneAndUpdate { id: decode_hex(text), update, now },
    );
    assert(after[at].id == id);
    lemma_index_of_id(after, id, at);
}

/// A note is deleted once: the first delete of a note succeeds, a second
/// one finds nothing and changes nothing, and the note is no longer read.
/// Every other note is still there.
pub proof fn law_delete_once(notes: Seq<NoteRecord>, at: int)
    requires
        well_formed(notes),
        0 <= at < notes.len(),
    ensures
        delete_outcome(notes, encode_hex(notes[at].id)) == Ok::<Option<()>, ErrorView>(Some(())),
        deleted_state(notes, encode_hex(notes[at].id)) == notes.remove(at),
        delete_outcome(deleted_state(notes, encode_hex(notes[at].id)), encode_hex(notes[at].id))
            == Ok::<Option<()>, ErrorView>(None),
        deleted_state(deleted_state(notes, encode_hex(notes[at].id)), encode_hex(notes[at].id))
            == deleted_state(notes, encode_hex(notes[at].id)),
        get_outcome(deleted_state(notes, encode_hex(notes[at].id)), encode_hex(notes[at].id))
            == Ok::<Option<SingleNoteView>, ErrorView>(None),
{
    let id = notes[at].id;
    let text = encode_hex(id);
    assert(notes[at].complete());
    lemma_hex_round_trip(id);
    lemma_index_of_id(notes, id, at);
    let after = deleted_state(notes, text);
    assert(after == notes.remove(at));
    assert forall|i: int| 0 <= i < after.len() implies (#[trigger] after[i]).id != id by {
        if i < at {
            assert(notes[i].id != notes[at].id);
        } else {
            assert(notes[at].id != notes[i + 1].id);
        }
    }
    assert(!has_id(after, id));
}

/// An identifier that is not well formed is a failure, one that no note
/// has is not: reading, updating and deleting answer the first with the
/// offending text and the second with nothing, and neither changes the
/// collection.
pub proof fn law_absent_is_no_failure(
    notes: Seq<NoteRecord>,
    text: Seq<char>,
    update: UpdateView,
    now: int,
)
    requires
        !is_object_id_text(text) || !has_id(notes, decode_hex(text)),
    ensures
        get_outcome(notes, text) == if is_object_id_text(text) {
            Ok::<Option<SingleNoteView>, ErrorView>(None)
        } else {
            Err::<Option<SingleNoteView>, ErrorView>(invalid_id(text))
        },
        edit_outcome(notes, text, update, now) == get_outcome(notes, text),
        delete_outcome(notes, text) == if is_object_id_text(text) {
            Ok::<Option<()>, ErrorView>(None)
        } else {
            Err::<Option<()>, ErrorView>(invalid_id(text))
        },
        edited_state(notes, text, update, now) == notes,
        deleted_state(notes, text) == notes,
{
}

/// The pages of a collection follow one another without a gap: page `page`
/// holds the notes from place `(page - 1) * limit` on, `limit` of them
/// where that many are left, the rest where fewer are, and none where the
/// page lies behind the last note.
pub proof fn law_pages(notes: Seq<NoteRecord>, limit: int, page: int)
    requires
        page_in_range(limit, page),
    ensures
        (page - 1) * limit >= 0,
        page_of(notes, limit, page).len() == if (page - 1) * limit >= notes.len() {
            0
        } else if (page - 1) * limit + limit <= notes.len() {
            limit
        } else {
            notes.len() - (page - 1) * limit
        },
        forall|k: int|
            0 <= k < page_of(notes, limit, page).len() ==> (#[trigger] page_of(notes, limit, page)[k])
                == notes[(page - 1) * limit + k],
        list_outcome(notes, limit, page).results == page_of(notes, limit, page).len(),
        list_outcome(notes, limit, page).notes.len() == page_of(notes, limit, page).len(),
{
    assert((page - 1) * limit >= 0) by (nonlinear_arith)
        requires
            page >= 1,
            limit >= 1,
    ;
}

/// The collection stays well formed under every operation: after a
/// create, an update or a delete, whatever their arguments, each record is
/// complete and was last updated no earlier than it was created, and no two
/// records share an identifier or a title. An update leaves every note in
/// its place, under its identifier.
pub proof fn law_collection_stays_well_formed(
    notes: Seq<NoteRecord>,
    body: CreateView,
    id: Seq<u8>,
    text: Seq<char>,
    update: UpdateView,
    now: int,
)
    requires
        well_formed(notes),
        id.len() == 12,
    ensures
        well_formed(created_state(notes, body, id, now)),
        well_formed(edited_state(notes, text, update, now)),
        well_formed(deleted_state(notes, text)),
        edited_state(notes, text, update, now).len() == notes.len(),
        forall|i: int|
            0 <= i < notes.len() ==> (#[trigger] edited_state(notes, text, update, now)[i]).id
                == notes[i].id,
        forall|i: int|
            0 <= i < created_state(notes, body, id, now).len() ==> (#[trigger] created_state(
                notes,
                body,
                id,
                now,
            )[i]).created_at <= created_state(notes, body, id, now)[i].updated_at,
        forall|i: int|
            0 <= i < edited_state(notes, text, update, now).len() ==> (#[trigger] edited_state(
                notes,
                text,
                update,
                now,
            )[i]).created_at <= edited_state(notes, text, update, now)[i].updated_at,
{
    lemma_call_keeps_well_formed(notes, CallView::InsertOne(new_record(body, id, now)));
    lemma_call_keeps_well_formed(
        notes,
        CallView::FindOneAndUpdate { id: decode_hex(text), update, now },
    );
    lemma_call_keeps_well_formed(notes, CallView::DeleteOne(decode_hex(text)));
    let made = created_state(notes, body, id, now);
    assert forall|i: int| 0 <= i < made.len() implies (#[trigger] made[i]).created_at
        <= made[i].updated_at by {
        assert(made[i].complete());
    }
    let edited = edited_state(notes, text, update, now);
    assert forall|i: int| 0 <= i < edited.len() implies (#[trigger] edited[i]).created_at
        <= edited[i].updated_at by {
        assert(edited[i].complete());
    }
}

/// Every rejection is answered with an envelope of a status word and a
/// message, under a status code of a client's fault or a server's.
pub proof fn law_every_rejection_is_answered(err: RejectionView)
    ensures
        rejection_reply(err).body is Generic,
        rejection_reply(err).code == 400 || rejection_reply(err).code == 404 || rejection_reply(
            err,
        ).code == 405 || rejection_reply(err).code == 409 || rejection_reply(err).code == 500,
        rejection_reply(err).body->Generic_0.status == "fail"@ || rejection_reply(
            err,
        ).body->Generic_0.status == "error"@,
{
}

/// The kind of a failure decides how it is answered. Its cause reaches the
/// client of an ill-formed identifier only: two failures of one other kind
/// get the same reply, whatever their causes.
pub proof fn law_cause_stays_on_the_server(a: ErrorView, b: ErrorView)
    requires
        a.kind == b.kind,
        a.kind != ErrorKind::InvalidId,
    ensures
        error_reply(a) == error_reply(b),
{
}

/// A failure is answered with the conflict code exactly when it is a
/// duplicate, and with the code of a bad request exactly when the
/// identifier is ill formed; every other kind is a server error.
pub proof fn law_status_of_each_kind(err: ErrorView)
    ensures
        error_reply(err).code == 409 <==> err.kind == ErrorKind::DuplicateKey,
        error_reply(err).code == 400 <==> err.kind == ErrorKind::InvalidId,
        error_reply(err).code == 500 <==> err.kind != ErrorKind::DuplicateKey && err.kind
            != ErrorKind::InvalidId,
{
}

} // verus!
