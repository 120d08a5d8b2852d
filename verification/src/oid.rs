//! Note identifiers: twelve bytes, written as twenty-four hexadecimal digits.

use vstd::prelude::*;

verus! {

/// Whether `c` is one of `0..9`, `a..f`, `A..F`.
pub open spec fn is_hex_digit(c: char) -> bool {
    ('0' <= c && c <= '9') || ('a' <= c && c <= 'f') || ('A' <= c && c <= 'F')
}

/// The number that a hexadecimal digit stands for.
pub open spec fn hex_value(c: char) -> int {
    if '0' <= c && c <= '9' {
        c as int - '0' as int
    } else if 'a' <= c && c <= 'f' {
        c as int - 'a' as int + 10
    } else {
        c as int - 'A' as int + 10
    }
}

/// The lower-case hexadecimal digit for a number below sixteen.
pub open spec fn hex_digit(v: int) -> char {
    seq![
        '0', '1', '2', '3', '4', '5', '6', '7', '8', '9', 'a', 'b', 'c', 'd', 'e', 'f',
    ][v]
}

/// Whether `text` is a well-formed identifier: exactly twenty-four
/// hexadecimal digits, in either case.
pub open spec fn is_object_id_text(text: Seq<char>) -> bool {
    &&& text.len() == 24
    &&& forall|i: int| 0 <= i < 24 ==> is_hex_digit(#[trigger] text[i])
}

/// The twelve bytes that a well-formed identifier text stands for: each pair
/// of digits gives one byte, high digit first.
pub open spec fn decode_hex(text: Seq<char>) -> Seq<u8> {
    Seq::new(12, |i: int| (hex_value(text[2 * i]) * 16 + hex_value(text[2 * i + 1])) as u8)
}

/// The text of twelve bytes: two lower-case digits per byte, high digit first.
pub open spec fn encode_hex(bytes: Seq<u8>) -> Seq<char> {
    Seq::new(
        24,
        |k: int| if k % 2 == 0 { hex_digit(bytes[k / 2] as int / 16) } else { hex_digit(bytes[k / 2] as int % 16) },
    )
}

/// The identifier of a note, as the store assigns it.
#[derive(Clone, Copy, Debug, PartialEq, Eq)]
pub struct NoteId {
    pub bytes: [u8; 12],
}

impl View for NoteId {
    type V = Seq<u8>;

    open spec fn view(&self) -> Seq<u8> {
        self.bytes@
    }
}

/// Calls `bson::oid::ObjectId::parse_str` and hands out the bytes of the
/// identifier it returns. The contract says what the crate's source shows:
/// the text is accepted exactly when it is twenty-four hexadecimal digits,
/// and byte `i` of the result is then digit `2i` times sixteen plus digit
/// `2i + 1`.
#[verifier::external_body]
fn parse_object_id(text: &str) -> (r: Option<[u8; 12]>)
    ensures
        r.is_some() == is_object_id_text(text@),
        r matches Some(bytes) ==> bytes@ == decode_hex(text@),
{
    match bson::oid::ObjectId::parse_str(text) {
        Ok(id) => Some(id.bytes()),
        Err(_) => None,
    }
}

/// Calls `bson::oid::ObjectId::to_hex` on the identifier with these bytes.
/// The contract says what the crate's source shows: two lower-case digits
/// per byte, high digit first.
#[verifier::external_body]
fn object_id_to_hex(bytes: &[u8; 12]) -> (r: String)
    ensures
        r@ == encode_hex(bytes@),
{
    bson::oid::ObjectId::from_bytes(*bytes).to_hex()
}

/// Calls `bson::oid::ObjectId::new`, which makes an identifier from the
/// clock, a value drawn once per process and a counter. Nothing is promised
/// of the bytes. The call panics where the clock stands before 1970 or
/// after 2106.
#[verifier::external_body]
fn new_object_id() -> (r: [u8; 12]) {
    bson::oid::ObjectId::new().bytes()
}

impl NoteId {
    /// Reads an identifier from its text, or returns `None` where the text
    /// is not well formed.
    pub fn parse(text: &str) -> (r: Option<NoteId>)
        ensures
            r.is_some() == is_object_id_text(text@),
            r matches Some(id) ==> id@ == decode_hex(text@),
    {
        match parse_object_id(text) {
            Some(bytes) => Some(NoteId { bytes }),
            None => None,
        }
    }

    /// The identifier as twenty-four lower-case hexadecimal digits.
    pub fn to_hex(&self) -> (r: String)
        ensures
            r@ == encode_hex(self@),
    {
        object_id_to_hex(&self.bytes)
    }

    /// A new identifier, as the store would assign it.
    pub fn generate() -> (r: NoteId) {
        NoteId { bytes: new_object_id() }
    }

    /// Whether two identifiers hold the same bytes.
    pub fn same(&self, other: &NoteId) -> (r: bool)
        ensures
            r == (self@ == other@),
    {
        let mut i: usize = 0;
        while i < 12
            invariant
                i <= 12,
                forall|j: int| 0 <= j < i ==> self.bytes@[j] == other.bytes@[j],
            decreases 12 - i,
        {
            if self.bytes[i] != other.bytes[i] {
                return false;
            }
            i = i + 1;
        }
        assert(self.bytes@ =~= other.bytes@);
        true
    }
}

/// Every identifier is read back from its own text.
pub proof fn lemma_hex_round_trip(bytes: Seq<u8>)
    requires
        bytes.len() == 12,
    ensures
        is_object_id_text(encode_hex(bytes)),
        decode_hex(encode_hex(bytes)) == bytes,
{
    let text = encode_hex(bytes);
    assert forall|v: int| 0 <= v < 16 implies is_hex_digit(#[trigger] hex_digit(v)) && hex_value(
        hex_digit(v),
    ) == v by {
        lemma_hex_digit(v);
    }
    assert forall|i: int| 0 <= i < 24 implies is_hex_digit(#[trigger] text[i]) by {
        let b = bytes[i / 2] as int;
        assert(0 <= b / 16 < 16 && 0 <= b % 16 < 16);
    }
    assert forall|i: int| 0 <= i < 12 implies #[trigger] decode_hex(text)[i] == bytes[i] by {
        let b = bytes[i] as int;
        assert((2 * i) / 2 == i && (2 * i) % 2 == 0);
        assert((2 * i + 1) / 2 == i && (2 * i + 1) % 2 == 1);
        assert(0 <= b / 16 < 16 && 0 <= b % 16 < 16);
        assert(text[2 * i] == hex_digit(b / 16));
        assert(text[2 * i + 1] == hex_digit(b % 16));
        assert((b / 16) * 16 + b % 16 == b);
    }
    assert(decode_hex(text) =~= bytes);
}

proof fn lemma_hex_digit(v: int)
    requires
        0 <= v < 16,
    ensures
        is_hex_digit(hex_digit(v)),
        hex_value(hex_digit(v)) == v,
{
    let digits = seq![
        '0', '1', '2', '3', '4', '5', '6', '7', '8', '9', 'a', 'b', 'c', 'd', 'e', 'f',
    ];
    assert(digits[0] == '0' && digits[1] == '1' && digits[2] == '2' && digits[3] == '3');
    assert(digits[4] == '4' && digits[5] == '5' && digits[6] == '6' && digits[7] == '7');
    assert(digits[8] == '8' && digits[9] == '9' && digits[10] == 'a' && digits[11] == 'b');
    assert(digits[12] == 'c' && digits[13] == 'd' && digits[14] == 'e' && digits[15] == 'f');
}

} // verus!
