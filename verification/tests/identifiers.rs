use notes_api::oid::NoteId;
use notes_api::text::{chars_of, str_contains};

#[test]
fn parse_reads_both_cases() {
    let id = NoteId::parse("0123456789abcdefABCDEF0f").unwrap();
    assert_eq!(
        id.bytes,
        [0x01, 0x23, 0x45, 0x67, 0x89, 0xab, 0xcd, 0xef, 0xab, 0xcd, 0xef, 0x0f]
    );
    assert_eq!(NoteId::parse("000000000000000000000000").unwrap().bytes, [0u8; 12]);
    assert_eq!(NoteId::parse("ffffffffffffffffffffffff").unwrap().bytes, [0xffu8; 12]);
}

#[test]
fn parse_refuses_what_is_no_identifier() {
    assert_eq!(NoteId::parse(""), None);
    assert_eq!(NoteId::parse("not-an-id"), None);
    assert_eq!(NoteId::parse("00000000000000000000000"), None);
    assert_eq!(NoteId::parse("0000000000000000000000000"), None);
    assert_eq!(NoteId::parse("00000000000000000000000g"), None);
    assert_eq!(NoteId::parse("0000000000000000000000 0"), None);
    assert_eq!(NoteId::parse("0x0000000000000000000000"), None);
    assert_eq!(NoteId::parse("ééééééééééééééééééééééé0"), None);
    assert_eq!(NoteId::parse("éééééééééééé"), None);
}

#[test]
fn to_hex_writes_lower_case() {
    let id = NoteId { bytes: [0x01, 0x23, 0x45, 0x67, 0x89, 0xab, 0xcd, 0xef, 0x00, 0xff, 0x10, 0x0a] };
    assert_eq!(id.to_hex(), "0123456789abcdef00ff100a");
}

#[test]
fn text_of_an_identifier_is_read_back() {
    let id = NoteId { bytes: [9, 200, 31, 0, 255, 16, 1, 128, 77, 3, 250, 66] };
    assert_eq!(NoteId::parse(&id.to_hex()), Some(id));
    let made = NoteId::generate();
    assert_eq!(NoteId::parse(&made.to_hex()), Some(made));
}

#[test]
fn same_compares_the_bytes() {
    let a = NoteId { bytes: [1; 12] };
    let mut b = NoteId { bytes: [1; 12] };
    assert!(a.same(&b));
    b.bytes[11] = 2;
    assert!(!a.same(&b));
    b.bytes[11] = 1;
    b.bytes[0] = 0;
    assert!(!a.same(&b));
}

#[test]
fn generated_identifiers_differ() {
    let a = NoteId::generate();
    let b = NoteId::generate();
    assert!(!a.same(&b));
}

#[test]
fn contains_finds_a_text_inside_another() {
    assert!(str_contains("hello world", "lo w"));
    assert!(str_contains("hello world", "hello world"));
    assert!(str_contains("hello world", "d"));
    assert!(str_contains("hello world", "h"));
    assert!(str_contains("hello", ""));
    assert!(str_contains("", ""));
    assert!(!str_contains("", "a"));
    assert!(!str_contains("hello", "hello!"));
    assert!(!str_contains("hello world", "low"));
    assert!(!str_contains("aaab", "aab "));
    assert!(str_contains("aaab", "aab"));
    assert!(str_contains("grüße aus köln", "aus kö"));
    assert!(!str_contains("grüße", "u"));
}

#[test]
fn chars_of_gives_every_character() {
    assert_eq!(chars_of("aé"), vec!['a', 'é']);
    assert!(chars_of("").is_empty());
}
