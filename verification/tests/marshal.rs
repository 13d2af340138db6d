use zsh_module::fatal::Fatal;
use zsh_module::marshal::{name_from_ptr, strings_from_ptr};

#[test]
fn marshals_every_string_before_the_terminator_in_order() {
    let slots: Vec<Option<&[u8]>> = vec![Some(b"one"), Some(b"two"), Some(b"three"), None];
    assert_eq!(strings_from_ptr(&slots), Ok(vec!["one", "two", "three"]));
}

#[test]
fn an_array_that_starts_with_the_terminator_has_no_arguments() {
    let slots: Vec<Option<&[u8]>> = vec![None];
    assert_eq!(strings_from_ptr(&slots), Ok(Vec::new()));
}

#[test]
fn nothing_beyond_the_terminator_is_read() {
    let slots: Vec<Option<&[u8]>> = vec![Some(b"x"), None, Some(b"\xff\xfe"), Some(b"y")];
    assert_eq!(strings_from_ptr(&slots), Ok(vec!["x"]));
}

#[test]
fn an_array_without_null_slot_ends_with_the_slice() {
    let slots: Vec<Option<&[u8]>> = vec![Some(b"a"), Some(b"b")];
    assert_eq!(strings_from_ptr(&slots), Ok(vec!["a", "b"]));
    let none: Vec<Option<&[u8]>> = Vec::new();
    assert_eq!(strings_from_ptr(&none), Ok(Vec::new()));
}

#[test]
fn an_argument_that_is_not_utf8_is_fatal() {
    let slots: Vec<Option<&[u8]>> = vec![Some(b"ok"), Some(b"\xc3\x28"), None];
    assert_eq!(strings_from_ptr(&slots), Err(Fatal::ParseArg));
    let first: Vec<Option<&[u8]>> = vec![Some(b"\xff"), None];
    assert_eq!(strings_from_ptr(&first), Err(Fatal::ParseArg));
}

#[test]
fn no_lossy_text_stands_in_for_bad_bytes() {
    let slots: Vec<Option<&[u8]>> = vec![Some(b"a\x80b"), None];
    let marshalled = strings_from_ptr(&slots);
    assert_ne!(marshalled, Ok(vec!["a\u{fffd}b"]));
    assert!(marshalled.is_err());
}

#[test]
fn text_of_more_than_one_byte_per_character_is_decoded() {
    let slots: Vec<Option<&[u8]>> =
        vec![Some("h\u{e9}llo".as_bytes()), Some(b"\xe2\x82\xac"), Some(b""), None];
    let marshalled = strings_from_ptr(&slots).unwrap();
    assert_eq!(marshalled, vec!["h\u{e9}llo", "\u{20ac}", ""]);
    assert_eq!(marshalled[0].chars().count(), 5);
    assert_eq!(marshalled[1].chars().count(), 1);
}

#[test]
fn a_name_is_decoded_or_fatal() {
    assert_eq!(name_from_ptr(b"greet"), Ok("greet"));
    assert_eq!(name_from_ptr(b""), Ok(""));
    assert_eq!(name_from_ptr(b"\xf0\x9f\x90\x9a"), Ok("\u{1f41a}"));
    assert_eq!(name_from_ptr(b"gr\xffeet"), Err(Fatal::ParseName));
}

#[test]
fn each_violation_has_its_message() {
    assert_eq!(Fatal::ParseArg.message(), "Failed to parse arg");
    assert_eq!(Fatal::ParseName.message(), "Failed to parse binary name");
    assert_eq!(Fatal::NoModule.message(), "No module set");
    assert_eq!(Fatal::NoBuiltin.message(), "Failed to find binary name");
}
