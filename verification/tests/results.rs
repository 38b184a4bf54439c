use esbuild_rs::containers::{check_text, format_message};
use esbuild_rs::{EncodingError, Message, SliceContainer, StrContainer};

#[test]
fn str_container_shows_its_text() {
    let container = StrContainer::from_bytes(b"let x = world;\n".to_vec()).expect("text");
    assert_eq!(container.as_str(), "let x = world;\n");
    assert_eq!(container.as_str().len(), 15);
}

#[test]
fn str_container_of_nothing_is_empty_text() {
    let container = StrContainer::from_bytes(Vec::new()).expect("text");
    assert_eq!(container.as_str(), "");
}

#[test]
fn str_container_keeps_multibyte_text() {
    let bytes = "na\u{ef}ve \u{2713}".as_bytes().to_vec();
    let container = StrContainer::from_bytes(bytes).expect("text");
    assert_eq!(container.as_str(), "na\u{ef}ve \u{2713}");
    assert_eq!(container.as_str().chars().count(), 7);
}

#[test]
fn str_container_refuses_bytes_that_are_not_text() {
    assert_eq!(StrContainer::from_bytes(vec![0xff]).err(), Some(EncodingError::InvalidUtf8));
    assert_eq!(
        StrContainer::from_bytes(vec![b'a', 0xc3]).err(),
        Some(EncodingError::InvalidUtf8)
    );
    assert_eq!(
        StrContainer::from_bytes(vec![0xed, 0xa0, 0x80]).err(),
        Some(EncodingError::InvalidUtf8)
    );
    assert_eq!(
        StrContainer::from_bytes(vec![0xc0, 0x80]).err(),
        Some(EncodingError::InvalidUtf8)
    );
}

#[test]
fn check_text_tells_text_from_other_bytes() {
    assert_eq!(check_text(b""), Ok(()));
    assert_eq!(check_text(b"let ax = 1"), Ok(()));
    assert_eq!(check_text("\u{1f600}".as_bytes()), Ok(()));
    assert_eq!(check_text(&[0x80]), Err(EncodingError::InvalidUtf8));
    assert_eq!(check_text(&[0xf4, 0x90, 0x80, 0x80]), Err(EncodingError::InvalidUtf8));
}

#[test]
fn slice_container_shows_its_elements_in_order() {
    let container = SliceContainer { items: vec![3u8, 1, 2] };
    assert_eq!(container.as_slice(), &[3, 1, 2]);
    let empty: SliceContainer<u8> = SliceContainer { items: Vec::new() };
    assert!(empty.as_slice().is_empty());
}

fn text(content: &str) -> StrContainer {
    StrContainer::from_bytes(content.as_bytes().to_vec()).expect("the content is text")
}

#[test]
fn message_line_has_text_then_place_in_brackets() {
    assert_eq!(
        format_message("Expected identifier", "input.js", "1", "4"),
        "Expected identifier [input.js:1:4]"
    );
    assert_eq!(format_message("", "", "", ""), " [::]");
}

#[test]
fn message_is_shown_with_line_and_column_in_decimal() {
    let message = Message {
        file: text("samplejs/input.js"),
        line: 12,
        column: 3,
        length: 5,
        text: text("Unexpected \"}\""),
    };
    assert_eq!(message.to_text(), "Unexpected \"}\" [samplejs/input.js:12:3]");
}

#[test]
fn message_is_shown_with_zero_negative_and_large_numbers() {
    let unplaced = Message { file: text(""), line: 0, column: -1, length: 0, text: text("note") };
    assert_eq!(unplaced.to_text(), "note [:0:-1]");
    let far = Message {
        file: text("a.ts"),
        line: 1234567,
        column: 890,
        length: 1,
        text: text("far"),
    };
    assert_eq!(far.to_text(), "far [a.ts:1234567:890]");
}
