use mangadex_wasm::urlencoding::encode;

#[test]
fn space_becomes_percent_20() {
    assert_eq!(encode("one two"), "one%20two");
}

#[test]
fn accented_letter_is_encoded_byte_by_byte() {
    assert_eq!(encode("é"), "%C3%A9");
    assert_eq!(encode("caf\u{e9}!"), "caf%C3%A9%21");
}

#[test]
fn alphanumeric_text_is_unchanged() {
    assert_eq!(encode("OnePiece2024"), "OnePiece2024");
    assert_eq!(encode("a-b_c.d~e"), "a-b_c.d~e");
}

#[test]
fn reserved_ascii_is_escaped_in_upper_case_hex() {
    assert_eq!(encode("a+b&c=d/e?"), "a%2Bb%26c%3Dd%2Fe%3F");
    assert_eq!(encode("\u{7f}\n"), "%7F%0A");
}

#[test]
fn four_byte_character() {
    assert_eq!(encode("\u{1F600}"), "%F0%9F%98%80");
}

#[test]
fn empty_text() {
    assert_eq!(encode(""), "");
}
