use mangadex_wasm::frame::{frame, frame_length, read_reply};

#[test]
fn frame_holds_the_length_and_the_bytes() {
    assert_eq!(frame("[]"), Some(vec![2, 0, 0, 0, b'[', b']']));
    assert_eq!(frame(""), Some(vec![0, 0, 0, 0]));
    assert_eq!(frame("é"), Some(vec![2, 0, 0, 0, 0xc3, 0xa9]));
}

#[test]
fn frame_writes_the_lowest_byte_first() {
    let text = "x".repeat(0x0001_0203);
    let bytes = frame(&text).unwrap();
    assert_eq!(&bytes[..4], &[0x03, 0x02, 0x01, 0x00]);
    assert_eq!(bytes.len(), 4 + 0x0001_0203);
    assert_eq!(&bytes[4..], text.as_bytes());
}

#[test]
fn frame_length_reads_the_header() {
    assert_eq!(frame_length([2, 0, 0, 0]), 2);
    assert_eq!(frame_length([0x03, 0x02, 0x01, 0x00]), 0x0001_0203);
    assert_eq!(frame_length([0xff, 0xff, 0xff, 0xff]), u32::MAX);
    assert_eq!(frame_length([0, 0, 0, 0x80]), 0x8000_0000);
}

#[test]
fn frame_length_reads_what_frame_wrote() {
    let bytes = frame("{\"error\":\"Failed to fetch manga\"}").unwrap();
    let header = [bytes[0], bytes[1], bytes[2], bytes[3]];
    assert_eq!(frame_length(header) as usize, bytes.len() - 4);
}

#[test]
fn read_reply_gives_the_text_of_utf8_bytes() {
    assert_eq!(read_reply(Some(b"{\"result\":\"ok\"}")), "{\"result\":\"ok\"}");
    assert_eq!(read_reply(Some("caf\u{e9} \u{1F600}".as_bytes())), "caf\u{e9} \u{1F600}");
    assert_eq!(read_reply(Some(b"")), "");
}

#[test]
fn read_reply_counts_garbage_and_silence_as_a_failed_fetch() {
    assert_eq!(read_reply(None), "");
    assert_eq!(read_reply(Some(&[0xff, 0xfe, 0x41])), "");
    assert_eq!(read_reply(Some(&[b'a', 0xc3])), "");
    assert_eq!(read_reply(Some(&[0xed, 0xa0, 0x80])), "");
    assert_eq!(read_reply(Some(&[0xc0, 0x80])), "");
}

#[test]
fn read_reply_reads_back_what_frame_wrote() {
    let bytes = frame("[\"\u{30ef}\u{30f3}\"]").unwrap();
    assert_eq!(read_reply(Some(&bytes[4..])), "[\"\u{30ef}\u{30f3}\"]");
}
