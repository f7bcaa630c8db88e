//! The frame in which a text crosses the boundary between the adapter and its
//! host: four bytes that hold the length of the text in bytes, the lowest
//! byte first, and then the text's bytes.
//!
//! What the host hands back for a fetch is read here too: a fetch that gave
//! nothing, or bytes that are no UTF-8, count as a failed fetch, and a failed
//! fetch reads as the empty text.

use vstd::prelude::*;
use vstd::string::*;
use vstd::utf8::*;

verus! {

/// The four bytes that hold a length, the lowest byte first.
pub open spec fn length_header(length: nat) -> Seq<u8> {
    seq![
        (length % 256) as u8,
        (length / 256 % 256) as u8,
        (length / 65536 % 256) as u8,
        (length / 16777216 % 256) as u8,
    ]
}

/// The length that four bytes hold, the lowest byte first.
pub open spec fn header_length(header: Seq<u8>) -> nat {
    (header[0] as nat) + 256 * (header[1] as nat) + 65536 * (header[2] as nat) + 16777216 * (
    header[3] as nat)
}

/// The frame of a payload.
pub open spec fn framed(payload: Seq<u8>) -> Seq<u8> {
    length_header(payload.len()) + payload
}

/// Frames a text. A text of over `u32::MAX` bytes has no frame.
pub fn frame(text: &str) -> (r: Option<Vec<u8>>)
    ensures
        match r {
            Some(bytes) => text.spec_bytes().len() <= u32::MAX && bytes@ == framed(text.spec_bytes()),
            None => text.spec_bytes().len() > u32::MAX,
        },
{
    let payload = text.as_bytes();
    let length: usize = payload.len();
    if length > 0xffff_ffff {
        return None;
    }
    let mut out: Vec<u8> = Vec::new();
    out.push((length % 256) as u8);
    out.push((length / 256 % 256) as u8);
    out.push((length / 65536 % 256) as u8);
    out.push((length / 16777216 % 256) as u8);
    assert(out@ =~= length_header(length as nat));
    let mut i: usize = 0;
    while i < length
        invariant
            i <= length,
            length == payload@.len(),
            out@ == length_header(length as nat) + payload@.take(i as int),
        decreases length - i,
    {
        out.push(payload[i]);
        proof {
            assert(payload@.take(i + 1) =~= payload@.take(i as int).push(payload@[i as int]));
            assert(out@ =~= length_header(length as nat) + payload@.take(i + 1));
        }
        i += 1;
    }
    proof {
        assert(payload@.take(i as int) =~= payload@);
    }
    Some(out)
}

/// Reads the length that the header of a frame holds.
pub fn frame_length(header: [u8; 4]) -> (r: u32)
    ensures
        r == header_length(header@),
{
    let low: u32 = header[0] as u32 + 256 * (header[1] as u32);
    let high: u32 = header[2] as u32 + 256 * (header[3] as u32);
    low + 65536 * high
}

/// The header of a frame holds the length of its payload.
pub proof fn lemma_header_holds_length(payload: Seq<u8>)
    requires
        payload.len() <= u32::MAX,
    ensures
        framed(payload).len() == 4 + payload.len(),
        header_length(framed(payload).take(4)) == payload.len(),
        framed(payload).skip(4) == payload,
{
    let n = payload.len();
    assert(framed(payload).take(4) =~= length_header(n));
    assert(framed(payload).skip(4) =~= payload);
    assert(n == n % 256 + 256 * (n / 256 % 256) + 65536 * (n / 65536 % 256) + 16777216 * (n
        / 16777216 % 256)) by (nonlinear_arith)
        requires
            n <= 0xffff_ffff,
    ;
}

#[verifier::external_type_specification]
#[verifier::external_body]
pub struct ExUtf8Error(core::str::Utf8Error);

/// `core::str::from_utf8` hands the bytes back as a text where they are
/// UTF-8, and reports an error where they are not.
pub assume_specification<'a>[ core::str::from_utf8 ](v: &'a [u8]) -> (r: Result<
    &'a str,
    core::str::Utf8Error,
>)
    ensures
        match r {
            Ok(s) => valid_utf8(v@) && s.spec_bytes() == v@,
            Err(_) => !valid_utf8(v@),
        },
;

/// The text of the answer to a fetch, `None` standing for a fetch that gave
/// nothing: the text that the bytes encode, and the empty text where the
/// fetch failed.
pub open spec fn reply_text(payload: Option<Seq<u8>>) -> Seq<char> {
    match payload {
        Some(bytes) => if valid_utf8(bytes) {
            decode_utf8(bytes)
        } else {
            Seq::empty()
        },
        None => Seq::empty(),
    }
}

/// Reads the text of the answer to a fetch.
pub fn read_reply(payload: Option<&[u8]>) -> (r: String)
    ensures
        r@ == reply_text(
            match payload {
                Some(bytes) => Some(bytes@),
                None => None,
            },
        ),
{
    match payload {
        Some(bytes) => match core::str::from_utf8(bytes) {
            Ok(s) => {
                proof {
                    encode_utf8_decode_utf8(s@);
                }
                s.to_owned()
            },
            Err(_) => String::new(),
        },
        None => String::new(),
    }
}

/// A text that was framed and whose payload is read back is the same text.
pub proof fn lemma_reply_of_framed_text(text: Seq<char>)
    requires
        encode_utf8(text).len() <= u32::MAX,
    ensures
        reply_text(Some(framed(encode_utf8(text)).skip(4))) == text,
{
    lemma_header_holds_length(encode_utf8(text));
    encode_utf8_valid_utf8(text);
    encode_utf8_decode_utf8(text);
}

} // verus!
