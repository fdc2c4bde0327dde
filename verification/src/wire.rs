//! The payload encoding: the calls into `postcard` and what they are known to
//! do. Everything in this file that is not proved is marked as such.
//!
//! A message is encoded as the tuple of its variant number and its fields.
//! `postcard` writes the variant number of an enum as a varint-encoded `u32`
//! and the fields of a struct variant one after the other, which is how it
//! writes such a tuple too.

use vstd::prelude::*;

verus! {

/// `postcard`'s error. Nothing is known of its values here but that they are
/// carried from the failing call to the caller.
#[verifier::external_type_specification]
#[verifier::external_body]
pub struct ExPostcardError(postcard::Error);

/// `n` in groups of seven bits, the lowest group first; every byte but the
/// last has its top bit set.
pub open spec fn varint(n: nat) -> Seq<u8>
    decreases n,
{
    if n < 128 {
        seq![n as u8]
    } else {
        seq![(n % 128 + 128) as u8] + varint(n / 128)
    }
}

/// `bytes` behind their number.
pub open spec fn length_prefixed(bytes: Seq<u8>) -> Seq<u8> {
    varint(bytes.len()) + bytes
}

/// The fields of a `Hello`, in the order in which they are sent.
pub open spec fn hello_fields(
    protocol_version: u16,
    peer_id: Seq<char>,
    capabilities: u32,
) -> Seq<u8> {
    varint(protocol_version as nat) + length_prefixed(vstd::utf8::encode_utf8(peer_id)) + varint(
        capabilities as nat,
    )
}

/// The fields of a `Clipboard`, in the order in which they are sent.
pub open spec fn clipboard_fields(
    origin: Seq<char>,
    serial: u64,
    mime: Seq<char>,
    data: Seq<u8>,
) -> Seq<u8> {
    length_prefixed(vstd::utf8::encode_utf8(origin)) + varint(serial as nat) + length_prefixed(
        vstd::utf8::encode_utf8(mime),
    ) + length_prefixed(data)
}

/// The number that the varint at the front of `bytes` stands for, and the bytes
/// behind it; nothing where the varint does not end within the first `max`
/// bytes.
pub open spec fn leading_varint(bytes: Seq<u8>, max: nat) -> Option<(nat, Seq<u8>)>
    decreases max,
{
    if max == 0 || bytes.len() == 0 {
        None
    } else if bytes[0] < 128 {
        Some((bytes[0] as nat, bytes.skip(1)))
    } else {
        match leading_varint(bytes.skip(1), (max - 1) as nat) {
            Some((high, rest)) => Some(((bytes[0] - 128 + 128 * high) as nat, rest)),
            None => None,
        }
    }
}

/// The number at the front of `bytes`, in at most `max` bytes and up to `limit`,
/// and the bytes behind it.
pub open spec fn leading_number(bytes: Seq<u8>, max: nat, limit: nat) -> Option<(nat, Seq<u8>)> {
    match leading_varint(bytes, max) {
        Some((n, rest)) => if n <= limit {
            Some((n, rest))
        } else {
            None
        },
        None => None,
    }
}

/// The `u32` at the front of `bytes`, in at most five bytes, and the bytes
/// behind it.
pub open spec fn leading_u32(bytes: Seq<u8>) -> Option<(u32, Seq<u8>)> {
    match leading_number(bytes, 5, u32::MAX as nat) {
        Some((n, rest)) => Some((n as u32, rest)),
        None => None,
    }
}

/// The most bytes that a length takes: five where a `usize` has 32 bits, ten
/// where it has 64.
pub open spec fn length_bytes() -> nat {
    if usize::BITS == 32 {
        5
    } else {
        10
    }
}

/// The length-prefixed bytes at the front of `bytes`, and the bytes behind them.
pub open spec fn leading_bytes(bytes: Seq<u8>) -> Option<(Seq<u8>, Seq<u8>)> {
    match leading_number(bytes, length_bytes(), usize::MAX as nat) {
        Some((n, rest)) => if n <= rest.len() {
            Some((rest.take(n as int), rest.skip(n as int)))
        } else {
            None
        },
        None => None,
    }
}

/// The length-prefixed UTF-8 text at the front of `bytes`, and the bytes behind
/// it.
pub open spec fn leading_text(bytes: Seq<u8>) -> Option<(Seq<char>, Seq<u8>)> {
    match leading_bytes(bytes) {
        Some((text, rest)) => if vstd::utf8::valid_utf8(text) {
            Some((vstd::utf8::decode_utf8(text), rest))
        } else {
            None
        },
        None => None,
    }
}

/// The fields of a `Hello` at the front of `bytes`, and the bytes behind them.
pub open spec fn leading_hello(bytes: Seq<u8>) -> Option<(u16, Seq<char>, u32, Seq<u8>)> {
    match leading_number(bytes, 3, u16::MAX as nat) {
        Some((version, after_version)) => match leading_text(after_version) {
            Some((peer_id, after_peer_id)) => match leading_u32(after_peer_id) {
                Some((capabilities, rest)) => Some((version as u16, peer_id, capabilities, rest)),
                None => None,
            },
            None => None,
        },
        None => None,
    }
}

/// The fields of a `Clipboard` at the front of `bytes`, and the bytes behind
/// them.
pub open spec fn leading_clipboard(bytes: Seq<u8>) -> Option<
    (Seq<char>, u64, Seq<char>, Seq<u8>, Seq<u8>),
> {
    match leading_text(bytes) {
        Some((origin, after_origin)) => match leading_number(after_origin, 10, u64::MAX as nat) {
            Some((serial, after_serial)) => match leading_text(after_serial) {
                Some((mime, after_mime)) => match leading_bytes(after_mime) {
                    Some((data, rest)) => Some((origin, serial as u64, mime, data, rest)),
                    None => None,
                },
                None => None,
            },
            None => None,
        },
        None => None,
    }
}

/// `postcard`'s error where there is no `u32` at the front of `bytes`.
pub uninterp spec fn postcard_tag_error(bytes: Seq<u8>) -> postcard::Error;

/// `postcard`'s error where the fields of a `Hello` are not at the front of
/// `bytes`, where a `usize` has `usize_bits` bits.
pub uninterp spec fn postcard_hello_error(bytes: Seq<u8>, usize_bits: u32) -> postcard::Error;

/// `postcard`'s error where the fields of a `Clipboard` are not at the front of
/// `bytes`, where a `usize` has `usize_bits` bits.
pub uninterp spec fn postcard_clipboard_error(bytes: Seq<u8>, usize_bits: u32) -> postcard::Error;

/// `postcard`'s error for a number that stands for nothing that is expected.
pub uninterp spec fn postcard_invalid_value(
    value: u64,
    expected: Seq<char>,
) -> postcard::Error;

/// The view of what [`read_tag`] returns, apart from an error.
pub open spec fn tag_read(read: Result<(u32, &[u8]), postcard::Error>) -> Option<(u32, Seq<u8>)> {
    match read {
        Ok((tag, rest)) => Some((tag, rest@)),
        Err(_) => None,
    }
}

/// The view of what [`read_hello`] returns, apart from an error.
pub open spec fn hello_read(
    read: Result<((u16, String, u32), &[u8]), postcard::Error>,
) -> Option<(u16, Seq<char>, u32, Seq<u8>)> {
    match read {
        Ok(((version, peer_id, capabilities), rest)) => Some(
            (version, peer_id@, capabilities, rest@),
        ),
        Err(_) => None,
    }
}

/// The view of what [`read_clipboard`] returns, apart from an error.
pub open spec fn clipboard_read(
    read: Result<((String, u64, String, Vec<u8>), &[u8]), postcard::Error>,
) -> Option<(Seq<char>, u64, Seq<char>, Seq<u8>, Seq<u8>)> {
    match read {
        Ok(((origin, serial, mime, data), rest)) => Some((origin@, serial, mime@, data@, rest@)),
        Err(_) => None,
    }
}

/// Trusted: `postcard::to_stdvec` of a tuple of a `u32`, a `u16`, a string and
/// a `u32`. It writes into a growing vector, which refuses nothing, so it
/// succeeds; integers become varints and a string its UTF-8 bytes behind their
/// number.
#[verifier::external_body]
pub(crate) fn write_hello(
    tag: u32,
    protocol_version: u16,
    peer_id: &str,
    capabilities: u32,
) -> (written: Result<Vec<u8>, postcard::Error>)
    ensures
        written is Ok,
        written->Ok_0@ == varint(tag as nat) + hello_fields(
            protocol_version,
            peer_id@,
            capabilities,
        ),
{
    postcard::to_stdvec(&(tag, protocol_version, peer_id, capabilities))
}

/// Trusted: `postcard::to_stdvec` of a tuple of a `u32`, a string, a `u64`, a
/// string and a byte vector. It succeeds as [`write_hello`] does; a byte vector
/// becomes its bytes behind their number.
#[verifier::external_body]
pub(crate) fn write_clipboard(
    tag: u32,
    origin: &str,
    serial: u64,
    mime: &str,
    data: &Vec<u8>,
) -> (written: Result<Vec<u8>, postcard::Error>)
    ensures
        written is Ok,
        written->Ok_0@ == varint(tag as nat) + clipboard_fields(origin@, serial, mime@, data@),
{
    postcard::to_stdvec(&(tag, origin, serial, mime, data))
}

/// Trusted: `postcard::take_from_bytes` for a `u32`. It reads the varint at the
/// front and hands on what follows it; it fails exactly where there is none, or
/// none that fits. The error depends on the bytes alone.
#[verifier::external_body]
pub(crate) fn read_tag(bytes: &[u8]) -> (read: Result<(u32, &[u8]), postcard::Error>)
    ensures
        tag_read(read) == leading_u32(bytes@),
        read is Err ==> read->Err_0 == postcard_tag_error(bytes@),
{
    postcard::take_from_bytes::<u32>(bytes)
}

/// Trusted: `postcard::take_from_bytes` for a tuple of a `u16`, a string and a
/// `u32`. It reads the fields at the front one after the other, each in its own
/// limits, and hands on what follows them; it fails exactly where one of them is
/// not there. The error depends on the bytes and on the width of a `usize`.
#[verifier::external_body]
pub(crate) fn read_hello(bytes: &[u8]) -> (read: Result<
    ((u16, String, u32), &[u8]),
    postcard::Error,
>)
    ensures
        hello_read(read) == leading_hello(bytes@),
        read is Err ==> read->Err_0 == postcard_hello_error(bytes@, usize::BITS),
{
    postcard::take_from_bytes::<(u16, String, u32)>(bytes)
}

/// Trusted: `postcard::take_from_bytes` for a tuple of a string, a `u64`, a
/// string and a byte vector. It reads the fields as [`read_hello`] does, and
/// fails where one of them is not there. The error depends on the bytes and on
/// the width of a `usize`.
#[verifier::external_body]
pub(crate) fn read_clipboard(bytes: &[u8]) -> (read: Result<
    ((String, u64, String, Vec<u8>), &[u8]),
    postcard::Error,
>)
    ensures
        clipboard_read(read) == leading_clipboard(bytes@),
        read is Err ==> read->Err_0 == postcard_clipboard_error(bytes@, usize::BITS),
{
    postcard::take_from_bytes::<(String, u64, String, Vec<u8>)>(bytes)
}

/// Trusted: `serde::de::Error::invalid_value` for `postcard`'s error. The error
/// depends on no more than the number and the words that tell what was
/// expected.
#[verifier::external_body]
pub(crate) fn invalid_value(value: u64, expected: &str) -> (error: postcard::Error)
    ensures
        error == postcard_invalid_value(value, expected@),
{
    serde::de::Error::invalid_value(serde::de::Unexpected::Unsigned(value), &expected)
}

proof fn lemma_varint_is_read_back(n: nat, max: nat, rest: Seq<u8>)
    ensures
        leading_varint(varint(n) + rest, max) == if varint(n).len() <= max {
            Some((n, rest))
        } else {
            None
        },
    decreases n,
{
    let bytes = varint(n) + rest;
    if n < 128 {
        assert(bytes.skip(1) =~= rest);
    } else {
        assert(bytes.skip(1) =~= varint(n / 128) + rest);
        if max > 0 {
            lemma_varint_is_read_back(n / 128, (max - 1) as nat, rest);
        }
    }
}

proof fn lemma_cut_varint_is_refused(n: nat, max: nat, cut: int)
    requires
        0 <= cut < varint(n).len(),
    ensures
        leading_varint(varint(n).take(cut), max) is None,
    decreases n,
{
    if cut > 0 && max > 0 {
        assert(varint(n).take(cut).skip(1) =~= varint(n / 128).take(cut - 1));
        lemma_cut_varint_is_refused(n / 128, (max - 1) as nat, cut - 1);
    }
}

/// How many bytes the varint of a number takes at most.
proof fn lemma_varint_length(n: nat)
    ensures
        n <= u16::MAX ==> varint(n).len() <= 3,
        n <= u32::MAX ==> varint(n).len() <= 5,
        n <= u64::MAX ==> varint(n).len() <= 10,
        n <= usize::MAX ==> varint(n).len() <= length_bytes(),
{
    reveal_with_fuel(varint, 11);
}

/// What was written behind its length is read back, or refused where it is
/// longer than anything in memory.
proof fn lemma_bytes_are_read_back(data: Seq<u8>, rest: Seq<u8>)
    ensures
        leading_bytes(length_prefixed(data) + rest) == if data.len() <= usize::MAX {
            Some((data, rest))
        } else {
            None
        },
{
    let n = data.len();
    assert(length_prefixed(data) + rest =~= varint(n) + (data + rest));
    lemma_varint_is_read_back(n, length_bytes(), data + rest);
    lemma_varint_length(n);
    assert((data + rest).take(n as int) =~= data);
    assert((data + rest).skip(n as int) =~= rest);
}

proof fn lemma_cut_bytes_are_refused(data: Seq<u8>, cut: int)
    requires
        0 <= cut < length_prefixed(data).len(),
    ensures
        leading_bytes(length_prefixed(data).take(cut)) is None,
{
    let prefix = varint(data.len());
    if cut < prefix.len() {
        assert(length_prefixed(data).take(cut) =~= prefix.take(cut));
        lemma_cut_varint_is_refused(data.len(), length_bytes(), cut);
    } else {
        let left = data.take(cut - prefix.len());
        assert(length_prefixed(data).take(cut) =~= prefix + left);
        lemma_varint_is_read_back(data.len(), length_bytes(), left);
    }
}

proof fn lemma_text_is_read_back(text: Seq<char>, rest: Seq<u8>)
    ensures
        ({
            let bytes = vstd::utf8::encode_utf8(text);
            leading_text(length_prefixed(bytes) + rest) == if bytes.len() <= usize::MAX {
                Some((text, rest))
            } else {
                None
            }
        }),
{
    lemma_bytes_are_read_back(vstd::utf8::encode_utf8(text), rest);
    vstd::utf8::encode_utf8_valid_utf8(text);
    vstd::utf8::encode_utf8_decode_utf8(text);
}

/// A number that was written as a varint is read back, with what follows it
/// left over.
pub proof fn law_tags_are_read_back(tag: u32, rest: Seq<u8>)
    ensures
        leading_u32(varint(tag as nat) + rest) == Some((tag, rest)),
{
    lemma_varint_length(tag as nat);
    lemma_varint_is_read_back(tag as nat, 5, rest);
}

/// A number whose varint is cut short is refused.
pub proof fn law_cut_tags_are_refused(tag: u32, cut: int)
    requires
        0 <= cut < varint(tag as nat).len(),
    ensures
        leading_u32(varint(tag as nat).take(cut)) is None,
{
    lemma_cut_varint_is_refused(tag as nat, 5, cut);
}

/// The fields of a `Hello` that fits in memory are read back, with what follows
/// them left over.
pub proof fn law_hello_fields_are_read_back(
    version: u16,
    peer_id: Seq<char>,
    capabilities: u32,
    rest: Seq<u8>,
)
    requires
        hello_fields(version, peer_id, capabilities).len() <= usize::MAX,
    ensures
        leading_hello(hello_fields(version, peer_id, capabilities) + rest) == Some(
            (version, peer_id, capabilities, rest),
        ),
{
    let peer = length_prefixed(vstd::utf8::encode_utf8(peer_id));
    let caps = varint(capabilities as nat);
    let bytes = hello_fields(version, peer_id, capabilities) + rest;
    assert(bytes =~= varint(version as nat) + (peer + (caps + rest)));
    lemma_varint_length(version as nat);
    lemma_varint_is_read_back(version as nat, 3, peer + (caps + rest));
    lemma_text_is_read_back(peer_id, caps + rest);
    law_tags_are_read_back(capabilities, rest);
}

/// The fields of a `Hello`, cut short anywhere, are refused.
pub proof fn law_cut_hello_fields_are_refused(
    version: u16,
    peer_id: Seq<char>,
    capabilities: u32,
    cut: int,
)
    requires
        0 <= cut < hello_fields(version, peer_id, capabilities).len(),
    ensures
        leading_hello(hello_fields(version, peer_id, capabilities).take(cut)) is None,
{
    let first = varint(version as nat);
    let text = vstd::utf8::encode_utf8(peer_id);
    let peer = length_prefixed(text);
    let caps = varint(capabilities as nat);
    let bytes = hello_fields(version, peer_id, capabilities).take(cut);
    if cut < first.len() {
        assert(bytes =~= first.take(cut));
        lemma_cut_varint_is_refused(version as nat, 3, cut);
    } else if cut < first.len() + peer.len() {
        let left = peer.take(cut - first.len());
        assert(bytes =~= first + left);
        lemma_varint_is_read_back(version as nat, 3, left);
        lemma_cut_bytes_are_refused(text, cut - first.len());
    } else {
        let left = caps.take(cut - first.len() - peer.len());
        assert(bytes =~= first + (peer + left));
        lemma_varint_is_read_back(version as nat, 3, peer + left);
        lemma_text_is_read_back(peer_id, left);
        law_cut_tags_are_refused(capabilities, cut - first.len() - peer.len());
    }
}

/// The fields of a `Clipboard` that fits in memory are read back, with what
/// follows them left over.
pub proof fn law_clipboard_fields_are_read_back(
    origin: Seq<char>,
    serial: u64,
    mime: Seq<char>,
    data: Seq<u8>,
    rest: Seq<u8>,
)
    requires
        clipboard_fields(origin, serial, mime, data).len() <= usize::MAX,
    ensures
        leading_clipboard(clipboard_fields(origin, serial, mime, data) + rest) == Some(
            (origin, serial, mime, data, rest),
        ),
{
    let a = length_prefixed(vstd::utf8::encode_utf8(origin));
    let b = varint(serial as nat);
    let c = length_prefixed(vstd::utf8::encode_utf8(mime));
    let d = length_prefixed(data);
    let bytes = clipboard_fields(origin, serial, mime, data) + rest;
    assert(bytes =~= a + (b + (c + (d + rest))));
    lemma_text_is_read_back(origin, b + (c + (d + rest)));
    lemma_varint_length(serial as nat);
    lemma_varint_is_read_back(serial as nat, 10, c + (d + rest));
    lemma_text_is_read_back(mime, d + rest);
    lemma_bytes_are_read_back(data, rest);
}

/// The fields of a `Clipboard`, cut short anywhere, are refused.
pub proof fn law_cut_clipboard_fields_are_refused(
    origin: Seq<char>,
    serial: u64,
    mime: Seq<char>,
    data: Seq<u8>,
    cut: int,
)
    requires
        0 <= cut < clipboard_fields(origin, serial, mime, data).len(),
    ensures
        leading_clipboard(clipboard_fields(origin, serial, mime, data).take(cut)) is None,
{
    let a = length_prefixed(vstd::utf8::encode_utf8(origin));
    let b = varint(serial as nat);
    let c = length_prefixed(vstd::utf8::encode_utf8(mime));
    let d = length_prefixed(data);
    let bytes = clipboard_fields(origin, serial, mime, data).take(cut);
    if cut < a.len() {
        assert(bytes =~= a.take(cut));
        lemma_cut_bytes_are_refused(vstd::utf8::encode_utf8(origin), cut);
    } else if cut < a.len() + b.len() {
        let left = b.take(cut - a.len());
        assert(bytes =~= a + left);
        lemma_text_is_read_back(origin, left);
        lemma_cut_varint_is_refused(serial as nat, 10, cut - a.len());
    } else if cut < a.len() + b.len() + c.len() {
        let left = c.take(cut - a.len() - b.len());
        assert(bytes =~= a + (b + left));
        lemma_text_is_read_back(origin, b + left);
        lemma_varint_is_read_back(serial as nat, 10, left);
        lemma_cut_bytes_are_refused(
            vstd::utf8::encode_utf8(mime),
            cut - a.len() - b.len(),
        );
    } else {
        let left = d.take(cut - a.len() - b.len() - c.len());
        assert(bytes =~= a + (b + (c + left)));
        lemma_text_is_read_back(origin, b + (c + left));
        lemma_varint_is_read_back(serial as nat, 10, c + left);
        lemma_text_is_read_back(mime, left);
        lemma_cut_bytes_are_refused(data, cut - a.len() - b.len() - c.len());
    }
}

} // verus!
