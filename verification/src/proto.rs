//! The messages of the clipboard side-channel and their framing.
//!
//! A frame is `[u32 BE length][payload]`. The payload is a message in the
//! encoding of [`crate::wire`]; changing that encoding is a wire break.

use vstd::prelude::*;
use vstd::slice::{slice_subrange, slice_to_vec};

use crate::error::IoError;
use crate::wire;

verus! {

/// Maximum allowed frame payload size (64 MiB).
pub const MAX_FRAME_SIZE: u32 = 67_108_864;

/// Capability bit: the peer takes part in clipboard sharing.
pub const CAP_CLIPBOARD: u32 = 1;

/// Version of the message set; bumped only on structural changes to [`CapMsg`].
pub const PROTOCOL_VERSION: u16 = 1;

/// Variant number of [`CapMsg::Hello`] on the wire.
pub const HELLO_TAG: u32 = 0;

/// Variant number of [`CapMsg::Clipboard`] on the wire.
pub const CLIPBOARD_TAG: u32 = 1;

/// What is expected where a payload has another variant number.
pub const EXPECTED_TAGS: &'static str = "variant index 0 <= i < 2";

/// Wire protocol messages for the clipboard TCP side-channel.
#[derive(Debug, Clone, PartialEq)]
pub enum CapMsg {
    Hello {
        /// Bumped only on structural changes to this enum.
        protocol_version: u16,
        /// Full SHA-256 certificate fingerprint as colon-separated lowercase hex.
        peer_id: String,
        /// Bit flags, [`CAP_CLIPBOARD`] among them.
        capabilities: u32,
    },
    Clipboard {
        /// Fingerprint of the machine that sends the message.
        origin: String,
        /// Per-origin serial for loop suppression.
        serial: u64,
        /// MIME type (e.g. "text/plain;charset=utf-8").
        mime: String,
        /// Content bytes.
        data: Vec<u8>,
    },
}

/// The mathematical value of a [`CapMsg`].
#[verifier::ext_equal]
pub enum CapMsgView {
    Hello { protocol_version: u16, peer_id: Seq<char>, capabilities: u32 },
    Clipboard { origin: Seq<char>, serial: u64, mime: Seq<char>, data: Seq<u8> },
}

impl View for CapMsg {
    type V = CapMsgView;

    open spec fn view(&self) -> CapMsgView {
        match self {
            CapMsg::Hello { protocol_version, peer_id, capabilities } => CapMsgView::Hello {
                protocol_version: *protocol_version,
                peer_id: peer_id@,
                capabilities: *capabilities,
            },
            CapMsg::Clipboard { origin, serial, mime, data } => CapMsgView::Clipboard {
                origin: origin@,
                serial: *serial,
                mime: mime@,
                data: data@,
            },
        }
    }
}

/// Why a payload is no message.
#[derive(Debug)]
pub enum DecodeError {
    /// The payload is malformed, or starts with a variant number that no
    /// message has.
    Malformed(postcard::Error),
    /// There are bytes behind the message.
    Trailing,
}

/// What can go wrong with a frame.
#[derive(Debug)]
pub enum FrameError {
    /// The payload has, or claims to have, this many bytes.
    TooLarge(u32),
    Io(IoError),
    Encode(postcard::Error),
    Decode(DecodeError),
}

/// The variant number of a message.
pub open spec fn tag_of(msg: CapMsgView) -> u32 {
    match msg {
        CapMsgView::Hello { .. } => HELLO_TAG,
        CapMsgView::Clipboard { .. } => CLIPBOARD_TAG,
    }
}

/// The encoded fields of a message.
pub open spec fn fields_of(msg: CapMsgView) -> Seq<u8> {
    match msg {
        CapMsgView::Hello { protocol_version, peer_id, capabilities } => wire::hello_fields(
            protocol_version,
            peer_id,
            capabilities,
        ),
        CapMsgView::Clipboard { origin, serial, mime, data } => wire::clipboard_fields(
            origin,
            serial,
            mime,
            data,
        ),
    }
}

/// The payload that stands for a message.
pub open spec fn payload_of(msg: CapMsgView) -> Seq<u8> {
    wire::varint(tag_of(msg) as nat) + fields_of(msg)
}

/// The four bytes of `n`, the highest first.
pub open spec fn be32(n: u32) -> Seq<u8> {
    seq![
        (n / 0x100_0000) as u8,
        (n / 0x1_0000 % 0x100) as u8,
        (n / 0x100 % 0x100) as u8,
        (n % 0x100) as u8,
    ]
}

/// The number whose four bytes are `bytes`, the highest first.
pub open spec fn from_be32(bytes: Seq<u8>) -> u32 {
    (bytes[0] * 0x100_0000 + bytes[1] * 0x1_0000 + bytes[2] * 0x100 + bytes[3]) as u32
}

/// The frame around a payload that is not too large.
pub open spec fn frame_of(payload: Seq<u8>) -> Seq<u8> {
    be32(payload.len() as u32) + payload
}

/// The message that a payload stands for, or why there is none.
pub open spec fn parse_payload(payload: Seq<u8>) -> Result<CapMsgView, DecodeError> {
    match wire::leading_u32(payload) {
        None => Err(DecodeError::Malformed(wire::postcard_tag_error(payload))),
        Some((tag, fields)) => if tag == HELLO_TAG {
            match wire::leading_hello(fields) {
                None => Err(
                    DecodeError::Malformed(wire::postcard_hello_error(fields, usize::BITS)),
                ),
                Some((protocol_version, peer_id, capabilities, rest)) => if rest.len() > 0 {
                    Err(DecodeError::Trailing)
                } else {
                    Ok(CapMsgView::Hello { protocol_version, peer_id, capabilities })
                },
            }
        } else if tag == CLIPBOARD_TAG {
            match wire::leading_clipboard(fields) {
                None => Err(
                    DecodeError::Malformed(wire::postcard_clipboard_error(fields, usize::BITS)),
                ),
                Some((origin, serial, mime, data, rest)) => if rest.len() > 0 {
                    Err(DecodeError::Trailing)
                } else {
                    Ok(CapMsgView::Clipboard { origin, serial, mime, data })
                },
            }
        } else {
            Err(
                DecodeError::Malformed(
                    wire::postcard_invalid_value(tag as u64, EXPECTED_TAGS@),
                ),
            )
        },
    }
}

/// `result` is the message of `payload`, or the error that tells why there is
/// none.
pub open spec fn decodes_to(payload: Seq<u8>, result: Result<CapMsg, FrameError>) -> bool {
    match parse_payload(payload) {
        Ok(msg) => result matches Ok(m) && m@ == msg,
        Err(e) => result == Err::<CapMsg, FrameError>(FrameError::Decode(e)),
    }
}

/// `result` is right where `payload` starts with a whole message: the message
/// itself where nothing follows it, else an error.
pub open spec fn reads_whole_messages(
    payload: Seq<u8>,
    result: Result<CapMsg, FrameError>,
) -> bool {
    forall|msg: CapMsgView, rest: Seq<u8>|
        payload == #[trigger] (payload_of(msg) + rest) ==> if rest.len() == 0 {
            result matches Ok(m) && m@ == msg
        } else {
            result == Err::<CapMsg, FrameError>(FrameError::Decode(DecodeError::Trailing))
        }
}

/// `result` is an error where `payload` is a message cut short.
pub open spec fn refuses_cut_messages(
    payload: Seq<u8>,
    result: Result<CapMsg, FrameError>,
) -> bool {
    forall|msg: CapMsgView, n: int|
        0 <= n < payload_of(msg).len() && payload == #[trigger] payload_of(msg).take(n) ==> (
        result matches Err(FrameError::Decode(DecodeError::Malformed(_))))
}

/// `result` is what encoding `msg` gives.
pub open spec fn is_encoded(msg: CapMsgView, result: Result<Vec<u8>, FrameError>) -> bool {
    if payload_of(msg).len() <= MAX_FRAME_SIZE {
        result matches Ok(frame) && frame@ == frame_of(payload_of(msg))
    } else {
        result == Err::<Vec<u8>, FrameError>(
            FrameError::TooLarge((payload_of(msg).len() % 0x1_0000_0000) as u32),
        )
    }
}

/// `result` is what reading a frame off `bytes` gives, and `left` what is then
/// still to be read.
pub open spec fn is_read_off(
    bytes: Seq<u8>,
    result: Result<CapMsg, FrameError>,
    left: Seq<u8>,
) -> bool {
    let len = claimed_length(bytes);
    if bytes.len() < 4 || (len <= MAX_FRAME_SIZE && bytes.len() < 4 + len) {
        &&& result == Err::<CapMsg, FrameError>(FrameError::Io(IoError::UnexpectedEof))
        &&& left.len() == 0
    } else if len > MAX_FRAME_SIZE {
        &&& result == Err::<CapMsg, FrameError>(FrameError::TooLarge(len))
        &&& left == bytes.skip(4)
    } else {
        &&& decodes_to(bytes.subrange(4, 4 + len), result)
        &&& left == bytes.skip(4 + len)
    }
}

/// Encode a `CapMsg` into `[u32 BE length][payload]`.
pub fn encode_frame(msg: &CapMsg) -> (result: Result<Vec<u8>, FrameError>)
    ensures
        payload_of(msg@).len() <= MAX_FRAME_SIZE ==> (result matches Ok(frame) && frame@
            == frame_of(payload_of(msg@))),
        payload_of(msg@).len() > MAX_FRAME_SIZE ==> result == Err::<Vec<u8>, FrameError>(
            FrameError::TooLarge((payload_of(msg@).len() % 0x1_0000_0000) as u32),
        ),
        is_encoded(msg@, result),
{
    let written: Result<Vec<u8>, postcard::Error> = match msg {
        CapMsg::Hello { protocol_version, peer_id, capabilities } => wire::write_hello(
            HELLO_TAG,
            *protocol_version,
            peer_id.as_str(),
            *capabilities,
        ),
        CapMsg::Clipboard { origin, serial, mime, data } => wire::write_clipboard(
            CLIPBOARD_TAG,
            origin.as_str(),
            *serial,
            mime.as_str(),
            data,
        ),
    };
    let payload: Vec<u8> = match written {
        Ok(payload) => payload,
        Err(e) => return Err(FrameError::Encode(e)),
    };
    let len: u64 = payload.len() as u64;
    if len > MAX_FRAME_SIZE as u64 {
        assert(len as u32 == len % 0x1_0000_0000) by (bit_vector);
        return Err(FrameError::TooLarge(#[verifier::truncate] (len as u32)));
    }
    let len32: u32 = payload.len() as u32;
    let mut out: Vec<u8> = Vec::with_capacity(4 + payload.len());
    out.push((len32 / 0x100_0000) as u8);
    out.push((len32 / 0x1_0000 % 0x100) as u8);
    out.push((len32 / 0x100 % 0x100) as u8);
    out.push((len32 % 0x100) as u8);
    assert(out@ =~= be32(len32));
    out.extend_from_slice(payload.as_slice());
    assert(out@ =~= frame_of(payload@));
    Ok(out)
}

/// The number in a frame's length prefix; refused where it is over the limit,
/// before anything of that size is allocated.
pub fn frame_length(prefix: [u8; 4]) -> (result: Result<u32, FrameError>)
    ensures
        from_be32(prefix@) <= MAX_FRAME_SIZE ==> result == Ok::<u32, FrameError>(
            from_be32(prefix@),
        ),
        from_be32(prefix@) > MAX_FRAME_SIZE ==> result == Err::<u32, FrameError>(
            FrameError::TooLarge(from_be32(prefix@)),
        ),
{
    let len: u32 = prefix[0] as u32 * 0x100_0000 + prefix[1] as u32 * 0x1_0000 + prefix[2] as u32
        * 0x100 + prefix[3] as u32;
    if len > MAX_FRAME_SIZE {
        return Err(FrameError::TooLarge(len));
    }
    Ok(len)
}

/// The message that was read as the fields of a `Hello` and the bytes behind
/// them. There must be none of these.
pub fn hello_message(read: Result<((u16, String, u32), &[u8]), postcard::Error>) -> (result: Result<
    CapMsg,
    FrameError,
>)
    ensures
        match read {
            Ok(((protocol_version, peer_id, capabilities), rest)) => if rest@.len() > 0 {
                result == Err::<CapMsg, FrameError>(FrameError::Decode(DecodeError::Trailing))
            } else {
                result == Ok::<CapMsg, FrameError>(
                    CapMsg::Hello { protocol_version, peer_id, capabilities },
                )
            },
            Err(e) => result == Err::<CapMsg, FrameError>(
                FrameError::Decode(DecodeError::Malformed(e)),
            ),
        },
{
    match read {
        Ok(((protocol_version, peer_id, capabilities), rest)) => if rest.len() > 0 {
            Err(FrameError::Decode(DecodeError::Trailing))
        } else {
            Ok(CapMsg::Hello { protocol_version, peer_id, capabilities })
        },
        Err(e) => Err(FrameError::Decode(DecodeError::Malformed(e))),
    }
}

/// The message that was read as the fields of a `Clipboard` and the bytes behind
/// them. There must be none of these.
pub fn clipboard_message(
    read: Result<((String, u64, String, Vec<u8>), &[u8]), postcard::Error>,
) -> (result: Result<CapMsg, FrameError>)
    ensures
        match read {
            Ok(((origin, serial, mime, data), rest)) => if rest@.len() > 0 {
                result == Err::<CapMsg, FrameError>(FrameError::Decode(DecodeError::Trailing))
            } else {
                result == Ok::<CapMsg, FrameError>(
                    CapMsg::Clipboard { origin, serial, mime, data },
                )
            },
            Err(e) => result == Err::<CapMsg, FrameError>(
                FrameError::Decode(DecodeError::Malformed(e)),
            ),
        },
{
    match read {
        Ok(((origin, serial, mime, data), rest)) => if rest.len() > 0 {
            Err(FrameError::Decode(DecodeError::Trailing))
        } else {
            Ok(CapMsg::Clipboard { origin, serial, mime, data })
        },
        Err(e) => Err(FrameError::Decode(DecodeError::Malformed(e))),
    }
}

/// Decode a frame's payload. It must hold one message and nothing else.
pub fn decode_payload(payload: &[u8]) -> (result: Result<CapMsg, FrameError>)
    ensures
        decodes_to(payload@, result),
        reads_whole_messages(payload@, result),
        refuses_cut_messages(payload@, result),
{
    proof {
        assert(payload@.len() == payload.len());
        lemma_whole_message(payload@);
        lemma_message_cut_short(payload@);
    }
    match wire::read_tag(payload) {
        Ok((tag, fields)) => if tag == HELLO_TAG {
            hello_message(wire::read_hello(fields))
        } else if tag == CLIPBOARD_TAG {
            clipboard_message(wire::read_clipboard(fields))
        } else {
            Err(
                FrameError::Decode(
                    DecodeError::Malformed(wire::invalid_value(tag as u64, EXPECTED_TAGS)),
                ),
            )
        },
        Err(e) => Err(FrameError::Decode(DecodeError::Malformed(e))),
    }
}

/// Where a payload starts with a message, it stands for that message, unless
/// something follows.
proof fn lemma_whole_message(payload: Seq<u8>)
    requires
        payload.len() <= usize::MAX,
    ensures
        forall|msg: CapMsgView, rest: Seq<u8>|
            payload == #[trigger] (payload_of(msg) + rest) ==> parse_payload(payload)
                == if rest.len() == 0 {
                Ok(msg)
            } else {
                Err(DecodeError::Trailing)
            },
{
    assert forall|msg: CapMsgView, rest: Seq<u8>|
        payload == #[trigger] (payload_of(msg) + rest) implies parse_payload(payload)
        == if rest.len() == 0 {
        Ok(msg)
    } else {
        Err(DecodeError::Trailing)
    } by {
        assert(payload =~= wire::varint(tag_of(msg) as nat) + (fields_of(msg) + rest));
        wire::law_tags_are_read_back(tag_of(msg), fields_of(msg) + rest);
        match msg {
            CapMsgView::Hello { protocol_version, peer_id, capabilities } => {
                wire::law_hello_fields_are_read_back(protocol_version, peer_id, capabilities, rest);
            },
            CapMsgView::Clipboard { origin, serial, mime, data } => {
                wire::law_clipboard_fields_are_read_back(origin, serial, mime, data, rest);
            },
        }
    }
}

/// Where a payload is a message cut short, it is malformed.
proof fn lemma_message_cut_short(payload: Seq<u8>)
    ensures
        forall|msg: CapMsgView, n: int|
            0 <= n < payload_of(msg).len() && payload == #[trigger] payload_of(msg).take(n) ==> (
            parse_payload(payload) matches Err(DecodeError::Malformed(_))),
{
    assert forall|msg: CapMsgView, n: int|
        0 <= n < payload_of(msg).len() && payload == #[trigger] payload_of(msg).take(n) implies (
    parse_payload(payload) matches Err(DecodeError::Malformed(_))) by {
        let tag = wire::varint(tag_of(msg) as nat);
        if n < tag.len() {
            assert(payload =~= tag.take(n));
            wire::law_cut_tags_are_refused(tag_of(msg), n);
        } else {
            let cut = n - tag.len();
            assert(payload =~= tag + fields_of(msg).take(cut));
            wire::law_tags_are_read_back(tag_of(msg), fields_of(msg).take(cut));
            match msg {
                CapMsgView::Hello { protocol_version, peer_id, capabilities } => {
                    wire::law_cut_hello_fields_are_refused(
                        protocol_version,
                        peer_id,
                        capabilities,
                        cut,
                    );
                },
                CapMsgView::Clipboard { origin, serial, mime, data } => {
                    wire::law_cut_clipboard_fields_are_refused(origin, serial, mime, data, cut);
                },
            }
        }
    }
}

/// Bytes that have arrived, read from front to back.
#[derive(Debug)]
pub struct ByteReader {
    bytes: Vec<u8>,
    pos: usize,
}

impl ByteReader {
    #[verifier::type_invariant]
    spec fn in_bounds(self) -> bool {
        self.pos <= self.bytes@.len()
    }

    /// All bytes, read or not.
    pub closed spec fn contents(&self) -> Seq<u8> {
        self.bytes@
    }

    /// How many bytes have been read.
    pub closed spec fn offset(&self) -> nat {
        self.pos as nat
    }

    /// The bytes that have not been read.
    pub open spec fn remaining(&self) -> Seq<u8> {
        self.contents().skip(self.offset() as int)
    }

    /// A reader at the first of `bytes`.
    pub fn new(bytes: Vec<u8>) -> (reader: ByteReader)
        ensures
            reader.contents() == bytes@,
            reader.offset() == 0,
    {
        ByteReader { bytes, pos: 0 }
    }

    /// How many bytes have been read.
    pub fn position(&self) -> (pos: usize)
        ensures
            pos == self.offset(),
            pos <= self.contents().len(),
    {
        proof {
            use_type_invariant(self);
        }
        self.pos
    }

    /// Reads exactly `count` bytes. Where fewer are left they are all consumed,
    /// and the read fails.
    pub fn read_exact(&mut self, count: usize) -> (result: Result<Vec<u8>, IoError>)
        ensures
            final(self).contents() == old(self).contents(),
            old(self).offset() <= final(self).offset() <= final(self).contents().len(),
            count <= old(self).remaining().len() ==> {
                &&& result matches Ok(read) && read@ == old(self).remaining().take(count as int)
                &&& final(self).offset() == old(self).offset() + count
            },
            count > old(self).remaining().len() ==> {
                &&& result == Err::<Vec<u8>, IoError>(IoError::UnexpectedEof)
                &&& final(self).offset() == old(self).contents().len()
            },
    {
        proof {
            use_type_invariant(&*self);
        }
        if count > self.bytes.len() - self.pos {
            self.pos = self.bytes.len();
            return Err(IoError::UnexpectedEof);
        }
        let start: usize = self.pos;
        let end: usize = start + count;
        let read: Vec<u8> = slice_to_vec(slice_subrange(self.bytes.as_slice(), start, end));
        assert(read@ =~= self.bytes@.skip(start as int).take(count as int));
        self.pos = end;
        Ok(read)
    }
}

/// The number in the length prefix at the front of `bytes`.
pub open spec fn claimed_length(bytes: Seq<u8>) -> u32 {
    from_be32(bytes.take(4))
}

/// Decode a `CapMsg` from the front of what `reader` has left.
///
/// Reads the 4-byte length prefix first; rejects frames larger than 64 MiB
/// before allocating any payload buffer, with the reader right behind the
/// prefix. A frame that [`encode_frame`] made is decoded to the message it was
/// made from, and what follows it stays unread.
pub fn decode_frame(reader: &mut ByteReader) -> (result: Result<CapMsg, FrameError>)
    ensures
        final(reader).contents() == old(reader).contents(),
        ({
            let bytes = old(reader).remaining();
            let len = claimed_length(bytes);
            if bytes.len() < 4 {
                &&& result == Err::<CapMsg, FrameError>(FrameError::Io(IoError::UnexpectedEof))
                &&& final(reader).offset() == final(reader).contents().len()
            } else if len > MAX_FRAME_SIZE {
                &&& result == Err::<CapMsg, FrameError>(FrameError::TooLarge(len))
                &&& final(reader).offset() == old(reader).offset() + 4
            } else if bytes.len() < 4 + len {
                &&& result == Err::<CapMsg, FrameError>(FrameError::Io(IoError::UnexpectedEof))
                &&& final(reader).offset() == final(reader).contents().len()
            } else {
                &&& decodes_to(bytes.subrange(4, 4 + len), result)
                &&& reads_whole_messages(bytes.subrange(4, 4 + len), result)
                &&& refuses_cut_messages(bytes.subrange(4, 4 + len), result)
                &&& final(reader).offset() == old(reader).offset() + 4 + len
            }
        }),
        forall|msg: CapMsgView, rest: Seq<u8>|
            old(reader).remaining() == #[trigger] (frame_of(payload_of(msg)) + rest)
                && payload_of(msg).len() <= MAX_FRAME_SIZE ==> {
                &&& result matches Ok(m) && m@ == msg
                &&& final(reader).remaining() == rest
            },
        is_read_off(old(reader).remaining(), result, final(reader).remaining()),
{
    let ghost start = reader.remaining();
    let ghost at = reader.offset();
    let ghost all = reader.contents();
    assert forall|msg: CapMsgView, rest: Seq<u8>|
        start == #[trigger] (frame_of(payload_of(msg)) + rest) && payload_of(msg).len()
            <= MAX_FRAME_SIZE implies {
        &&& claimed_length(start) == payload_of(msg).len()
        &&& start.len() >= 4 + payload_of(msg).len()
        &&& start.subrange(4, 4 + payload_of(msg).len() as int) == payload_of(msg) + Seq::<
            u8,
        >::empty()
        &&& start.skip(4 + payload_of(msg).len() as int) == rest
    } by {
        let payload = payload_of(msg);
        assert(start.take(4) =~= be32(payload.len() as u32));
        law_length_prefix_round_trips(payload.len() as u32);
        assert(start.subrange(4, 4 + payload.len() as int) =~= payload + Seq::<u8>::empty());
        assert(start.skip(4 + payload.len() as int) =~= rest);
    }
    let header: Vec<u8> = match reader.read_exact(4) {
        Ok(header) => header,
        Err(e) => return Err(FrameError::Io(e)),
    };
    let prefix: [u8; 4] = [header[0], header[1], header[2], header[3]];
    assert(prefix@ =~= start.take(4));
    assert(reader.remaining() =~= start.skip(4));
    let len: u32 = match frame_length(prefix) {
        Ok(len) => len,
        Err(e) => return Err(e),
    };
    let payload: Vec<u8> = match reader.read_exact(len as usize) {
        Ok(payload) => payload,
        Err(e) => return Err(FrameError::Io(e)),
    };
    assert(payload@ =~= start.subrange(4, 4 + len));
    assert(reader.remaining() =~= start.skip(4 + len));
    decode_payload(payload.as_slice())
}

/// The four bytes of a length prefix give back the length they were made from.
pub proof fn law_length_prefix_round_trips(n: u32)
    ensures
        be32(n).len() == 4,
        from_be32(be32(n)) == n,
{
}

/// Clipboard content over 64 MiB never goes out: whatever the other fields
/// are, the payload is over the limit.
pub proof fn law_oversize_content_is_never_framed(
    origin: Seq<char>,
    serial: u64,
    mime: Seq<char>,
    data: Seq<u8>,
)
    requires
        data.len() > MAX_FRAME_SIZE,
    ensures
        payload_of(CapMsgView::Clipboard { origin, serial, mime, data }).len() > MAX_FRAME_SIZE,
{
}

/// Nothing of a message is left out of its view.
pub proof fn law_message_views_leave_nothing_out(msg: CapMsg)
    ensures
        msg is Hello <==> msg@ is Hello,
        msg is Hello ==> {
            &&& msg@->protocol_version == msg->protocol_version
            &&& msg@->peer_id == msg->peer_id@
            &&& msg@->capabilities == msg->capabilities
        },
        msg is Clipboard ==> {
            &&& msg@->origin == msg->origin@
            &&& msg@->serial == msg->serial
            &&& msg@->mime == msg->mime@
            &&& msg@->data == msg->data@
        },
{
}

/// Different messages have different payloads and frames: none passes for
/// another.
pub proof fn law_messages_are_told_apart(a: CapMsgView, b: CapMsgView)
    requires
        payload_of(a).len() <= MAX_FRAME_SIZE,
        payload_of(b).len() <= MAX_FRAME_SIZE,
    ensures
        payload_of(a) == payload_of(b) ==> a == b,
        frame_of(payload_of(a)) == frame_of(payload_of(b)) ==> a == b,
{
    if frame_of(payload_of(a)) == frame_of(payload_of(b)) {
        assert(payload_of(a) =~= frame_of(payload_of(a)).skip(4));
        assert(payload_of(b) =~= frame_of(payload_of(b)).skip(4));
    }
    if payload_of(a) == payload_of(b) {
        lemma_whole_message(payload_of(a));
        assert(payload_of(a) =~= payload_of(a) + Seq::<u8>::empty());
        assert(payload_of(a) =~= payload_of(b) + Seq::<u8>::empty());
    }
}

/// What is decoded from the payload of a message is that message, and from a
/// payload with anything behind it an error: no other result will do.
pub proof fn law_decoding_undoes_encoding(
    msg: CapMsgView,
    rest: Seq<u8>,
    result: Result<CapMsg, FrameError>,
)
    requires
        payload_of(msg).len() + rest.len() <= usize::MAX,
        decodes_to(payload_of(msg) + rest, result),
    ensures
        rest.len() == 0 ==> result is Ok && result->Ok_0@ == msg,
        rest.len() > 0 ==> result == Err::<CapMsg, FrameError>(
            FrameError::Decode(DecodeError::Trailing),
        ),
{
    lemma_whole_message(payload_of(msg) + rest);
}

/// A payload that is decoded starts with the number of its message's kind, and
/// holds its fields and nothing else.
pub proof fn law_only_whole_messages_are_decoded(payload: Seq<u8>)
    requires
        parse_payload(payload) is Ok,
    ensures
        wire::leading_u32(payload) is Some,
        ({
            let (tag, fields) = wire::leading_u32(payload)->0;
            match parse_payload(payload)->Ok_0 {
                CapMsgView::Hello { protocol_version, peer_id, capabilities } => tag == 0
                    && wire::leading_hello(fields) == Some(
                    (protocol_version, peer_id, capabilities, Seq::<u8>::empty()),
                ),
                CapMsgView::Clipboard { origin, serial, mime, data } => tag == 1
                    && wire::leading_clipboard(fields) == Some(
                    (origin, serial, mime, data, Seq::<u8>::empty()),
                ),
            }
        }),
{
    let (tag, fields) = wire::leading_u32(payload)->0;
    if let Some((_, _, _, rest)) = wire::leading_hello(fields) {
        assert(rest.len() == 0 ==> rest =~= Seq::<u8>::empty());
    }
    if let Some((_, _, _, _, rest)) = wire::leading_clipboard(fields) {
        assert(rest.len() == 0 ==> rest =~= Seq::<u8>::empty());
    }
}

/// A frame is four bytes for the number of the payload's bytes, the highest
/// first, and then the payload.
pub proof fn law_a_frame_is_length_and_payload(payload: Seq<u8>)
    requires
        payload.len() <= u32::MAX,
    ensures
        ({
            let frame = frame_of(payload);
            &&& frame.len() == payload.len() + 4
            &&& frame.skip(4) == payload
            &&& frame[0] * 16777216 + frame[1] * 65536 + frame[2] * 256 + frame[3]
                == payload.len()
            &&& claimed_length(frame) == payload.len()
        }),
{
    let frame = frame_of(payload);
    assert(frame.skip(4) =~= payload);
    assert(frame.take(4) =~= be32(payload.len() as u32));
    law_length_prefix_round_trips(payload.len() as u32);
}

/// Every message of at most 64 MiB goes out, and no other: as its length in
/// four bytes, the highest first, and then as it is. What goes out is read back
/// as that message, and what follows it stays to be read.
pub proof fn law_what_goes_out_comes_in(
    msg: CapMsgView,
    sent: Result<Vec<u8>, FrameError>,
    rest: Seq<u8>,
    result: Result<CapMsg, FrameError>,
    left: Seq<u8>,
)
    requires
        payload_of(msg).len() <= usize::MAX,
        is_encoded(msg, sent),
    ensures
        sent is Ok <==> payload_of(msg).len() <= 67_108_864,
        sent is Err ==> sent->Err_0 is TooLarge,
        sent is Ok ==> {
            let frame = sent->Ok_0@;
            &&& frame.len() == payload_of(msg).len() + 4
            &&& frame.skip(4) == payload_of(msg)
            &&& frame[0] * 16777216 + frame[1] * 65536 + frame[2] * 256 + frame[3]
                == payload_of(msg).len()
            &&& is_read_off(frame + rest, result, left) ==> {
                &&& result is Ok
                &&& result->Ok_0@ == msg
                &&& left == rest
            }
        },
{
    if sent is Ok {
        let payload = payload_of(msg);
        let frame = sent->Ok_0@;
        law_a_frame_is_length_and_payload(payload);
        let bytes = frame + rest;
        assert(bytes.take(4) =~= frame.take(4));
        assert(bytes.subrange(4, 4 + payload.len() as int) =~= payload);
        assert(bytes.skip(4 + payload.len() as int) =~= rest);
        lemma_whole_message(payload);
        assert(payload =~= payload + Seq::<u8>::empty());
    }
}

/// A frame that claims over 64 MiB is refused with what it claims, and nothing
/// behind its four bytes is read. Bytes that end before the frame does are too
/// few, whatever they hold. In every other case exactly the frame is read, and
/// what follows it has no say in the result.
pub proof fn law_a_frame_is_read_to_its_end(
    bytes: Seq<u8>,
    result: Result<CapMsg, FrameError>,
    left: Seq<u8>,
    more: Seq<u8>,
    again: Result<CapMsg, FrameError>,
    left_again: Seq<u8>,
)
    requires
        is_read_off(bytes, result, left),
    ensures
        ({
            let claimed = bytes[0] * 16777216 + bytes[1] * 65536 + bytes[2] * 256 + bytes[3];
            let short = bytes.len() < 4 || (claimed <= 67_108_864 && bytes.len() < 4 + claimed);
            let large = bytes.len() >= 4 && claimed > 67_108_864;
            &&& short <==> result == Err::<CapMsg, FrameError>(
                FrameError::Io(IoError::UnexpectedEof),
            )
            &&& short ==> left.len() == 0
            &&& large <==> result is Err && result->Err_0 is TooLarge
            &&& large ==> result->Err_0->TooLarge_0 == claimed
            &&& large ==> left == bytes.skip(4)
            &&& !short && !large ==> left == bytes.skip(4 + claimed)
            &&& !short && is_read_off(bytes + more, again, left_again) ==> {
                &&& result is Ok <==> again is Ok
                &&& result is Ok ==> result->Ok_0@ == again->Ok_0@
                &&& result is Err ==> result == again
                &&& left_again == left + more
            }
        }),
{
    if bytes.len() >= 4 {
        let len = claimed_length(bytes);
        assert((bytes + more).take(4) =~= bytes.take(4));
        if bytes.len() >= 4 + len {
            assert((bytes + more).subrange(4, 4 + len) =~= bytes.subrange(4, 4 + len));
            assert((bytes + more).skip(4 + len) =~= bytes.skip(4 + len) + more);
        }
        assert((bytes + more).skip(4) =~= bytes.skip(4) + more);
    }
}

} // verus!
