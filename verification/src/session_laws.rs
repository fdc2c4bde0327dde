//! What one connection does with each frame, failure and outgoing message.

use vstd::prelude::*;

use crate::clipboard_net::{ClipboardNetError, NetErrorView, NetEventView};
use crate::peer_session::{ActionView, CloseReason, InputView, Phase, SessionView};
use crate::proto::{CapMsgView, FrameError};

verus! {

/// The first frame is accepted exactly where it is a `Hello` of protocol
/// version 1 under the proved fingerprint, whatever its capabilities are, and
/// these are what is accepted. Every other frame is refused with the reason: a
/// wrong version before a wrong name.
pub proof fn law_which_hello_is_accepted(frame: CapMsgView, tls_fingerprint: Seq<char>)
    ensures
        ({
            let result = crate::clipboard_net::hello_result(frame, tls_fingerprint);
            match frame {
                CapMsgView::Hello { protocol_version, peer_id, capabilities } => {
                    &&& result is Ok <==> protocol_version == 1 && peer_id == tls_fingerprint
                    &&& result is Ok ==> result->Ok_0 == capabilities
                    &&& protocol_version != 1 ==> result->Err_0
                        == (NetErrorView::ProtocolVersionMismatch {
                        local: 1,
                        remote: protocol_version,
                    })
                    &&& protocol_version == 1 && peer_id != tls_fingerprint ==> result->Err_0
                        == (NetErrorView::HelloFingerprintMismatch {
                        tls: tls_fingerprint,
                        hello: peer_id,
                    })
                },
                CapMsgView::Clipboard { .. } => result is Err && result->Err_0
                    == NetErrorView::ExpectedHello("Clipboard"@),
            }
        }),
{
}

/// This peer's own `Hello` names protocol version 1, its fingerprint and the
/// lowest capability bit alone.
pub proof fn law_the_local_hello(peer_id: Seq<char>)
    ensures
        crate::clipboard_net::hello_of(peer_id) == (CapMsgView::Hello {
            protocol_version: 1,
            peer_id,
            capabilities: 1,
        }),
{
}

/// A connection comes up with the first accepted `Hello`, is reported with the
/// peer's own capabilities, and is up with these.
pub proof fn law_an_accepted_peer_is_let_in(session: SessionView, capabilities: u32)
    requires
        session.phase is AwaitingHello,
    ensures
        ({
            let hello = InputView::Frame(
                CapMsgView::Hello {
                    protocol_version: 1,
                    peer_id: session.tls_fingerprint,
                    capabilities,
                },
            );
            &&& session.action(hello) == ActionView::Register(
                NetEventView::PeerConnected {
                    addr: session.addr,
                    fingerprint: session.tls_fingerprint,
                    capabilities,
                },
            )
            &&& session.after(hello) == (SessionView {
                phase: Phase::Up { capabilities },
                ..session
            })
        }),
{
}

/// Before the peer is let in, whatever goes wrong ends the connection, with the
/// error that tells what it was, and nothing that is due locally does anything.
pub proof fn law_failures_before_hello(session: SessionView, input: InputView)
    requires
        session.phase is AwaitingHello,
    ensures
        ({
            let action = session.action(input);
            match input {
                InputView::Frame(frame) => match crate::clipboard_net::hello_result(
                    frame,
                    session.tls_fingerprint,
                ) {
                    Ok(_) => action is Register,
                    Err(e) => action == ActionView::Fail(e),
                },
                InputView::ReadFailed(FrameError::TooLarge(len)) => action == ActionView::Fail(
                    NetErrorView::FrameTooLarge(len),
                ),
                InputView::ReadFailed(FrameError::Io(e)) => action == ActionView::Fail(
                    NetErrorView::Io(e),
                ),
                InputView::ReadFailed(FrameError::Decode(e)) => action == ActionView::Fail(
                    NetErrorView::Decode(e),
                ),
                InputView::ReadFailed(FrameError::Encode(e)) => action == ActionView::Fail(
                    NetErrorView::Encode(e),
                ),
                InputView::WriteFailed(FrameError::TooLarge(len)) => action == ActionView::Fail(
                    NetErrorView::FrameTooLarge(len),
                ),
                InputView::WriteFailed(FrameError::Io(e)) => action == ActionView::Fail(
                    NetErrorView::Io(e),
                ),
                InputView::WriteFailed(FrameError::Decode(e)) => action == ActionView::Fail(
                    NetErrorView::Decode(e),
                ),
                InputView::WriteFailed(FrameError::Encode(e)) => action == ActionView::Fail(
                    NetErrorView::Encode(e),
                ),
                InputView::HelloTimedOut => action == ActionView::Fail(NetErrorView::HelloTimeout),
                InputView::Outgoing(_) | InputView::QueueClosed => action == ActionView::Ignore
                    && session.after(input) == session,
            }
        }),
        session.action(input) is Fail ==> session.after(input).phase is Closed,
{
}

/// Once up, a connection ends with a second `Hello`, a message under another
/// name, a failed read or write, and the local end of it; with nothing else.
/// The report of the end names the peer, and the reason is the one that it was.
pub proof fn law_what_ends_a_connection(session: SessionView, input: InputView)
    requires
        session.phase is Up,
    ensures
        ({
            let reason = match input {
                InputView::Frame(CapMsgView::Hello { .. }) => Some(CloseReason::SecondHello),
                InputView::Frame(CapMsgView::Clipboard { origin, .. }) => if origin
                    != session.tls_fingerprint {
                    Some(CloseReason::ForgedOrigin)
                } else {
                    None
                },
                InputView::ReadFailed(e) => Some(CloseReason::ReadFailed(e)),
                InputView::WriteFailed(e) => Some(CloseReason::WriteFailed(e)),
                InputView::QueueClosed => Some(CloseReason::Dropped),
                InputView::HelloTimedOut | InputView::Outgoing(_) => None,
            };
            match reason {
                Some(r) => {
                    &&& session.action(input) == ActionView::Close(
                        NetEventView::PeerDisconnected {
                            addr: session.addr,
                            fingerprint: session.tls_fingerprint,
                        },
                        r,
                    )
                    &&& session.after(input) == (SessionView { phase: Phase::Closed, ..session })
                },
                None => {
                    &&& session.action(input) !is Close
                    &&& session.action(input) !is Fail
                    &&& session.action(input) !is Register
                    &&& session.after(input) == session
                },
            }
        }),
{
}

/// Between peers that share their clipboards every clipboard message goes
/// through, in both directions, unchanged, whatever it carries.
pub proof fn law_every_message_goes_through(session: SessionView, msg: CapMsgView)
    requires
        session.phase is Up,
        session.phase->capabilities & 1 != 0,
        msg is Clipboard,
    ensures
        session.action(InputView::Outgoing(msg)) == ActionView::Send(msg),
        msg->origin == session.tls_fingerprint ==> session.action(InputView::Frame(msg))
            == ActionView::Deliver(
            NetEventView::Message {
                addr: session.addr,
                fingerprint: session.tls_fingerprint,
                msg,
            },
        ),
{
}

/// What is held back of the outgoing messages is the clipboard, from a peer
/// that does not share its own, and nothing else.
pub proof fn law_what_is_sent(session: SessionView, msg: CapMsgView)
    requires
        session.phase is Up,
    ensures
        session.action(InputView::Outgoing(msg)) == ActionView::Ignore <==> msg is Clipboard
            && session.phase->capabilities & 1 == 0,
        session.action(InputView::Outgoing(msg)) == ActionView::Send(msg) <==> msg is Hello
            || session.phase->capabilities & 1 != 0,
        session.after(InputView::Outgoing(msg)) == session,
{
}

/// The state stays what it was with every input that neither lets the peer in
/// nor ends the connection; address and fingerprint always stay.
pub proof fn law_a_connection_keeps_its_peer(session: SessionView, input: InputView)
    ensures
        session.after(input).addr == session.addr,
        session.after(input).tls_fingerprint == session.tls_fingerprint,
        session.phase is Closed ==> session.after(input) == session && session.action(input)
            == ActionView::Ignore,
        session.action(input) is Ignore || session.action(input) is Send || session.action(
            input,
        ) is Deliver ==> session.after(input) == session,
{
}

/// The frames that carry `msgs`.
pub open spec fn frames(msgs: Seq<CapMsgView>) -> Seq<InputView> {
    msgs.map_values(|msg: CapMsgView| InputView::Frame(msg))
}

/// What a peer sends arrives: every message, once, in order, and nothing else.
pub proof fn law_messages_arrive_in_order(session: SessionView, msgs: Seq<CapMsgView>)
    requires
        session.phase is Up,
        session.phase->capabilities & 1 != 0,
        forall|i: int|
            0 <= i < msgs.len() ==> (#[trigger] msgs[i]) is Clipboard && msgs[i]->origin
                == session.tls_fingerprint,
    ensures
        ({
            let events = crate::peer_session::events_of(session, frames(msgs));
            &&& events.len() == msgs.len()
            &&& forall|i: int|
                0 <= i < msgs.len() ==> #[trigger] events[i] == (NetEventView::Message {
                    addr: session.addr,
                    fingerprint: session.tls_fingerprint,
                    msg: msgs[i],
                })
            &&& crate::peer_session::after_all(session, frames(msgs)) == session
        }),
    decreases msgs.len(),
{
    if msgs.len() > 0 {
        let before = msgs.drop_last();
        assert forall|i: int| 0 <= i < before.len() implies (#[trigger] before[i]) is Clipboard
            && before[i]->origin == session.tls_fingerprint by {
            assert(before[i] == msgs[i]);
        }
        law_messages_arrive_in_order(session, before);
        assert(frames(msgs).drop_last() =~= frames(before));
        assert(frames(msgs).last() == InputView::Frame(msgs.last()));
        let events = crate::peer_session::events_of(session, frames(msgs));
        let earlier = crate::peer_session::events_of(session, frames(before));
        assert forall|i: int| 0 <= i < msgs.len() implies #[trigger] events[i] == (
        NetEventView::Message {
            addr: session.addr,
            fingerprint: session.tls_fingerprint,
            msg: msgs[i],
        }) by {
            if i < before.len() {
                assert(events[i] == earlier[i]);
                assert(before[i] == msgs[i]);
            } else {
                assert(msgs[msgs.len() - 1] is Clipboard);
            }
        }
    }
}

/// Only the lowest bit of the capabilities matters to what goes through.
pub proof fn law_only_the_clipboard_bit_matters(capabilities: u32, others: u32)
    ensures
        crate::peer_session::shares_clipboard(capabilities) <==> capabilities & 1 != 0,
        crate::peer_session::shares_clipboard(capabilities)
            == crate::peer_session::shares_clipboard(
            (capabilities & 1) | (others & 0xffff_fffe),
        ),
{
    assert(((capabilities & 1) | (others & 0xffff_fffe)) & 1 == capabilities & 1) by (bit_vector);
}

/// Nothing is lost where a frame's failure becomes one of the connection.
pub proof fn law_frame_errors_keep_their_cause(a: FrameError, b: FrameError)
    ensures
        crate::clipboard_net::net_error_of(a) == crate::clipboard_net::net_error_of(b) ==> a == b,
        ({
            let error = crate::clipboard_net::net_error_of(a);
            match a {
                FrameError::TooLarge(len) => error == ClipboardNetError::FrameTooLarge(len),
                FrameError::Io(e) => error == ClipboardNetError::Io(e),
                FrameError::Encode(e) => error == ClipboardNetError::Encode(e),
                FrameError::Decode(e) => error == ClipboardNetError::Decode(e),
            }
        }),
{
}

/// A peer without authorization is told its own fingerprint, and peers with
/// different fingerprints are told different things.
pub proof fn law_a_refusal_names_the_fingerprint(a: Seq<char>, b: Seq<char>)
    ensures
        ({
            let text = crate::clipboard_net::unauthorized_text(a);
            &&& text.len() == 32 + a.len()
            &&& text.subrange(17, 17 + a.len() as int) == a
            &&& text.take(17) == "peer fingerprint "@
            &&& text.skip(17 + a.len() as int) == " not authorized"@
        }),
        crate::clipboard_net::unauthorized_text(a) == crate::clipboard_net::unauthorized_text(b)
            ==> a == b,
{
    reveal_strlit("peer fingerprint ");
    reveal_strlit(" not authorized");
    let x = crate::clipboard_net::unauthorized_text(a);
    let y = crate::clipboard_net::unauthorized_text(b);
    assert(x.subrange(17, 17 + a.len() as int) =~= a);
    assert(x.take(17) =~= "peer fingerprint "@);
    assert(x.skip(17 + a.len() as int) =~= " not authorized"@);
    if x == y {
        assert(y.subrange(17, 17 + b.len() as int) =~= b);
    }
}

/// A peer is let in exactly where the fingerprint of its certificate is one of
/// the keys, however many there are: each key admits its own peer, and one more
/// key shuts nobody out.
pub proof fn law_who_is_authorized(keys: Seq<String>, more: String, cert: Seq<u8>)
    ensures
        crate::clipboard_net::is_authorized(keys, cert) <==> exists|i: int|
            0 <= i < keys.len() && (#[trigger] keys[i])@ == crate::crypto::colon_hex(
                crate::crypto::sha256(cert),
            ),
        crate::clipboard_net::is_authorized(keys.push(more), cert)
            <==> crate::clipboard_net::is_authorized(keys, cert) || more@
            == crate::crypto::colon_hex(crate::crypto::sha256(cert)),
        !crate::clipboard_net::is_authorized(Seq::empty(), cert),
{
    let print = crate::crypto::fingerprint_of(cert);
    crate::text::law_every_item_is_found(keys, more, print);
    assert(crate::text::holds_text(keys, print) <==> exists|i: int|
        0 <= i < keys.len() && (#[trigger] keys[i])@ == print);
}

/// A certificate can be taken apart wherever neither its chain nor its key is
/// empty, however long they are; all of both is handed on, in order.
pub proof fn law_all_of_a_certificate_is_used(
    certificate: Seq<Vec<u8>>,
    serialized_der: Seq<u8>,
    result: Result<(Vec<Vec<u8>>, Vec<u8>), ClipboardNetError>,
)
    requires
        crate::clipboard_net::is_split(certificate, serialized_der, result),
    ensures
        result is Ok <==> certificate.len() > 0 && serialized_der.len() > 0,
        result matches Ok((chain, key)) ==> {
            &&& chain@.map_values(|der: Vec<u8>| der@) == certificate.map_values(
                |der: Vec<u8>| der@,
            )
            &&& key@ == serialized_der
        },
{
    if let Ok((chain, _)) = result {
        assert(chain@.map_values(|der: Vec<u8>| der@) =~= certificate.map_values(
            |der: Vec<u8>| der@,
        ));
    }
}

} // verus!
