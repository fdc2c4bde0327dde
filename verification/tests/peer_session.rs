//! One connection from its first frame to its end.

use lan_mouse_clipboard::clipboard_net::{ClipboardNetError, ClipboardNetEvent};
use lan_mouse_clipboard::peer_addr::PeerAddr;
use lan_mouse_clipboard::peer_session::{
    CloseReason, PeerSession, Phase, SessionAction, SessionInput,
};
use lan_mouse_clipboard::{CapMsg, FrameError, IoError};

const ADDR: PeerAddr = PeerAddr::V4 {
    ip: 0x0a00_0001,
    port: 4242,
};
const LOCAL: &str = "aa:aa";
const PEER: &str = "bb:bb";

fn hello(peer_id: &str, capabilities: u32) -> CapMsg {
    CapMsg::Hello {
        protocol_version: 1,
        peer_id: peer_id.into(),
        capabilities,
    }
}

fn clip(origin: &str) -> CapMsg {
    CapMsg::Clipboard {
        origin: origin.into(),
        serial: 1,
        mime: "text/plain".into(),
        data: b"x".to_vec(),
    }
}

fn started() -> PeerSession {
    PeerSession::start(ADDR, LOCAL, PEER.into()).0
}

fn up(capabilities: u32) -> PeerSession {
    let mut session = started();
    let action = session.step(SessionInput::Frame(hello(PEER, capabilities)));
    assert!(matches!(action, SessionAction::Register(_)));
    session
}

fn expect_closed(session: &mut PeerSession, input: SessionInput) -> CloseReason {
    match session.step(input) {
        SessionAction::Close(
            ClipboardNetEvent::PeerDisconnected { addr, fingerprint },
            reason,
        ) => {
            assert_eq!(addr, ADDR);
            assert_eq!(fingerprint, PEER);
            assert_eq!(session.phase(), Phase::Closed);
            reason
        }
        other => panic!("unexpected {other:?}"),
    }
}

#[test]
fn opens_with_hello() {
    let (session, first) = PeerSession::start(ADDR, LOCAL, PEER.into());
    assert_eq!(first, hello(LOCAL, 1));
    assert_eq!(session.phase(), Phase::AwaitingHello);
    assert_eq!(session.fingerprint(), PEER);
}

#[test]
fn two_peers_let_each_other_in() {
    let (mut a, hello_of_a) = PeerSession::start(ADDR, LOCAL, PEER.into());
    let (mut b, hello_of_b) = PeerSession::start(ADDR, PEER, LOCAL.into());
    assert!(matches!(
        a.step(SessionInput::Frame(hello_of_b)),
        SessionAction::Register(_)
    ));
    assert!(matches!(
        b.step(SessionInput::Frame(hello_of_a)),
        SessionAction::Register(_)
    ));
    let SessionAction::Send(msg) = a.step(SessionInput::Outgoing(clip(LOCAL))) else {
        panic!("expected Send");
    };
    let SessionAction::Deliver(ClipboardNetEvent::Message { msg, .. }) =
        b.step(SessionInput::Frame(msg))
    else {
        panic!("expected Deliver");
    };
    assert_eq!(msg, clip(LOCAL));
}

#[test]
fn accepted_hello_is_reported() {
    let mut session = started();
    match session.step(SessionInput::Frame(hello(PEER, 3))) {
        SessionAction::Register(ClipboardNetEvent::PeerConnected {
            addr,
            fingerprint,
            capabilities,
        }) => {
            assert_eq!(addr, ADDR);
            assert_eq!(fingerprint, PEER);
            assert_eq!(capabilities, 3);
        }
        other => panic!("unexpected {other:?}"),
    }
    assert_eq!(session.phase(), Phase::Up { capabilities: 3 });
}

#[test]
fn impostors_are_refused() {
    let mut session = started();
    assert!(matches!(
        session.step(SessionInput::Frame(hello("cc:cc", 1))),
        SessionAction::Fail(ClipboardNetError::HelloFingerprintMismatch { .. })
    ));
    assert_eq!(session.phase(), Phase::Closed);
}

#[test]
fn silence_is_not_waited_out() {
    let mut session = started();
    assert!(matches!(
        session.step(SessionInput::HelloTimedOut),
        SessionAction::Fail(ClipboardNetError::HelloTimeout)
    ));
    // Once the peer is up, the time has no meaning.
    let mut session = up(1);
    assert!(matches!(
        session.step(SessionInput::HelloTimedOut),
        SessionAction::Ignore
    ));
}

#[test]
fn failures_before_hello_are_errors() {
    let mut session = started();
    assert!(matches!(
        session.step(SessionInput::ReadFailed(FrameError::Io(
            IoError::UnexpectedEof
        ))),
        SessionAction::Fail(ClipboardNetError::Io(IoError::UnexpectedEof))
    ));
    let mut session = started();
    assert!(matches!(
        session.step(SessionInput::WriteFailed(FrameError::TooLarge(9))),
        SessionAction::Fail(ClipboardNetError::FrameTooLarge(9))
    ));
    let mut session = started();
    assert!(matches!(
        session.step(SessionInput::Frame(clip(PEER))),
        SessionAction::Fail(ClipboardNetError::ExpectedHello("Clipboard"))
    ));
}

#[test]
fn nothing_is_sent_before_hello() {
    let mut session = started();
    assert!(matches!(
        session.step(SessionInput::Outgoing(clip(LOCAL))),
        SessionAction::Ignore
    ));
    assert!(matches!(
        session.step(SessionInput::QueueClosed),
        SessionAction::Ignore
    ));
    assert_eq!(session.phase(), Phase::AwaitingHello);
}

#[test]
fn messages_are_delivered_under_the_proved_name() {
    let mut session = up(1);
    match session.step(SessionInput::Frame(clip(PEER))) {
        SessionAction::Deliver(ClipboardNetEvent::Message {
            addr,
            fingerprint,
            msg,
        }) => {
            assert_eq!(addr, ADDR);
            assert_eq!(fingerprint, PEER);
            assert_eq!(msg, clip(PEER));
        }
        other => panic!("unexpected {other:?}"),
    }
}

#[test]
fn forged_origin_ends_the_connection() {
    for capabilities in [1, 0] {
        let mut session = up(capabilities);
        assert!(matches!(
            expect_closed(&mut session, SessionInput::Frame(clip("cc:cc"))),
            CloseReason::ForgedOrigin
        ));
    }
}

#[test]
fn ends_have_reasons() {
    assert!(matches!(
        expect_closed(&mut up(1), SessionInput::Frame(hello(PEER, 1))),
        CloseReason::SecondHello
    ));
    assert!(matches!(
        expect_closed(&mut up(1), SessionInput::QueueClosed),
        CloseReason::Dropped
    ));
    assert!(matches!(
        expect_closed(
            &mut up(1),
            SessionInput::ReadFailed(FrameError::Io(IoError::UnexpectedEof))
        ),
        CloseReason::ReadFailed(FrameError::Io(IoError::UnexpectedEof))
    ));
    assert!(matches!(
        expect_closed(&mut up(1), SessionInput::WriteFailed(FrameError::TooLarge(9))),
        CloseReason::WriteFailed(FrameError::TooLarge(9))
    ));
}

#[test]
fn every_end_is_reported_once() {
    for input in [
        SessionInput::Frame(hello(PEER, 1)),
        SessionInput::ReadFailed(FrameError::Io(IoError::UnexpectedEof)),
        SessionInput::WriteFailed(FrameError::Io(IoError::Other("broken pipe".into()))),
        SessionInput::QueueClosed,
    ] {
        let mut session = up(1);
        let _ = expect_closed(&mut session, input);
        assert!(matches!(
            session.step(SessionInput::QueueClosed),
            SessionAction::Ignore
        ));
        assert!(matches!(
            session.step(SessionInput::Frame(clip(PEER))),
            SessionAction::Ignore
        ));
    }
}

#[test]
fn no_clipboard_traffic_without_the_capability() {
    let mut session = up(2);
    assert!(matches!(
        session.step(SessionInput::Outgoing(clip(LOCAL))),
        SessionAction::Ignore
    ));
    assert!(matches!(
        session.step(SessionInput::Frame(clip(PEER))),
        SessionAction::Ignore
    ));
    assert_eq!(session.phase(), Phase::Up { capabilities: 2 });
}
