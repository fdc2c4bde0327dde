//! Two machines, from a copy on one to the clipboard of the other.

use lan_mouse_clipboard::backend::DummyClipboard;
use lan_mouse_clipboard::clipboard::{Clipboard, NetOutcome};
use lan_mouse_clipboard::clipboard_state::{ClipboardState, LocalChangeDecision};
use lan_mouse_clipboard::content::MIME_TEXT_UTF8;
use lan_mouse_clipboard::macos::PasteboardState;
use lan_mouse_clipboard::peer_addr::PeerAddr;
use lan_mouse_clipboard::peer_session::{PeerSession, SessionAction, SessionInput};
use lan_mouse_clipboard::peer_table::{Command, CommandAction, PeerTable};
use lan_mouse_clipboard::proto::{decode_frame, encode_frame, ByteReader};
use lan_mouse_clipboard::wayland_dispatch::{DispatchLoop, LoopAction, LoopEvent};
use lan_mouse_clipboard::{CapMsg, ClipboardChange, ClipboardContent, OriginHint};

const FP_A: &str = "aa:aa";
const FP_B: &str = "bb:bb";
const ADDR_A: PeerAddr = PeerAddr::V4 { ip: 1, port: 4242 };
const ADDR_B: PeerAddr = PeerAddr::V4 { ip: 2, port: 4242 };

fn copied(s: &str) -> ClipboardChange {
    ClipboardChange::Content {
        content: ClipboardContent {
            mime: MIME_TEXT_UTF8.into(),
            data: s.as_bytes().to_vec(),
        },
        origin_hint: OriginHint::Local,
    }
}

fn task(fingerprint: &str) -> Clipboard<DummyClipboard> {
    let mut task = Clipboard::new(DummyClipboard::new().unwrap(), fingerprint.into());
    assert!(task.handle_local_change(copied("")).is_none());
    task
}

/// What arrives where `msg` is written.
fn transfer(msg: &CapMsg) -> CapMsg {
    decode_frame(&mut ByteReader::new(encode_frame(msg).unwrap())).unwrap()
}

fn connect() -> (PeerSession, PeerSession) {
    let (mut at_a, hello_a) = PeerSession::start(ADDR_B, FP_A, FP_B.into());
    let (mut at_b, hello_b) = PeerSession::start(ADDR_A, FP_B, FP_A.into());
    assert!(matches!(
        at_a.step(SessionInput::Frame(transfer(&hello_b))),
        SessionAction::Register(_)
    ));
    assert!(matches!(
        at_b.step(SessionInput::Frame(transfer(&hello_a))),
        SessionAction::Register(_)
    ));
    (at_a, at_b)
}

#[test]
fn copy_reaches_a_connected_peer_and_stays_there() {
    let (mut at_a, mut at_b) = connect();
    let mut a = task(FP_A);
    let mut b = task(FP_B);
    let msg = a.handle_local_change(copied("hello")).expect("broadcast");

    let SessionAction::Send(msg) = at_a.step(SessionInput::Outgoing(msg)) else {
        panic!("expected Send");
    };
    let SessionAction::Deliver(event) = at_b.step(SessionInput::Frame(transfer(&msg))) else {
        panic!("expected Deliver");
    };
    let NetOutcome::ApplyLocal {
        content,
        relay,
        src_fingerprint,
    } = b.handle_net_event(event)
    else {
        panic!("expected ApplyLocal");
    };
    assert_eq!(content.data, b"hello");
    assert_eq!(src_fingerprint, FP_A);

    // The relay spares the sender.
    let mut table: PeerTable<u8> = PeerTable::new();
    table.register(ADDR_A, 0, FP_A.into());
    match table.handle_command(Command::Broadcast {
        msg: relay.clone(),
        except_fingerprint: Some(src_fingerprint),
    }) {
        CommandAction::Send { to, .. } => assert!(to.is_empty()),
        other => panic!("unexpected {other:?}"),
    }

    // Even if it came back, it would end there.
    let SessionAction::Send(relay) = at_b.step(SessionInput::Outgoing(relay)) else {
        panic!("expected Send");
    };
    let SessionAction::Deliver(event) = at_a.step(SessionInput::Frame(transfer(&relay))) else {
        panic!("expected Deliver");
    };
    assert!(matches!(a.handle_net_event(event), NetOutcome::Nothing));
}

#[test]
fn local_work_keeps_what_was_seen() {
    let mut s = ClipboardState::new(FP_A.into());
    let _ = s.on_remote_message(FP_B.into(), 4, "m".into(), b"x".to_vec());
    let _ = s.on_local_change(copied("baseline"));
    let d = s.on_local_change(copied("y"));
    assert!(matches!(d, LocalChangeDecision::Broadcast(_)));
    let _ = s.make_relay(&ClipboardContent {
        mime: "m".into(),
        data: vec![],
    });
    let _ = s.on_local_change(ClipboardChange::NullSelection);
    assert_eq!(s.last_seen(FP_B), 4);
    assert_eq!(s.last_seen("cc:cc"), 0);
}

#[test]
fn serial_zero_is_never_new() {
    let mut s = ClipboardState::new(FP_A.into());
    assert!(s
        .on_remote_message(FP_B.into(), 0, "m".into(), b"x".to_vec())
        .is_none());
    assert!(s
        .on_remote_message(FP_B.into(), u64::MAX, "m".into(), b"x".to_vec())
        .is_some());
}

#[test]
fn same_bytes_under_another_type_are_new() {
    let mut s = ClipboardState::new(FP_A.into());
    assert!(s
        .on_remote_message(FP_B.into(), 1, "m".into(), b"x".to_vec())
        .is_some());
    assert!(s
        .on_remote_message(FP_B.into(), 2, "n".into(), b"x".to_vec())
        .is_some());
}

#[test]
fn text_survives_the_pasteboard() {
    let writer = PasteboardState::new(FP_A, 0, 0);
    let mut reader = PasteboardState::new(FP_B, 0, 0);
    let data = "Καλημέρα \u{1f98a}".as_bytes().to_vec();
    let items = writer
        .plan_set(&ClipboardContent {
            mime: MIME_TEXT_UTF8.into(),
            data: data.clone(),
        })
        .expect("text");
    let (marker, text) = (items.marker, items.text);
    match reader.poll(1, || Some(vec![marker]), || Some(text)) {
        Some(ClipboardChange::Content { content, .. }) => assert_eq!(content.data, data),
        other => panic!("unexpected {other:?}"),
    }
}

#[test]
fn commands_are_drained_before_every_wait() {
    let mut work = DispatchLoop::new();
    let mut drained = false;
    for round in 0..60 {
        let event = match work.pending {
            LoopAction::DispatchPending => LoopEvent::Dispatched { ok: true },
            LoopAction::DrainCommands => {
                drained = true;
                LoopEvent::Drained { go_on: true }
            }
            LoopAction::Flush => LoopEvent::Flushed,
            LoopAction::PrepareRead => LoopEvent::Prepared {
                ready: round % 3 != 0,
            },
            LoopAction::Poll => {
                assert!(drained);
                drained = false;
                LoopEvent::Polled {
                    rc: if round % 5 == 0 { -1 } else { 1 },
                    errno: 4,
                    wayland: (round % 2) as i16,
                    wakeup: 1,
                }
            }
            LoopAction::ReadEvents => LoopEvent::EventsRead { ok: true },
            LoopAction::CancelRead => LoopEvent::ReadCancelled,
            LoopAction::DrainWakeup => LoopEvent::WakeupDrained,
            LoopAction::Exit => panic!("ended"),
        };
        work.step(event);
    }
}
