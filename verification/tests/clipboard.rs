//! The clipboard task with a backend that keeps a record of its calls.

use lan_mouse_clipboard::clipboard::{Clipboard, NetOutcome};
use lan_mouse_clipboard::clipboard_net::ClipboardNetEvent;
use lan_mouse_clipboard::content::MIME_TEXT_UTF8;
use lan_mouse_clipboard::peer_addr::PeerAddr;
use lan_mouse_clipboard::{
    CapMsg, ClipboardChange, ClipboardContent, ClipboardError, OriginHint,
};
use std::cell::RefCell;
use std::rc::Rc;

#[derive(Default)]
struct Log {
    set: Vec<ClipboardContent>,
    terminated: bool,
}

struct Recorder {
    log: Rc<RefCell<Log>>,
    waiting: Vec<ClipboardChange>,
    broken: bool,
}

impl lan_mouse_clipboard::backend::Clipboard for Recorder {
    fn next_event(&mut self) -> Option<ClipboardChange> {
        self.waiting.pop()
    }

    fn set(&mut self, content: ClipboardContent) -> Result<(), ClipboardError> {
        self.log.borrow_mut().set.push(content);
        if self.broken {
            return Err(ClipboardError::Backend("broken".into()));
        }
        Ok(())
    }

    fn terminate(&mut self) -> Result<(), ClipboardError> {
        self.log.borrow_mut().terminated = true;
        Ok(())
    }
}

const ADDR: PeerAddr = PeerAddr::V4 { ip: 1, port: 2 };

fn task(broken: bool) -> (Clipboard<Recorder>, Rc<RefCell<Log>>) {
    let log = Rc::new(RefCell::new(Log::default()));
    let backend = Recorder {
        log: log.clone(),
        waiting: vec![],
        broken,
    };
    (Clipboard::new(backend, "aa:aa".into()), log)
}

fn content(s: &str) -> ClipboardContent {
    ClipboardContent {
        mime: MIME_TEXT_UTF8.into(),
        data: s.as_bytes().to_vec(),
    }
}

fn copied(s: &str) -> ClipboardChange {
    ClipboardChange::Content {
        content: content(s),
        origin_hint: OriginHint::Local,
    }
}

fn clip(origin: &str, serial: u64, s: &str) -> CapMsg {
    CapMsg::Clipboard {
        origin: origin.into(),
        serial,
        mime: MIME_TEXT_UTF8.into(),
        data: s.as_bytes().to_vec(),
    }
}

fn message(fingerprint: &str, msg: CapMsg) -> ClipboardNetEvent {
    ClipboardNetEvent::Message {
        addr: ADDR,
        fingerprint: fingerprint.into(),
        msg,
    }
}

fn connected(fingerprint: &str) -> ClipboardNetEvent {
    connected_with(fingerprint, 1)
}

fn connected_with(fingerprint: &str, capabilities: u32) -> ClipboardNetEvent {
    ClipboardNetEvent::PeerConnected {
        addr: ADDR,
        fingerprint: fingerprint.into(),
        capabilities,
    }
}

#[test]
fn backend_events_come_through() {
    let backend = Recorder {
        log: Rc::new(RefCell::new(Log::default())),
        waiting: vec![ClipboardChange::NullSelection, copied("x")],
        broken: false,
    };
    let mut task = Clipboard::new(backend, "aa:aa".into());
    assert!(matches!(
        task.next_backend_event(),
        Some(ClipboardChange::Content { .. })
    ));
    assert!(matches!(
        task.next_backend_event(),
        Some(ClipboardChange::NullSelection)
    ));
    assert!(task.next_backend_event().is_none());
}

#[test]
fn local_copies_are_broadcast_after_the_first() {
    let (mut task, log) = task(false);
    assert_eq!(task.handle_local_change(copied("first")), None);
    assert_eq!(
        task.handle_local_change(copied("second")),
        Some(clip("aa:aa", 1, "second"))
    );
    assert!(log.borrow().set.is_empty());
}

#[test]
fn remote_copies_are_applied_and_relayed() {
    let (mut task, log) = task(false);
    match task.handle_net_event(message("bb:bb", clip("bb:bb", 5, "hi"))) {
        NetOutcome::ApplyLocal {
            content: applied,
            relay,
            src_fingerprint,
        } => {
            assert_eq!(applied, content("hi"));
            assert_eq!(relay, clip("aa:aa", 1, "hi"));
            assert_eq!(src_fingerprint, "bb:bb");
            assert!(task.apply_remote(applied).is_ok());
        }
        other => panic!("unexpected {other:?}"),
    }
    assert_eq!(log.borrow().set, vec![content("hi")]);
    // The same message again is old news.
    assert!(matches!(
        task.handle_net_event(message("bb:bb", clip("bb:bb", 5, "hi"))),
        NetOutcome::Nothing
    ));
}

#[test]
fn emptied_selection_is_claimed_again() {
    let (mut task, log) = task(false);
    let _ = task.handle_net_event(message("bb:bb", clip("bb:bb", 1, "hi")));
    assert_eq!(
        task.handle_local_change(ClipboardChange::NullSelection),
        None
    );
    assert_eq!(log.borrow().set, vec![content("hi")]);
    // A local copy ends that.
    let _ = task.handle_local_change(copied("mine"));
    assert_eq!(
        task.handle_local_change(ClipboardChange::NullSelection),
        None
    );
    assert_eq!(log.borrow().set.len(), 1);
}

#[test]
fn failed_claims_change_nothing_else() {
    let (mut task, log) = task(true);
    let _ = task.handle_net_event(message("bb:bb", clip("bb:bb", 1, "hi")));
    assert_eq!(
        task.handle_local_change(ClipboardChange::NullSelection),
        None
    );
    assert_eq!(
        task.handle_local_change(ClipboardChange::NullSelection),
        None
    );
    assert_eq!(log.borrow().set.len(), 2);
    assert!(matches!(
        task.apply_remote(content("y")),
        Err(ClipboardError::Backend(text)) if text == "broken"
    ));
}

#[test]
fn forged_and_own_messages_are_dropped() {
    let (mut task, _) = task(false);
    for event in [
        message("bb:bb", clip("cc:cc", 1, "x")),
        message("aa:aa", clip("aa:aa", 1, "x")),
        message(
            "bb:bb",
            CapMsg::Hello {
                protocol_version: 1,
                peer_id: "bb:bb".into(),
                capabilities: 1,
            },
        ),
        ClipboardNetEvent::PeerDisconnected {
            addr: ADDR,
            fingerprint: "bb:bb".into(),
        },
    ] {
        assert!(matches!(task.handle_net_event(event), NetOutcome::Nothing));
    }
    // The forged serial did not count against cc:cc.
    assert!(matches!(
        task.handle_net_event(message("cc:cc", clip("cc:cc", 1, "x"))),
        NetOutcome::ApplyLocal { .. }
    ));
}

#[test]
fn restarted_peer_is_heard() {
    let (mut task, _) = task(false);
    let _ = task.handle_net_event(message("bb:bb", clip("bb:bb", u64::MAX, "old")));
    assert!(matches!(
        task.handle_net_event(message("bb:bb", clip("bb:bb", 1, "new"))),
        NetOutcome::Nothing
    ));
    assert!(matches!(
        task.handle_net_event(connected("cc:cc")),
        NetOutcome::Nothing
    ));
    assert!(matches!(
        task.handle_net_event(message("bb:bb", clip("bb:bb", 1, "new"))),
        NetOutcome::Nothing
    ));
    let _ = task.handle_net_event(connected("bb:bb"));
    assert!(matches!(
        task.handle_net_event(message("bb:bb", clip("bb:bb", 1, "new"))),
        NetOutcome::ApplyLocal { .. }
    ));
}

#[test]
fn peer_that_does_not_share_is_ignored() {
    let (mut task, _) = task(false);
    for capabilities in [0, 2] {
        let _ = task.handle_net_event(connected_with("bb:bb", capabilities));
        assert!(matches!(
            task.handle_net_event(message("bb:bb", clip("bb:bb", 1, "x"))),
            NetOutcome::Nothing
        ));
    }
    // The others are not affected, and neither did a serial count.
    assert!(matches!(
        task.handle_net_event(message("cc:cc", clip("cc:cc", 1, "y"))),
        NetOutcome::ApplyLocal { .. }
    ));
    let _ = task.handle_net_event(ClipboardNetEvent::PeerDisconnected {
        addr: ADDR,
        fingerprint: "bb:bb".into(),
    });
    assert!(matches!(
        task.handle_net_event(message("bb:bb", clip("bb:bb", 1, "x"))),
        NetOutcome::Nothing
    ));
    // Connecting with the bit lifts it.
    let _ = task.handle_net_event(connected_with("bb:bb", 3));
    assert!(matches!(
        task.handle_net_event(message("bb:bb", clip("bb:bb", 1, "x"))),
        NetOutcome::ApplyLocal { .. }
    ));
}

#[test]
fn copies_cross_the_hub() {
    let (mut hub, _) = task(false);
    let backend = Recorder {
        log: Rc::new(RefCell::new(Log::default())),
        waiting: vec![],
        broken: false,
    };
    let mut leaf = Clipboard::new(backend, "cc:cc".into());
    let NetOutcome::ApplyLocal { relay, .. } =
        hub.handle_net_event(message("bb:bb", clip("bb:bb", 9, "hi")))
    else {
        panic!("expected ApplyLocal");
    };
    match leaf.handle_net_event(message("aa:aa", relay)) {
        NetOutcome::ApplyLocal {
            content: applied, ..
        } => assert_eq!(applied, content("hi")),
        other => panic!("unexpected {other:?}"),
    }
}

#[test]
fn hello_and_terminate() {
    let (mut task, log) = task(false);
    assert_eq!(
        task.make_hello(),
        CapMsg::Hello {
            protocol_version: 1,
            peer_id: "aa:aa".into(),
            capabilities: 1,
        }
    );
    assert!(task.terminate().is_ok());
    assert!(log.borrow().terminated);
}
