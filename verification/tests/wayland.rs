//! The Wayland clipboard, event by event.

use lan_mouse_clipboard::commands::{drain_step, Cmd, DrainStep, Received};
use lan_mouse_clipboard::wayland::{
    choose_manager, content_change, origin_marker, pick_mime, LocalSource, ManagerKind,
    OfferState, SelectionAction, WaylandState,
};
use lan_mouse_clipboard::wayland_dispatch::{DispatchLoop, LoopAction, LoopEvent};
use lan_mouse_clipboard::{ClipboardChange, ClipboardContent, IoError, OriginHint};

const UTF8: &str = "text/plain;charset=utf-8";

fn state(manager: ManagerKind) -> WaylandState {
    WaylandState::new(manager, "aa:aa")
}

fn content(s: &str) -> ClipboardContent {
    ClipboardContent {
        mime: UTF8.into(),
        data: s.as_bytes().to_vec(),
    }
}

fn offer(state: &mut WaylandState, id: u32, mimes: &[&str]) {
    state.on_data_offer(id);
    for mime in mimes {
        state.on_offer_mime(id, (*mime).into());
    }
}

fn select(state: &mut WaylandState, id: u32) -> Option<String> {
    match state.on_selection(Some(id)) {
        SelectionAction::Receive(mime) => Some(mime),
        SelectionAction::Discard => None,
        SelectionAction::Report(change) => panic!("unexpected {change:?}"),
    }
}

#[test]
fn marker_names_the_peer() {
    assert_eq!(
        origin_marker("aa:bb"),
        "application/x-lan-mouse-origin;peer=aa:bb"
    );
}

#[test]
fn ext_is_preferred() {
    assert_eq!(choose_manager(true, true), Some(ManagerKind::Ext));
    assert_eq!(choose_manager(true, false), Some(ManagerKind::Ext));
    assert_eq!(choose_manager(false, true), Some(ManagerKind::Wlr));
    assert_eq!(choose_manager(false, false), None);
}

#[test]
fn utf8_text_is_preferred() {
    let with = |mimes: &[&str]| {
        pick_mime(&OfferState {
            mime_types: mimes.iter().map(|m| m.to_string()).collect(),
        })
    };
    assert_eq!(with(&["text/plain", UTF8]).as_deref(), Some(UTF8));
    assert_eq!(
        with(&["image/png", "text/plain"]).as_deref(),
        Some("text/plain")
    );
    assert_eq!(with(&["image/png"]), None);
    assert_eq!(with(&[]), None);
}

#[test]
fn sources_are_known_by_protocol_and_number() {
    assert!(LocalSource::Ext(1).matches_ext(1));
    assert!(!LocalSource::Ext(1).matches_ext(2));
    assert!(!LocalSource::Ext(1).matches_wlr(1));
    assert!(LocalSource::Wlr(1).matches_wlr(1));
    assert!(!LocalSource::Wlr(1).matches_ext(1));
}

#[test]
fn foreign_text_is_read() {
    let mut s = state(ManagerKind::Ext);
    offer(&mut s, 1, &["TEXT", UTF8, "text/plain"]);
    offer(&mut s, 2, &["text/plain"]);
    assert_eq!(select(&mut s, 1).as_deref(), Some(UTF8));
    assert_eq!(select(&mut s, 2).as_deref(), Some("text/plain"));
    // What an offer advertised is forgotten with it.
    assert_eq!(select(&mut s, 1), None);
}

#[test]
fn types_of_unannounced_offers_count() {
    let mut s = state(ManagerKind::Wlr);
    s.on_offer_mime(5, UTF8.into());
    assert_eq!(select(&mut s, 5).as_deref(), Some(UTF8));
}

#[test]
fn announcing_an_offer_again_clears_it() {
    let mut s = state(ManagerKind::Ext);
    offer(&mut s, 1, &[UTF8]);
    s.on_data_offer(1);
    assert_eq!(select(&mut s, 1), None);
}

#[test]
fn empty_selection_is_reported() {
    let mut s = state(ManagerKind::Ext);
    assert!(matches!(
        s.on_selection(None),
        SelectionAction::Report(ClipboardChange::NullSelection)
    ));
}

#[test]
fn set_offers_text_and_marker() {
    let mut s = state(ManagerKind::Ext);
    let plan = s.handle_set(content("hi"), 1);
    assert_eq!(plan.destroy, None);
    assert_eq!(
        plan.offer,
        vec![
            UTF8.to_string(),
            "text/plain".to_string(),
            "application/x-lan-mouse-origin;peer=aa:aa".to_string()
        ]
    );
    let plan = s.handle_set(content("ho"), 2);
    assert_eq!(plan.destroy, Some(LocalSource::Ext(1)));
}

#[test]
fn own_content_is_never_read() {
    let mut s = state(ManagerKind::Ext);
    let plan = s.handle_set(content("hi"), 1);
    let mimes: Vec<&str> = plan.offer.iter().map(|m| m.as_str()).collect();
    offer(&mut s, 1, &mimes);
    assert_eq!(select(&mut s, 1), None);
    // Not even where no echo is expected any more.
    offer(&mut s, 2, &mimes);
    assert_eq!(select(&mut s, 2), None);
    // Another instance reads it.
    let mut other = WaylandState::new(ManagerKind::Ext, "bb:bb");
    offer(&mut other, 1, &mimes);
    assert_eq!(select(&mut other, 1).as_deref(), Some(UTF8));
}

#[test]
fn one_selection_after_a_set_is_held_back() {
    let mut s = state(ManagerKind::Ext);
    let _ = s.handle_set(content("hi"), 1);
    // An empty selection is no echo.
    assert!(matches!(
        s.on_selection(None),
        SelectionAction::Report(ClipboardChange::NullSelection)
    ));
    offer(&mut s, 1, &[UTF8]);
    assert_eq!(select(&mut s, 1), None);
    offer(&mut s, 2, &[UTF8]);
    assert_eq!(select(&mut s, 2).as_deref(), Some(UTF8));
}

#[test]
fn content_is_handed_out_until_cancelled() {
    let mut s = state(ManagerKind::Wlr);
    assert_eq!(s.source_send(UTF8), None);
    let _ = s.handle_set(content("hi"), 3);
    assert_eq!(s.source_send(UTF8), Some(b"hi".to_vec()));
    assert_eq!(s.source_send("text/plain"), Some(b"hi".to_vec()));
    assert_eq!(
        s.source_send(&origin_marker("aa:aa")),
        Some(b"aa:aa".to_vec())
    );
    // Another source, and the same number under the other protocol.
    assert_eq!(s.source_cancelled(LocalSource::Wlr(2)), None);
    assert_eq!(s.source_cancelled(LocalSource::Ext(3)), None);
    assert_eq!(s.source_send(UTF8), Some(b"hi".to_vec()));
    assert_eq!(
        s.source_cancelled(LocalSource::Wlr(3)),
        Some(LocalSource::Wlr(3))
    );
    assert_eq!(s.source_send(UTF8), None);
    assert_eq!(s.source_cancelled(LocalSource::Wlr(3)), None);
    assert_eq!(
        s.source_send(&origin_marker("aa:aa")),
        Some(b"aa:aa".to_vec())
    );
}

#[test]
fn complete_reads_are_local_changes() {
    match content_change("text/plain".into(), Ok(b"x".to_vec())) {
        Some(ClipboardChange::Content {
            content,
            origin_hint,
        }) => {
            assert_eq!(content.mime, "text/plain");
            assert_eq!(content.data, b"x");
            assert_eq!(origin_hint, OriginHint::Local);
        }
        other => panic!("unexpected {other:?}"),
    }
    assert!(content_change("text/plain".into(), Err(IoError::UnexpectedEof)).is_none());
}

#[test]
fn commands_are_carried_out_in_turn() {
    assert!(matches!(
        drain_step(Received::Command(Cmd::SetContent(content("hi")))),
        DrainStep::Apply(c) if c == content("hi")
    ));
    assert!(matches!(
        drain_step(Received::Command(Cmd::Terminate)),
        DrainStep::Exit
    ));
    assert!(matches!(drain_step(Received::Disconnected), DrainStep::Exit));
    assert!(matches!(drain_step(Received::Empty), DrainStep::Idle));
}

fn polled(rc: i32, errno: i32, wayland: i16, wakeup: i16) -> LoopEvent {
    LoopEvent::Polled {
        rc,
        errno,
        wayland,
        wakeup,
    }
}

fn waiting() -> DispatchLoop {
    let mut state = DispatchLoop::new();
    assert_eq!(state.pending, LoopAction::DispatchPending);
    assert_eq!(
        state.step(LoopEvent::Dispatched { ok: true }),
        LoopAction::DrainCommands
    );
    assert_eq!(
        state.step(LoopEvent::Drained { go_on: true }),
        LoopAction::Flush
    );
    assert_eq!(state.step(LoopEvent::Flushed), LoopAction::PrepareRead);
    assert_eq!(
        state.step(LoopEvent::Prepared { ready: true }),
        LoopAction::Poll
    );
    state
}

#[test]
fn one_round_of_the_dispatch_thread() {
    let mut state = waiting();
    assert_eq!(state.step(polled(2, 0, 1, 1)), LoopAction::ReadEvents);
    assert_eq!(
        state.step(LoopEvent::EventsRead { ok: true }),
        LoopAction::DrainWakeup
    );
    assert_eq!(
        state.step(LoopEvent::WakeupDrained),
        LoopAction::DispatchPending
    );
    let mut state = waiting();
    assert_eq!(state.step(polled(1, 0, 0, 1)), LoopAction::CancelRead);
    assert_eq!(
        state.step(LoopEvent::ReadCancelled),
        LoopAction::DrainWakeup
    );
    let mut state = waiting();
    assert_eq!(state.step(polled(1, 0, 1, 0)), LoopAction::ReadEvents);
    assert_eq!(
        state.step(LoopEvent::EventsRead { ok: true }),
        LoopAction::DispatchPending
    );
}

#[test]
fn hangup_without_input_reads_nothing() {
    let mut state = waiting();
    assert_eq!(state.step(polled(1, 0, 0x10, 0x8)), LoopAction::CancelRead);
    assert_eq!(
        state.step(LoopEvent::ReadCancelled),
        LoopAction::DispatchPending
    );
}

#[test]
fn buffered_events_are_handled_first() {
    let mut state = DispatchLoop::new();
    state.step(LoopEvent::Dispatched { ok: true });
    state.step(LoopEvent::Drained { go_on: true });
    state.step(LoopEvent::Flushed);
    assert_eq!(
        state.step(LoopEvent::Prepared { ready: false }),
        LoopAction::DispatchPending
    );
}

#[test]
fn interrupted_wait_is_repeated() {
    let mut state = waiting();
    assert_eq!(state.step(polled(-1, 4, 0, 0)), LoopAction::CancelRead);
    assert_eq!(
        state.step(LoopEvent::ReadCancelled),
        LoopAction::DispatchPending
    );
}

#[test]
fn failures_end_the_dispatch_thread() {
    let mut state = waiting();
    assert_eq!(state.step(polled(-1, 9, 0, 0)), LoopAction::Exit);
    assert_eq!(
        state.step(LoopEvent::Dispatched { ok: true }),
        LoopAction::Exit
    );
    let mut state = waiting();
    state.step(polled(1, 0, 1, 0));
    assert_eq!(
        state.step(LoopEvent::EventsRead { ok: false }),
        LoopAction::Exit
    );
    let mut state = DispatchLoop::new();
    assert_eq!(
        state.step(LoopEvent::Dispatched { ok: false }),
        LoopAction::Exit
    );
    let mut state = DispatchLoop::new();
    state.step(LoopEvent::Dispatched { ok: true });
    assert_eq!(
        state.step(LoopEvent::Drained { go_on: false }),
        LoopAction::Exit
    );
}

#[test]
fn reports_on_other_work_change_nothing() {
    let mut state = waiting();
    assert_eq!(state.step(LoopEvent::Flushed), LoopAction::Poll);
    assert_eq!(state.step(LoopEvent::WakeupDrained), LoopAction::Poll);
}
