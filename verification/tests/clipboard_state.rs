//! Loop suppression: one peer, then two and three peers that talk to each
//! other.

use lan_mouse_clipboard::clipboard_state::{
    ClipboardState, LocalChangeDecision, SelectionOrigin,
};
use lan_mouse_clipboard::content::MIME_TEXT_UTF8;
use lan_mouse_clipboard::{CapMsg, ClipboardChange, ClipboardContent, OriginHint};

const FP_LOCAL: &str = "aa:aa";
const FP_REMOTE_A: &str = "bb:bb";
const FP_REMOTE_B: &str = "cc:cc";

fn local_state() -> ClipboardState {
    ClipboardState::new(FP_LOCAL.into())
}

fn text(s: &str) -> ClipboardContent {
    ClipboardContent {
        mime: MIME_TEXT_UTF8.into(),
        data: s.as_bytes().to_vec(),
    }
}

fn local_change(s: &str) -> ClipboardChange {
    ClipboardChange::Content {
        content: text(s),
        origin_hint: OriginHint::Local,
    }
}

fn extract_clipboard(msg: CapMsg) -> (String, u64, String, Vec<u8>) {
    match msg {
        CapMsg::Clipboard {
            origin,
            serial,
            mime,
            data,
        } => (origin, serial, mime, data),
        _ => panic!("expected Clipboard"),
    }
}

#[test]
fn startup_baseline_is_not_broadcast() {
    let mut s = local_state();
    let d = s.on_local_change(local_change("first"));
    assert_eq!(d, LocalChangeDecision::Nothing);
    assert_eq!(s.selection_origin(), SelectionOrigin::Local);
}

#[test]
fn second_local_change_is_broadcast_with_serial_1() {
    let mut s = local_state();
    // Baseline.
    let _ = s.on_local_change(local_change("first"));
    // Real change.
    let d = s.on_local_change(local_change("hello"));
    let LocalChangeDecision::Broadcast(msg) = d else {
        panic!("expected Broadcast, got {d:?}");
    };
    let (origin, serial, mime, data) = extract_clipboard(msg);
    assert_eq!(origin, FP_LOCAL);
    assert_eq!(serial, 1);
    assert_eq!(mime, MIME_TEXT_UTF8);
    assert_eq!(data, b"hello");
}

#[test]
fn local_serial_is_monotonic() {
    let mut s = local_state();
    let _ = s.on_local_change(local_change("baseline"));
    let mut serials = vec![];
    for i in 0..5 {
        let d = s.on_local_change(local_change(&format!("v{i}")));
        let LocalChangeDecision::Broadcast(msg) = d else {
            panic!("expected Broadcast");
        };
        let (_, serial, _, _) = extract_clipboard(msg);
        serials.push(serial);
    }
    assert_eq!(serials, vec![1, 2, 3, 4, 5]);
}

#[test]
fn remote_message_with_fresh_serial_is_accepted() {
    let mut s = local_state();
    let out = s.on_remote_message(FP_REMOTE_A.into(), 1, MIME_TEXT_UTF8.into(), b"r1".to_vec());
    assert_eq!(out.as_ref().map(|c| c.data.as_slice()), Some(b"r1".as_slice()));
    assert_eq!(s.selection_origin(), SelectionOrigin::Remote);
    assert_eq!(s.last_seen(FP_REMOTE_A), 1);
}

#[test]
fn remote_message_with_stale_serial_is_dropped() {
    let mut s = local_state();
    let _ = s.on_remote_message(FP_REMOTE_A.into(), 5, MIME_TEXT_UTF8.into(), b"x".to_vec());
    // Equal serial: drop.
    let out = s.on_remote_message(FP_REMOTE_A.into(), 5, MIME_TEXT_UTF8.into(), b"y".to_vec());
    assert!(out.is_none());
    // Lower serial: drop.
    let out = s.on_remote_message(FP_REMOTE_A.into(), 3, MIME_TEXT_UTF8.into(), b"z".to_vec());
    assert!(out.is_none());
    // last_seen unchanged.
    assert_eq!(s.last_seen(FP_REMOTE_A), 5);
}

#[test]
fn remote_serials_are_tracked_per_peer() {
    let mut s = local_state();
    let _ = s.on_remote_message(FP_REMOTE_A.into(), 10, MIME_TEXT_UTF8.into(), b"a".to_vec());
    // Same serial from a different peer should still be accepted.
    let out =
        s.on_remote_message(FP_REMOTE_B.into(), 10, MIME_TEXT_UTF8.into(), b"b".to_vec());
    assert!(out.is_some());
    assert_eq!(s.last_seen(FP_REMOTE_A), 10);
    assert_eq!(s.last_seen(FP_REMOTE_B), 10);
}

#[test]
fn peer_reset_unblocks_serial_after_restart() {
    let mut s = local_state();
    let _ = s.on_remote_message(FP_REMOTE_A.into(), 9, MIME_TEXT_UTF8.into(), b"x".to_vec());
    // Peer restarts and resets to serial 1; without reset, would be dropped.
    s.reset_peer(FP_REMOTE_A);
    assert_eq!(s.last_seen(FP_REMOTE_A), 0);
    let out =
        s.on_remote_message(FP_REMOTE_A.into(), 1, MIME_TEXT_UTF8.into(), b"y".to_vec());
    assert!(out.is_some());
}

#[test]
fn duplicate_remote_content_is_suppressed() {
    let mut s = local_state();
    let out = s.on_remote_message(FP_REMOTE_A.into(), 1, MIME_TEXT_UTF8.into(), b"x".to_vec());
    assert!(out.is_some());
    // Same content from a different peer with a fresh serial: suppressed,
    // but the serial is still consumed.
    let out = s.on_remote_message(FP_REMOTE_B.into(), 1, MIME_TEXT_UTF8.into(), b"x".to_vec());
    assert!(out.is_none());
    assert_eq!(s.last_seen(FP_REMOTE_B), 1);
}

#[test]
fn duplicate_content_accepted_after_local_change() {
    let mut s = local_state();
    let _ = s.on_local_change(local_change("baseline"));
    let out = s.on_remote_message(FP_REMOTE_A.into(), 1, MIME_TEXT_UTF8.into(), b"x".to_vec());
    assert!(out.is_some());
    // Local copy of different content invalidates the suppression.
    let _ = s.on_local_change(local_change("y"));
    let out = s.on_remote_message(FP_REMOTE_A.into(), 2, MIME_TEXT_UTF8.into(), b"x".to_vec());
    assert!(out.is_some());
}

#[test]
fn make_relay_re_originates_with_fresh_serial() {
    let mut s = local_state();
    let _ = s.on_local_change(local_change("baseline"));
    let _ = s.on_local_change(local_change("local")); // serial 1
    let msg = s.make_relay(&text("relayed"));
    let (origin, serial, mime, data) = extract_clipboard(msg);
    assert_eq!(origin, FP_LOCAL);
    assert_eq!(serial, 2);
    assert_eq!(mime, MIME_TEXT_UTF8);
    assert_eq!(data, b"relayed");
    // Relaying must not flip the selection origin.
    let _ = s.on_remote_message(FP_REMOTE_A.into(), 1, MIME_TEXT_UTF8.into(), b"r".to_vec());
    let _ = s.make_relay(&text("r"));
    assert_eq!(s.selection_origin(), SelectionOrigin::Remote);
}

#[test]
fn remote_message_with_local_origin_is_dropped() {
    let mut s = local_state();
    let out = s.on_remote_message(FP_LOCAL.into(), 1, MIME_TEXT_UTF8.into(), b"x".to_vec());
    assert!(out.is_none());
}

#[test]
fn null_selection_after_local_does_nothing() {
    let mut s = local_state();
    // Make selection_origin Local.
    let _ = s.on_local_change(local_change("baseline"));
    let _ = s.on_local_change(local_change("hello"));
    assert_eq!(s.selection_origin(), SelectionOrigin::Local);
    let d = s.on_local_change(ClipboardChange::NullSelection);
    assert_eq!(d, LocalChangeDecision::Nothing);
}

#[test]
fn null_selection_after_remote_reclaims() {
    let mut s = local_state();
    let _ = s.on_remote_message(FP_REMOTE_A.into(), 1, MIME_TEXT_UTF8.into(), b"r".to_vec());
    assert_eq!(s.selection_origin(), SelectionOrigin::Remote);
    let d = s.on_local_change(ClipboardChange::NullSelection);
    let LocalChangeDecision::Reclaim(content) = d else {
        panic!("expected Reclaim, got {d:?}");
    };
    assert_eq!(content.data, b"r");
}

#[test]
fn null_selection_after_remote_without_cache_does_nothing() {
    // selection_origin would have to be Remote without last_remote_content
    // being set, which no method leads to.
    let mut s = local_state();
    // Force selection_origin to Remote without populating last_remote_content.
    s.set_selection_origin(SelectionOrigin::Remote);
    let d = s.on_local_change(ClipboardChange::NullSelection);
    assert_eq!(d, LocalChangeDecision::Nothing);
}

#[test]
fn remote_apply_sets_origin_to_remote() {
    let mut s = local_state();
    let _ = s.on_remote_message(FP_REMOTE_A.into(), 1, MIME_TEXT_UTF8.into(), b"x".to_vec());
    assert_eq!(s.selection_origin(), SelectionOrigin::Remote);
    // Local change after a remote should bump serial and flip back to Local.
    let _ = s.on_local_change(local_change("baseline"));
    // baseline absorbed but selection_origin set to Local
    assert_eq!(s.selection_origin(), SelectionOrigin::Local);
}

#[test]
fn remote_does_not_consume_baseline() {
    // A remote message before any local change should NOT consume the
    // startup baseline; the next local change must still be absorbed.
    let mut s = local_state();
    let _ = s.on_remote_message(FP_REMOTE_A.into(), 1, MIME_TEXT_UTF8.into(), b"r".to_vec());
    // First local change should still be the baseline (not broadcast).
    let d = s.on_local_change(local_change("first"));
    assert_eq!(d, LocalChangeDecision::Nothing);
}

const FP_A: &str = "aa:aa";
const FP_B: &str = "bb:bb";

/// Apply the broadcast from `from` to `to`. The caller is expected
/// to keep the `CapMsg::Clipboard` they wish to forward.
fn deliver(state: &mut ClipboardState, msg: CapMsg) -> Option<ClipboardContent> {
    match msg {
        CapMsg::Clipboard {
            origin,
            serial,
            mime,
            data,
        } => state.on_remote_message(origin, serial, mime, data),
        _ => panic!("expected Clipboard"),
    }
}

fn baseline(s: &mut ClipboardState) {
    assert_eq!(
        s.on_local_change(local_change("")),
        LocalChangeDecision::Nothing
    );
}

#[test]
fn a_copies_b_pastes() {
    let mut a = ClipboardState::new(FP_A.into());
    let mut b = ClipboardState::new(FP_B.into());
    baseline(&mut a);
    baseline(&mut b);

    // A copies "hello".
    let d = a.on_local_change(local_change("hello"));
    let LocalChangeDecision::Broadcast(msg) = d else {
        panic!("expected Broadcast");
    };
    // Delivered to B → applied.
    let applied = deliver(&mut b, msg);
    assert_eq!(applied.as_ref().map(|c| c.data.as_slice()), Some(b"hello".as_slice()));
    // B's state should have FP_A's serial recorded.
    assert_eq!(b.last_seen(FP_A), 1);
    assert_eq!(b.selection_origin(), SelectionOrigin::Remote);
}

#[test]
fn no_loop_when_b_does_not_rebroadcast_remote_apply() {
    // on_remote_message returns the content for the *backend* to apply; the
    // backend's self-fire suppression (origin marker / change count) keeps the
    // resulting local-change event back. That is simulated here by not calling
    // on_local_change after the apply.
    let mut a = ClipboardState::new(FP_A.into());
    let mut b = ClipboardState::new(FP_B.into());
    baseline(&mut a);
    baseline(&mut b);

    let LocalChangeDecision::Broadcast(msg) = a.on_local_change(local_change("hello"))
    else {
        panic!("expected Broadcast");
    };
    let _ = deliver(&mut b, msg);
    // B's local serial should be unchanged (0 baseline-only).
    assert_eq!(b.last_seen(FP_B), 0);
    // If B had re-broadcast, we'd see local_serial == 1 in a
    // broadcast message; verify by triggering an actual local change
    // and seeing serial 1, not 2.
    let LocalChangeDecision::Broadcast(msg) = b.on_local_change(local_change("from_b"))
    else {
        panic!("expected Broadcast");
    };
    if let CapMsg::Clipboard { serial, origin, .. } = msg {
        assert_eq!(serial, 1);
        assert_eq!(origin, FP_B);
    } else {
        panic!("expected Broadcast");
    }
}

#[test]
fn alternating_copies_each_side_wins() {
    let mut a = ClipboardState::new(FP_A.into());
    let mut b = ClipboardState::new(FP_B.into());
    baseline(&mut a);
    baseline(&mut b);

    // A:1 -> B
    let LocalChangeDecision::Broadcast(msg) = a.on_local_change(local_change("a1")) else {
        panic!("expected Broadcast");
    };
    assert!(deliver(&mut b, msg).is_some());
    // B:1 -> A
    let LocalChangeDecision::Broadcast(msg) = b.on_local_change(local_change("b1")) else {
        panic!("expected Broadcast");
    };
    assert!(deliver(&mut a, msg).is_some());
    // A:2 -> B
    let LocalChangeDecision::Broadcast(msg) = a.on_local_change(local_change("a2")) else {
        panic!("expected Broadcast");
    };
    assert!(deliver(&mut b, msg).is_some());
    // B saw A:1 then A:2 -> last_seen[A] == 2
    assert_eq!(b.last_seen(FP_A), 2);
    // A saw B:1 -> last_seen[B] == 1
    assert_eq!(a.last_seen(FP_B), 1);
}

#[test]
fn out_of_order_delivery_drops_older() {
    let mut a = ClipboardState::new(FP_A.into());
    let mut b = ClipboardState::new(FP_B.into());
    baseline(&mut a);
    baseline(&mut b);

    let LocalChangeDecision::Broadcast(m1) = a.on_local_change(local_change("a1")) else {
        panic!("expected Broadcast");
    };
    let LocalChangeDecision::Broadcast(m2) = a.on_local_change(local_change("a2")) else {
        panic!("expected Broadcast");
    };
    // Deliver newer first, then older. Older must be dropped.
    assert!(deliver(&mut b, m2).is_some());
    assert!(deliver(&mut b, m1).is_none());
    assert_eq!(b.last_seen(FP_A), 2);
}

#[test]
fn peer_restart_unblocks_new_session() {
    let mut a = ClipboardState::new(FP_A.into());
    let mut b = ClipboardState::new(FP_B.into());
    baseline(&mut a);
    baseline(&mut b);

    // A copies and sends a few times.
    for _ in 0..3 {
        let LocalChangeDecision::Broadcast(msg) = a.on_local_change(local_change("x"))
        else {
            panic!("expected Broadcast");
        };
        let _ = deliver(&mut b, msg);
    }
    assert_eq!(b.last_seen(FP_A), 3);

    // A restarts: its local_serial resets. On a fresh connection the
    // *receiver* resets last_seen[origin] to 0. Without that, A's next
    // message (serial 1) would be dropped.
    b.reset_peer(FP_A);
    assert_eq!(b.last_seen(FP_A), 0);

    // Simulate A restarted (new ClipboardState).
    let mut a2 = ClipboardState::new(FP_A.into());
    baseline(&mut a2);
    let LocalChangeDecision::Broadcast(msg) = a2.on_local_change(local_change("y")) else {
        panic!("expected Broadcast");
    };
    assert!(deliver(&mut b, msg).is_some());
    assert_eq!(b.last_seen(FP_A), 1);
}

#[test]
fn relay_cycle_terminates() {
    // Star topology with an extra leaf-to-leaf link (worst case:
    // full mesh A-M-B). Every accepted message is relayed; content
    // suppression must terminate the cycle.
    const FP_M: &str = "mm:mm";
    let mut a = ClipboardState::new(FP_A.into());
    let mut m = ClipboardState::new(FP_M.into());
    let mut b = ClipboardState::new(FP_B.into());
    baseline(&mut a);
    baseline(&mut m);
    baseline(&mut b);

    // A copies "x" and broadcasts to M (star: A is only connected
    // to the hub M).
    let LocalChangeDecision::Broadcast(msg) = a.on_local_change(local_change("x")) else {
        panic!("expected Broadcast");
    };
    // M accepts and relays to B.
    let content = deliver(&mut m, msg).expect("hub applies");
    let relay = m.make_relay(&content);
    // B accepts and relays to its peers except M (in a mesh, that
    // includes A).
    let content = deliver(&mut b, relay).expect("leaf applies");
    let relay = b.make_relay(&content);
    // A already holds "x": suppressed, cycle dead.
    assert!(deliver(&mut a, relay).is_none());
}

#[test]
fn b_ignores_message_claiming_to_be_b() {
    let mut b = ClipboardState::new(FP_B.into());
    baseline(&mut b);
    // Message claiming B's own fingerprint as origin.
    let out =
        b.on_remote_message(FP_B.into(), 1, MIME_TEXT_UTF8.into(), b"spoof".to_vec());
    assert!(out.is_none());
}
