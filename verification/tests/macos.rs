//! The macOS clipboard, poll by poll.

use lan_mouse_clipboard::macos::{marker_type, PasteboardState, MAX_SLEEP, POLL_INTERVAL};
use lan_mouse_clipboard::{ClipboardChange, ClipboardContent, OriginHint};

const MS: u64 = 1_000_000;

fn state() -> PasteboardState {
    PasteboardState::new("aa:aa", 7, 1_000 * MS)
}

fn content(data: &[u8]) -> ClipboardContent {
    ClipboardContent {
        mime: "text/plain;charset=utf-8".into(),
        data: data.to_vec(),
    }
}

fn text_of(change: Option<ClipboardChange>) -> Option<Vec<u8>> {
    match change? {
        ClipboardChange::Content {
            content,
            origin_hint,
        } => {
            assert_eq!(content.mime, "text/plain;charset=utf-8");
            assert_eq!(origin_hint, OriginHint::Local);
            Some(content.data)
        }
        ClipboardChange::NullSelection => panic!("unexpected empty selection"),
    }
}

#[test]
fn marker_type_names_the_peer() {
    assert_eq!(marker_type("aa:bb"), "de.feschber.LanMouse.origin.aa:bb");
}

#[test]
fn unchanged_pasteboard_is_not_read() {
    let mut s = state();
    let change = s.poll(7, || panic!("types read"), || panic!("text read"));
    assert!(change.is_none());
}

#[test]
fn changed_text_is_reported_once() {
    let mut s = state();
    let change = s.poll(
        8,
        || Some(vec!["public.utf8-plain-text".into()]),
        || Some("hé".into()),
    );
    assert_eq!(text_of(change), Some("hé".as_bytes().to_vec()));
    let change = s.poll(8, || panic!("types read"), || panic!("text read"));
    assert!(change.is_none());
}

#[test]
fn own_writes_are_not_reported() {
    let mut s = state();
    let types = || {
        Some(vec![
            "public.utf8-plain-text".to_string(),
            marker_type("aa:aa"),
        ])
    };
    assert!(s.poll(8, types, || panic!("text read")).is_none());
    // Those of another instance are.
    let mut other = PasteboardState::new("bb:bb", 7, 0);
    assert_eq!(
        text_of(other.poll(8, types, || Some("x".into()))),
        Some(b"x".to_vec())
    );
}

#[test]
fn set_counts_as_seen() {
    let mut s = state();
    s.set_done(9);
    assert!(s
        .poll(9, || panic!("types read"), || panic!("text read"))
        .is_none());
}

#[test]
fn pasteboard_without_types_or_text() {
    let mut s = state();
    assert_eq!(text_of(s.poll(8, || None, || Some("x".into()))), Some(b"x".to_vec()));
    assert!(s.poll(9, || None, || None).is_none());
}

#[test]
fn text_is_written_with_the_marker() {
    let s = state();
    let items = s.plan_set(&content("grüße".as_bytes())).expect("text");
    assert_eq!(items.text, "grüße");
    assert_eq!(items.marker, "de.feschber.LanMouse.origin.aa:aa");
    assert_eq!(items.marker_data, b"aa:aa");
}

#[test]
fn bytes_that_are_no_text_are_not_written() {
    let s = state();
    assert!(s.plan_set(&content(&[0xff, 0xfe])).is_none());
    assert!(s.plan_set(&content(&[0xc3])).is_none());
    assert_eq!(s.plan_set(&content(b"")).expect("text").text, "");
}

#[test]
fn polls_keep_their_cadence() {
    let mut s = state();
    assert_eq!(POLL_INTERVAL, 250 * MS);
    assert_eq!(MAX_SLEEP, 50 * MS);
    assert!(!s.poll_due(1_249 * MS));
    assert!(s.poll_due(1_250 * MS));
    assert!(!s.poll_due(1_499 * MS));
    // A late poll does not move the ones that follow.
    assert!(s.poll_due(1_600 * MS));
    assert!(s.poll_due(1_750 * MS));
    assert!(!s.poll_due(1_750 * MS));
}

#[test]
fn sleeps_are_short() {
    let s = state();
    assert_eq!(s.sleep_for(1_000 * MS), 50 * MS);
    assert_eq!(s.sleep_for(1_200 * MS), 50 * MS);
    assert_eq!(s.sleep_for(1_240 * MS), 10 * MS);
    assert_eq!(s.sleep_for(1_250 * MS), 0);
    assert_eq!(s.sleep_for(2_000 * MS), 0);
}

#[test]
fn marks_are_found_among_the_types() {
    let s = state();
    assert!(!s.is_marked_by_us(&None));
    assert!(!s.is_marked_by_us(&Some(vec![])));
    assert!(!s.is_marked_by_us(&Some(vec![marker_type("bb:bb")])));
    assert!(s.is_marked_by_us(&Some(vec!["x".into(), marker_type("aa:aa")])));
}
