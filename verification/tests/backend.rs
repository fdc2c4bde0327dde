//! The choice between the platform clipboards.

use lan_mouse_clipboard::backend::{
    Backend, BackendHandle, Clipboard, DummyClipboard, LanMouseClipboard, TargetBackends,
};
use lan_mouse_clipboard::{
    ClipboardChange, ClipboardContent, ClipboardCreationError, ClipboardError,
};

struct Native {
    contents: Vec<ClipboardContent>,
}

impl Clipboard for Native {
    fn next_event(&mut self) -> Option<ClipboardChange> {
        Some(ClipboardChange::NullSelection)
    }

    fn set(&mut self, content: ClipboardContent) -> Result<(), ClipboardError> {
        self.contents.push(content);
        Ok(())
    }

    fn terminate(&mut self) -> Result<(), ClipboardError> {
        Err(ClipboardError::Backend("stuck".into()))
    }
}

const LINUX: TargetBackends = TargetBackends {
    wayland: true,
    macos: false,
    windows: false,
};

fn opens(_: Backend, _: &str) -> Result<Option<Native>, ClipboardCreationError> {
    Ok(Some(Native { contents: vec![] }))
}

fn has_none(_: Backend, _: &str) -> Result<Option<Native>, ClipboardCreationError> {
    Ok(None)
}

fn fails(_: Backend, peer_id: &str) -> Result<Option<Native>, ClipboardCreationError> {
    Err(ClipboardCreationError::Backend(format!("no {peer_id}")))
}

fn content() -> ClipboardContent {
    ClipboardContent {
        mime: "text/plain".into(),
        data: b"x".to_vec(),
    }
}

#[test]
fn targets_have_their_backends() {
    assert_eq!(TargetBackends::of_target(false, true, false), LINUX);
    assert_eq!(
        LINUX.candidates(),
        vec![Backend::Wayland, Backend::Dummy]
    );
    assert_eq!(
        TargetBackends::of_target(true, true, false).candidates(),
        vec![Backend::MacOs, Backend::Dummy]
    );
    assert_eq!(
        TargetBackends::of_target(false, false, true).candidates(),
        vec![Backend::Windows, Backend::Dummy]
    );
    assert_eq!(
        TargetBackends::of_target(false, false, false).candidates(),
        vec![Backend::Dummy]
    );
}

#[test]
fn first_backend_that_opens_is_taken() {
    let clipboard = LanMouseClipboard::new(None, "aa", LINUX, opens).unwrap();
    assert_eq!(clipboard.backend, Backend::Wayland);
    assert!(matches!(clipboard.inner, BackendHandle::Native(_)));
}

#[test]
fn dummy_stands_in() {
    let clipboard = LanMouseClipboard::new(None, "aa", LINUX, fails).unwrap();
    assert_eq!(clipboard.backend, Backend::Dummy);
    assert!(matches!(clipboard.inner, BackendHandle::Stub(_)));
}

#[test]
fn backend_without_a_clipboard_does_nothing() {
    for requested in [None, Some(Backend::Wayland)] {
        let mut clipboard = LanMouseClipboard::new(requested, "aa", LINUX, has_none).unwrap();
        assert_eq!(clipboard.backend, Backend::Wayland);
        assert!(matches!(clipboard.inner, BackendHandle::Stub(_)));
        assert!(clipboard.next_event().is_none());
        assert!(clipboard.set(content()).is_ok());
        assert!(clipboard.next_event().is_none());
        assert!(clipboard.terminate().is_ok());
    }
}

#[test]
fn requested_backend_has_no_stand_in() {
    let result = LanMouseClipboard::new(Some(Backend::Wayland), "aa", LINUX, fails);
    assert!(matches!(
        result,
        Err(ClipboardCreationError::Backend(text)) if text == "no aa"
    ));
    let windows = LanMouseClipboard::new(Some(Backend::Windows), "aa", LINUX, fails).unwrap();
    assert_eq!(windows.backend, Backend::Windows);
    assert!(matches!(windows.inner, BackendHandle::Stub(_)));
}

#[test]
fn dummy_does_nothing() {
    let mut dummy = DummyClipboard::new().unwrap();
    assert!(dummy.next_event().is_none());
    assert!(dummy.set(content()).is_ok());
    assert!(dummy.terminate().is_ok());
}

#[test]
fn calls_reach_the_backend() {
    let mut clipboard = LanMouseClipboard::new(None, "aa", LINUX, opens).unwrap();
    assert!(matches!(
        clipboard.next_event(),
        Some(ClipboardChange::NullSelection)
    ));
    assert!(clipboard.set(content()).is_ok());
    match &clipboard.inner {
        BackendHandle::Native(native) => assert_eq!(native.contents, vec![content()]),
        BackendHandle::Stub(_) => panic!("expected the native clipboard"),
    }
    assert!(clipboard.terminate().is_err());
}
