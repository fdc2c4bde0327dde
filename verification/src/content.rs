//! Clipboard contents and the changes that backends observe.

use vstd::prelude::*;

use crate::text::bytes_equal;

verus! {

/// Canonical MIME type of the text that is shared.
pub const MIME_TEXT_UTF8: &'static str = "text/plain;charset=utf-8";

/// What a clipboard holds: bytes and their MIME type.
#[derive(Debug, Clone, PartialEq, Eq)]
pub struct ClipboardContent {
    pub mime: String,
    pub data: Vec<u8>,
}

/// The mathematical value of a [`ClipboardContent`].
#[verifier::ext_equal]
pub struct ContentView {
    pub mime: Seq<char>,
    pub data: Seq<u8>,
}

impl View for ClipboardContent {
    type V = ContentView;

    open spec fn view(&self) -> ContentView {
        ContentView { mime: self.mime@, data: self.data@ }
    }
}

impl ClipboardContent {
    /// Whether both contents have the same MIME type and the same bytes.
    pub fn same_as(&self, other: &ClipboardContent) -> (same: bool)
        ensures
            same == (self@ == other@),
    {
        self.mime == other.mime && bytes_equal(self.data.as_slice(), other.data.as_slice())
    }

    /// A second copy of this content.
    pub fn duplicate(&self) -> (copy: ClipboardContent)
        ensures
            copy@ == self@,
    {
        let data: Vec<u8> = self.data.clone();
        assert(data@ =~= self.data@);
        ClipboardContent { mime: self.mime.clone(), data }
    }
}

/// The view of a content that may be missing.
pub open spec fn view_of(content: Option<ClipboardContent>) -> Option<ContentView> {
    match content {
        Some(c) => Some(c@),
        None => None,
    }
}

/// Who caused a change, as far as the backend can tell.
#[derive(Debug, Clone, PartialEq, Eq)]
pub enum OriginHint {
    /// Change was caused by a local application.
    Local,
    /// Change was caused by this program itself (e.g. applying a remote paste).
    LanMouse,
}

/// An observed change to the local clipboard.
#[derive(Debug, Clone)]
pub enum ClipboardChange {
    /// The clipboard now holds the given content.
    Content { content: ClipboardContent, origin_hint: OriginHint },
    /// The clipboard has been emptied / no current selection. Only the
    /// Wayland backend emits this; it decides whether the selection is claimed
    /// again with the last remote content.
    NullSelection,
}

/// The mathematical value of a [`ClipboardChange`].
#[verifier::ext_equal]
pub enum ChangeView {
    Content { content: ContentView, origin_hint: OriginHint },
    NullSelection,
}

impl View for ClipboardChange {
    type V = ChangeView;

    open spec fn view(&self) -> ChangeView {
        match self {
            ClipboardChange::Content { content, origin_hint } => ChangeView::Content {
                content: content@,
                origin_hint: *origin_hint,
            },
            ClipboardChange::NullSelection => ChangeView::NullSelection,
        }
    }
}

/// Nothing of a content or a change is left out of its view: two with the same
/// view have the same type, bytes and origin.
pub proof fn law_views_leave_nothing_out(
    a: ClipboardContent,
    b: ClipboardContent,
    x: ClipboardChange,
    y: ClipboardChange,
)
    ensures
        a@ == b@ <==> a.mime@ == b.mime@ && a.data@ == b.data@,
        a@.mime == a.mime@ && a@.data == a.data@,
        view_of(Some(a)) == Some(a@) && view_of(None) is None,
        x@ is NullSelection <==> x is NullSelection,
        x is Content ==> x@ is Content && x@->content == x->content@ && x@->origin_hint
            == x->origin_hint,
        x@ == y@ ==> (x is Content == y is Content) && (x is Content ==> x->content@
            == y->content@),
{
}

} // verus!
