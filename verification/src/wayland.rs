//! The decisions of the Wayland clipboard.
//!
//! Two protocols serve, `ext_data_control_manager_v1` (preferred) and
//! `zwlr_data_control_manager_v1` version 2. Offers are known by the numbers
//! that the protocol gives them, sources by numbers that the caller gives them.

use std::collections::HashMap;
use vstd::prelude::*;
use vstd::slice::slice_to_vec;
use vstd::string::StringExecFns;

use crate::content::{ChangeView, ClipboardChange, ClipboardContent, OriginHint, MIME_TEXT_UTF8};
use crate::error::IoError;
use crate::text::{contains_text, text_equal};

verus! {

broadcast use vstd::std_specs::hash::group_hash_axioms;

/// Legacy fallback MIME type.
pub const MIME_TEXT_LEGACY: &'static str = "text/plain";

/// Origin marker MIME prefix. Each instance offers a MIME of the form
/// `application/x-lan-mouse-origin;peer=<fingerprint>` alongside the text
/// MIMEs. Receivers (including this instance) drop any selection whose
/// advertised MIME list contains *their own* marker. The marker carries the
/// peer fingerprint so two instances on the same machine still see each
/// other's clipboard.
pub const MIME_ORIGIN_PREFIX: &'static str = "application/x-lan-mouse-origin;peer=";

/// The origin marker of the peer with this fingerprint.
pub open spec fn marker_of(peer_id: Seq<char>) -> Seq<char> {
    MIME_ORIGIN_PREFIX@ + peer_id
}

/// The origin marker of the peer with this fingerprint.
pub fn origin_marker(peer_id: &str) -> (marker: String)
    ensures
        marker@ == marker_of(peer_id@),
{
    let mut marker: String = MIME_ORIGIN_PREFIX.to_owned();
    marker.append(peer_id);
    marker
}

/// The data-control protocols.
#[derive(Debug, Clone, Copy, PartialEq, Eq, Structural)]
pub enum ManagerKind {
    Ext,
    Wlr,
}

/// The protocol to use, from which of the two managers could be bound.
pub open spec fn preferred_manager(ext_bound: bool, wlr_bound: bool) -> Option<ManagerKind> {
    if ext_bound {
        Some(ManagerKind::Ext)
    } else if wlr_bound {
        Some(ManagerKind::Wlr)
    } else {
        None
    }
}

/// Picks the protocol to use, from which of the two managers could be bound.
/// Where neither could, clipboards cannot be shared on this compositor.
pub fn choose_manager(ext_bound: bool, wlr_bound: bool) -> (kind: Option<ManagerKind>)
    ensures
        kind == if ext_bound {
            Some(ManagerKind::Ext)
        } else if wlr_bound {
            Some(ManagerKind::Wlr)
        } else {
            None
        },
        kind == preferred_manager(ext_bound, wlr_bound),
{
    if ext_bound {
        Some(ManagerKind::Ext)
    } else if wlr_bound {
        Some(ManagerKind::Wlr)
    } else {
        None
    }
}

/// Identity of a source of ours.
#[derive(Debug, Clone, Copy, PartialEq, Eq, Structural)]
pub enum LocalSource {
    Ext(u64),
    Wlr(u64),
}

impl LocalSource {
    pub fn matches_ext(&self, other: u64) -> (same: bool)
        ensures
            same == (*self == LocalSource::Ext(other)),
    {
        match self {
            LocalSource::Ext(id) => *id == other,
            LocalSource::Wlr(_) => false,
        }
    }

    pub fn matches_wlr(&self, other: u64) -> (same: bool)
        ensures
            same == (*self == LocalSource::Wlr(other)),
    {
        match self {
            LocalSource::Wlr(id) => *id == other,
            LocalSource::Ext(_) => false,
        }
    }
}

/// Per-offer state: the list of advertised MIME types.
#[derive(Debug)]
pub struct OfferState {
    pub mime_types: Vec<String>,
}

impl View for OfferState {
    type V = Seq<Seq<char>>;

    open spec fn view(&self) -> Seq<Seq<char>> {
        self.mime_types@.map_values(|mime: String| mime@)
    }
}

/// The MIME type under which an offer is read: UTF-8 text where there is any,
/// else legacy text.
pub open spec fn picked_mime(mime_types: Seq<Seq<char>>) -> Option<Seq<char>> {
    if mime_types.contains(MIME_TEXT_UTF8@) {
        Some(MIME_TEXT_UTF8@)
    } else if mime_types.contains(MIME_TEXT_LEGACY@) {
        Some(MIME_TEXT_LEGACY@)
    } else {
        None
    }
}

impl OfferState {
    /// Whether the offer advertises `mime`.
    fn advertises(&self, mime: &str) -> (found: bool)
        ensures
            found == self@.contains(mime@),
    {
        proof {
            if crate::text::holds_text(self.mime_types@, mime@) {
                let i = choose|i: int|
                    0 <= i < self.mime_types@.len() && (#[trigger] self.mime_types@[i])@ == mime@;
                assert(self@[i] == mime@);
            }
            if self@.contains(mime@) {
                let i = choose|i: int| 0 <= i < self@.len() && self@[i] == mime@;
                assert(self.mime_types@[i]@ == mime@);
            }
        }
        contains_text(&self.mime_types, mime)
    }
}

/// Picks the MIME type under which an offer is read.
pub fn pick_mime(state: &OfferState) -> (mime: Option<String>)
    ensures
        crate::text::text_of(mime) == picked_mime(state@),
{
    if state.advertises(MIME_TEXT_UTF8) {
        Some(MIME_TEXT_UTF8.to_owned())
    } else if state.advertises(MIME_TEXT_LEGACY) {
        Some(MIME_TEXT_LEGACY.to_owned())
    } else {
        None
    }
}

/// What the Wayland clipboard remembers.
pub struct WaylandState {
    manager: ManagerKind,
    /// MIME types advertised so far, for each offer under way.
    offers: HashMap<u32, OfferState>,
    /// Bytes that the local source hands out.
    pending_local_send: Option<Vec<u8>>,
    /// The source of the last selection that was set here, if it is still
    /// there.
    local_source: Option<LocalSource>,
    /// True when the next non-null selection is the compositor echoing back a
    /// selection that was set here. Where another client sets the selection in
    /// the same window, its first selection is dropped. This is a second line
    /// of defence; the first is the origin marker.
    suppress_next_selection: bool,
    peer_id: String,
}

/// The mathematical value of a [`WaylandState`].
#[verifier::ext_equal]
pub struct WaylandView {
    pub manager: ManagerKind,
    pub offers: Map<u32, Seq<Seq<char>>>,
    pub pending_local_send: Option<Seq<u8>>,
    pub local_source: Option<LocalSource>,
    pub suppress_next_selection: bool,
    pub peer_id: Seq<char>,
}

/// What is to be done about a selection.
#[derive(Debug)]
pub enum SelectionAction {
    /// Report this change; there is no offer.
    Report(ClipboardChange),
    /// Let the offer go.
    Discard,
    /// Read the offer under this MIME type, then let it go.
    Receive(String),
}

/// The mathematical value of a [`SelectionAction`].
#[verifier::ext_equal]
pub enum SelectionView {
    Report(ChangeView),
    Discard,
    Receive(Seq<char>),
}

impl View for SelectionAction {
    type V = SelectionView;

    open spec fn view(&self) -> SelectionView {
        match self {
            SelectionAction::Report(change) => SelectionView::Report(change@),
            SelectionAction::Discard => SelectionView::Discard,
            SelectionAction::Receive(mime) => SelectionView::Receive(mime@),
        }
    }
}

/// How a selection is set.
#[derive(Debug)]
pub struct SetPlan {
    /// The source to let go of first.
    pub destroy: Option<LocalSource>,
    /// The MIME types to offer, in this order.
    pub offer: Vec<String>,
}

impl WaylandView {
    /// The state at the start: no offer is known and nothing has been set.
    pub open spec fn initial(manager: ManagerKind, peer_id: Seq<char>) -> WaylandView {
        WaylandView {
            manager,
            offers: Map::empty(),
            pending_local_send: None,
            local_source: None,
            suppress_next_selection: false,
            peer_id,
        }
    }

    /// The MIME types that an offer has advertised.
    pub open spec fn advertised(self, id: u32) -> Seq<Seq<char>> {
        if self.offers.contains_key(id) {
            self.offers[id]
        } else {
            Seq::empty()
        }
    }

    /// The offer carries this instance's marker.
    pub open spec fn is_ours(self, id: u32) -> bool {
        self.advertised(id).contains(marker_of(self.peer_id))
    }

    /// The state after an offer was introduced.
    pub open spec fn after_offer(self, id: u32) -> WaylandView {
        WaylandView { offers: self.offers.insert(id, Seq::empty()), ..self }
    }

    /// The state after an offer has advertised one more MIME type.
    pub open spec fn after_mime(self, id: u32, mime_type: Seq<char>) -> WaylandView {
        WaylandView {
            offers: self.offers.insert(id, self.advertised(id).push(mime_type)),
            ..self
        }
    }

    /// The state after a selection.
    pub open spec fn after_selection(self, id: Option<u32>) -> WaylandView {
        match id {
            None => self,
            Some(id) => WaylandView {
                offers: self.offers.remove(id),
                suppress_next_selection: false,
                ..self
            },
        }
    }

    /// What a selection leads to.
    pub open spec fn selection_action(self, id: Option<u32>) -> SelectionView {
        match id {
            None => SelectionView::Report(ChangeView::NullSelection),
            Some(id) => if self.is_ours(id) || self.suppress_next_selection {
                SelectionView::Discard
            } else {
                match picked_mime(self.advertised(id)) {
                    Some(mime) => SelectionView::Receive(mime),
                    None => SelectionView::Discard,
                }
            },
        }
    }

    /// The MIME types that are offered with every content.
    pub open spec fn offered(self) -> Seq<Seq<char>> {
        seq![MIME_TEXT_UTF8@, MIME_TEXT_LEGACY@, marker_of(self.peer_id)]
    }

    /// The source with number `id` under the protocol in use.
    pub open spec fn source(self, id: u64) -> LocalSource {
        match self.manager {
            ManagerKind::Ext => LocalSource::Ext(id),
            ManagerKind::Wlr => LocalSource::Wlr(id),
        }
    }

    /// The state after bytes have been put on the clipboard.
    pub open spec fn after_set(self, data: Seq<u8>, source: u64) -> WaylandView {
        WaylandView {
            pending_local_send: Some(data),
            local_source: Some(self.source(source)),
            suppress_next_selection: true,
            ..self
        }
    }

    /// The bytes that a local source hands out under a MIME type.
    pub open spec fn payload(self, mime_type: Seq<char>) -> Option<Seq<u8>> {
        if mime_type == marker_of(self.peer_id) {
            Some(vstd::utf8::encode_utf8(self.peer_id))
        } else {
            self.pending_local_send
        }
    }

    /// The source to let go of where `source` was cancelled.
    pub open spec fn to_destroy(self, source: LocalSource) -> Option<LocalSource> {
        if self.local_source == Some(source) {
            Some(source)
        } else {
            None
        }
    }

    /// `plan` is how something is put on the clipboard.
    pub open spec fn is_planned(self, plan: SetPlan) -> bool {
        &&& plan.destroy == self.local_source
        &&& plan.offer@.map_values(|mime: String| mime@) == self.offered()
    }

    /// The state after a source has been cancelled.
    pub open spec fn after_cancel(self, source: LocalSource) -> WaylandView {
        if self.local_source == Some(source) {
            WaylandView { pending_local_send: None, local_source: None, ..self }
        } else {
            self
        }
    }
}

impl View for WaylandState {
    type V = WaylandView;

    closed spec fn view(&self) -> WaylandView {
        WaylandView {
            manager: self.manager,
            offers: self.offers@.map_values(|offer: OfferState| offer@),
            pending_local_send: crate::text::bytes_of(self.pending_local_send),
            local_source: self.local_source,
            suppress_next_selection: self.suppress_next_selection,
            peer_id: self.peer_id@,
        }
    }
}

impl WaylandState {
    /// The state at the start: no offer is known and nothing has been set.
    pub fn new(manager: ManagerKind, peer_id: &str) -> (state: WaylandState)
        ensures
            state@ == (WaylandView {
                manager,
                offers: Map::empty(),
                pending_local_send: None,
                local_source: None,
                suppress_next_selection: false,
                peer_id: peer_id@,
            }),
            state@ == WaylandView::initial(manager, peer_id@),
    {
        let state: WaylandState = WaylandState {
            manager,
            offers: HashMap::new(),
            pending_local_send: None,
            local_source: None,
            suppress_next_selection: false,
            peer_id: peer_id.to_owned(),
        };
        assert(state@.offers =~= Map::<u32, Seq<Seq<char>>>::empty());
        state
    }

    /// A new offer is introduced.
    pub fn on_data_offer(&mut self, id: u32)
        ensures
            final(self)@ == (WaylandView {
                offers: old(self)@.offers.insert(id, Seq::empty()),
                ..old(self)@
            }),
            final(self)@ == old(self)@.after_offer(id),
    {
        let offer: OfferState = OfferState { mime_types: Vec::new() };
        assert(offer@ =~= Seq::<Seq<char>>::empty());
        self.offers.insert(id, offer);
        assert(self@.offers =~= old(self)@.offers.insert(id, Seq::empty()));
    }

    /// Takes what an offer has advertised out of the list.
    fn take_offer(&mut self, id: u32) -> (offer: OfferState)
        ensures
            final(self)@ == (WaylandView { offers: old(self)@.offers.remove(id), ..old(self)@ }),
            offer@ == old(self)@.advertised(id),
    {
        let taken: Option<OfferState> = self.offers.remove(&id);
        assert(self@.offers =~= old(self)@.offers.remove(id));
        match taken {
            Some(offer) => offer,
            None => {
                let offer: OfferState = OfferState { mime_types: Vec::new() };
                assert(offer@ =~= Seq::<Seq<char>>::empty());
                offer
            },
        }
    }

    /// An offer advertises one more MIME type.
    pub fn on_offer_mime(&mut self, id: u32, mime_type: String)
        ensures
            final(self)@ == (WaylandView {
                offers: old(self)@.offers.insert(id, old(self)@.advertised(id).push(mime_type@)),
                ..old(self)@
            }),
            final(self)@ == old(self)@.after_mime(id, mime_type@),
    {
        let mut offer: OfferState = self.take_offer(id);
        let ghost before = offer@;
        let ghost others = self@.offers;
        offer.mime_types.push(mime_type);
        let ghost listed = offer@;
        assert(listed =~= before.push(mime_type@));
        self.offers.insert(id, offer);
        assert(self@.offers =~= others.insert(id, listed));
    }

    /// The selection has changed to an offer, or to nothing.
    ///
    /// An offer that carries our own marker is the echo of a selection that was
    /// set here, and so is the first one after a set. Neither is read.
    pub fn on_selection(&mut self, id: Option<u32>) -> (action: SelectionAction)
        ensures
            final(self)@ == old(self)@.after_selection(id),
            action@ == old(self)@.selection_action(id),
    {
        let id: u32 = match id {
            Some(id) => id,
            None => return SelectionAction::Report(ClipboardChange::NullSelection),
        };
        let offer: OfferState = self.take_offer(id);
        let marker: String = origin_marker(self.peer_id.as_str());
        let is_ours: bool = offer.advertises(marker.as_str());
        let suppressed: bool = self.suppress_next_selection;
        self.suppress_next_selection = false;
        if is_ours || suppressed {
            return SelectionAction::Discard;
        }
        match pick_mime(&offer) {
            Some(mime) => SelectionAction::Receive(mime),
            None => SelectionAction::Discard,
        }
    }

    /// Puts `content` on the clipboard, through the new source with number
    /// `source`.
    pub fn handle_set(&mut self, content: ClipboardContent, source: u64) -> (plan: SetPlan)
        ensures
            final(self)@ == old(self)@.after_set(content.data@, source),
            plan.destroy == old(self)@.local_source,
            plan.offer@.map_values(|mime: String| mime@) == old(self)@.offered(),
            old(self)@.is_planned(plan),
    {
        let destroy: Option<LocalSource> = self.local_source;
        self.pending_local_send = Some(content.data);
        self.suppress_next_selection = true;
        self.local_source = Some(
            match self.manager {
                ManagerKind::Ext => LocalSource::Ext(source),
                ManagerKind::Wlr => LocalSource::Wlr(source),
            },
        );
        let mut offer: Vec<String> = Vec::new();
        offer.push(MIME_TEXT_UTF8.to_owned());
        offer.push(MIME_TEXT_LEGACY.to_owned());
        offer.push(origin_marker(self.peer_id.as_str()));
        assert(offer@.map_values(|mime: String| mime@) =~= old(self)@.offered());
        SetPlan { destroy, offer }
    }

    /// The bytes to write where a client asks a local source for `mime_type`.
    /// Where there are none, the client gets an empty answer.
    pub fn source_send(&self, mime_type: &str) -> (bytes: Option<Vec<u8>>)
        ensures
            crate::text::bytes_of(bytes) == self@.payload(mime_type@),
    {
        let marker: String = origin_marker(self.peer_id.as_str());
        if text_equal(mime_type, marker.as_str()) {
            let peer: &str = self.peer_id.as_str();
            return Some(slice_to_vec(peer.as_bytes()));
        }
        match &self.pending_local_send {
            Some(bytes) => Some(slice_to_vec(bytes.as_slice())),
            None => None,
        }
    }

    /// A source of ours has been cancelled. Returns the source to let go of.
    pub fn source_cancelled(&mut self, source: LocalSource) -> (destroy: Option<LocalSource>)
        ensures
            final(self)@ == old(self)@.after_cancel(source),
            destroy == if old(self)@.local_source == Some(source) {
                Some(source)
            } else {
                None
            },
            destroy == old(self)@.to_destroy(source),
    {
        let is_current: bool = match self.local_source {
            Some(local) => match source {
                LocalSource::Ext(id) => local.matches_ext(id),
                LocalSource::Wlr(id) => local.matches_wlr(id),
            },
            None => false,
        };
        if !is_current {
            return None;
        }
        let destroy: Option<LocalSource> = self.local_source;
        self.local_source = None;
        self.pending_local_send = None;
        destroy
    }
}

/// `change` is the report of what was read of an offer under `mime`.
pub open spec fn reports_read(
    mime: Seq<char>,
    read: Result<Vec<u8>, IoError>,
    change: Option<ClipboardChange>,
) -> bool {
    match read {
        Ok(data) => {
            &&& change is Some
            &&& change->0 is Content
            &&& change->0->content.mime@ == mime
            &&& change->0->content.data@ == data@
            &&& change->0->origin_hint == OriginHint::Local
        },
        Err(_) => change is None,
    }
}

/// The change that reading an offer under `mime` leads to, if it could be read
/// to its end.
pub fn content_change(mime: String, read: Result<Vec<u8>, IoError>) -> (change: Option<
    ClipboardChange,
>)
    ensures
        match read {
            Ok(data) => change == Some(
                ClipboardChange::Content {
                    content: ClipboardContent { mime, data },
                    origin_hint: OriginHint::Local,
                },
            ),
            Err(_) => change is None,
        },
        reports_read(mime@, read, change),
{
    match read {
        Ok(data) => Some(
            ClipboardChange::Content {
                content: ClipboardContent { mime, data },
                origin_hint: OriginHint::Local,
            },
        ),
        Err(_) => None,
    }
}

/// Markers tell instances apart.
pub proof fn law_markers_differ(a: Seq<char>, b: Seq<char>)
    requires
        a != b,
    ensures
        marker_of(a) != marker_of(b),
{
    if marker_of(a) == marker_of(b) {
        assert(a =~= marker_of(a).skip(MIME_ORIGIN_PREFIX@.len() as int));
        assert(b =~= marker_of(b).skip(MIME_ORIGIN_PREFIX@.len() as int));
    }
}

/// No marker passes for text.
pub proof fn law_markers_are_no_text(peer_id: Seq<char>)
    ensures
        marker_of(peer_id) != MIME_TEXT_UTF8@,
        marker_of(peer_id) != MIME_TEXT_LEGACY@,
{
    reveal_strlit("application/x-lan-mouse-origin;peer=");
    reveal_strlit("text/plain;charset=utf-8");
    reveal_strlit("text/plain");
    assert(marker_of(peer_id)[0] == 'a');
}

/// An instance never takes its own content for a local change: whatever offer
/// advertises what a set offers is dropped, in every state.
pub proof fn law_own_content_is_never_reported(state: WaylandView, id: u32)
    requires
        forall|m: Seq<char>| #[trigger]
            state.offered().contains(m) ==> state.advertised(id).contains(m),
    ensures
        state.selection_action(Some(id)) == SelectionView::Discard,
{
    assert(state.offered()[2] == marker_of(state.peer_id));
    assert(state.offered().contains(marker_of(state.peer_id)));
}

/// Another instance on the same machine sees the content: the offer of one is
/// read as UTF-8 text by the other, unless that one waits for an echo.
pub proof fn law_other_instances_see_the_content(state: WaylandView, other: WaylandView, id: u32)
    requires
        state.peer_id != other.peer_id,
        !other.suppress_next_selection,
        other.advertised(id) == state.offered(),
    ensures
        other.selection_action(Some(id)) == SelectionView::Receive(MIME_TEXT_UTF8@),
{
    law_markers_differ(state.peer_id, other.peer_id);
    law_markers_are_no_text(other.peer_id);
    assert(state.offered()[0] == MIME_TEXT_UTF8@);
}

/// Setting drops at most one foreign selection: after the first selection that
/// follows, nothing is held back any more.
pub proof fn law_only_one_selection_is_held_back(
    state: WaylandView,
    data: Seq<u8>,
    source: u64,
    first: u32,
    second: u32,
)
    ensures
        ({
            let set = state.after_set(data, source);
            let after = set.after_selection(Some(first));
            &&& set.selection_action(Some(first)) == SelectionView::Discard
            &&& !after.is_ours(second) && picked_mime(after.advertised(second)) is Some
                ==> after.selection_action(Some(second)) is Receive
        }),
{
}

/// What was set is what is handed out, under both text types, until the source
/// is cancelled; then nothing is.
pub proof fn law_what_was_set_is_handed_out(state: WaylandView, data: Seq<u8>, source: u64)
    ensures
        ({
            let set = state.after_set(data, source);
            &&& set.payload(MIME_TEXT_UTF8@) == Some(data)
            &&& set.payload(MIME_TEXT_LEGACY@) == Some(data)
            &&& set.payload(marker_of(state.peer_id)) == Some(
                vstd::utf8::encode_utf8(state.peer_id),
            )
            &&& set.after_cancel(state.source(source)).payload(MIME_TEXT_UTF8@) is None
            &&& set.after_cancel(state.source(source)).payload(MIME_TEXT_LEGACY@) is None
        }),
{
    law_markers_are_no_text(state.peer_id);
}

} // verus!
