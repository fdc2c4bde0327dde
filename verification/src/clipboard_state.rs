//! Loop suppression and selection ownership of one peer.
//!
//! [`ClipboardState`] takes the local clipboard changes and the remote messages
//! of one peer in the order in which they arrive, and answers what is to be
//! broadcast, applied or claimed again. It does no I/O.

use vstd::hash_map::StringHashMap;
use vstd::prelude::*;

use crate::content::{ChangeView, ClipboardChange, ClipboardContent, ContentView};
use crate::proto::{CapMsg, CapMsgView};

verus! {

/// Where the content of the local selection came from.
#[derive(Debug, Clone, Copy, PartialEq, Eq, Structural)]
pub enum SelectionOrigin {
    Local,
    Remote,
}

/// Pure loop-suppression and lifecycle state.
pub struct ClipboardState {
    local_fingerprint: String,
    local_serial: u64,
    last_seen: StringHashMap<u64>,
    /// Peers that have announced that they do not share their clipboard.
    muted: StringHashMap<bool>,
    selection_origin: SelectionOrigin,
    last_remote_content: Option<ClipboardContent>,
    /// Content this peer currently holds (last local change or remote apply).
    /// Remote messages carrying identical content are suppressed, which
    /// terminates relay cycles.
    current_content: Option<ClipboardContent>,
    startup_baseline_consumed: bool,
}

/// Decision returned by [`ClipboardState::on_local_change`].
#[derive(Debug, PartialEq)]
pub enum LocalChangeDecision {
    /// Broadcast this `CapMsg::Clipboard` to all peers.
    Broadcast(CapMsg),
    /// Claim the selection again by re-applying this content.
    Reclaim(ClipboardContent),
    /// Do nothing (baseline absorbed; null selection with no remote cached).
    Nothing,
}

/// The mathematical value of a [`LocalChangeDecision`].
#[verifier::ext_equal]
pub enum DecisionView {
    Broadcast(CapMsgView),
    Reclaim(ContentView),
    Nothing,
}

impl View for LocalChangeDecision {
    type V = DecisionView;

    open spec fn view(&self) -> DecisionView {
        match self {
            LocalChangeDecision::Broadcast(msg) => DecisionView::Broadcast(msg@),
            LocalChangeDecision::Reclaim(content) => DecisionView::Reclaim(content@),
            LocalChangeDecision::Nothing => DecisionView::Nothing,
        }
    }
}

/// The mathematical value of a [`ClipboardState`].
#[verifier::ext_equal]
pub struct StateView {
    /// Fingerprint under which this peer sends.
    pub local_fingerprint: Seq<char>,
    /// Serial of the last message that this peer sent; 0 before the first.
    pub local_serial: u64,
    /// Highest serial received, for each origin heard since its last reset.
    pub last_seen: Map<Seq<char>, u64>,
    /// The peers that last announced that they do not share their clipboard.
    pub muted: Set<Seq<char>>,
    pub selection_origin: SelectionOrigin,
    /// The last remote content that was applied.
    pub last_remote_content: Option<ContentView>,
    /// What the clipboard holds, as far as this peer has seen it.
    pub current_content: Option<ContentView>,
    /// The content that was there at startup has been seen.
    pub startup_baseline_consumed: bool,
}

/// The serial that follows `serial`. 0 stands for "never seen", so the count
/// wraps to 1.
pub open spec fn next_serial(serial: u64) -> u64 {
    if serial == u64::MAX {
        1
    } else {
        (serial + 1) as u64
    }
}

impl StateView {
    /// A peer that has just started.
    pub open spec fn initial(local_fingerprint: Seq<char>) -> StateView {
        StateView {
            local_fingerprint,
            local_serial: 0,
            last_seen: Map::empty(),
            muted: Set::empty(),
            selection_origin: SelectionOrigin::Local,
            last_remote_content: None,
            current_content: None,
            startup_baseline_consumed: false,
        }
    }

    /// The highest serial received from `origin`; 0 where none was.
    pub open spec fn seen(self, origin: Seq<char>) -> u64 {
        if self.last_seen.contains_key(origin) {
            self.last_seen[origin]
        } else {
            0
        }
    }

    /// The message that carries `content` under the current serial.
    pub open spec fn message(self, content: ContentView) -> CapMsgView {
        CapMsgView::Clipboard {
            origin: self.local_fingerprint,
            serial: self.local_serial,
            mime: content.mime,
            data: content.data,
        }
    }

    /// The state with the next serial taken.
    pub open spec fn bumped(self) -> StateView {
        StateView { local_serial: next_serial(self.local_serial), ..self }
    }

    /// The state after a change of the local clipboard.
    pub open spec fn after_local(self, change: ChangeView) -> StateView {
        match change {
            ChangeView::Content { content, .. } => {
                let held = StateView {
                    selection_origin: SelectionOrigin::Local,
                    current_content: Some(content),
                    startup_baseline_consumed: true,
                    ..self
                };
                if self.startup_baseline_consumed {
                    held.bumped()
                } else {
                    held
                }
            },
            ChangeView::NullSelection => self,
        }
    }

    /// What a change of the local clipboard leads to.
    pub open spec fn local_decision(self, change: ChangeView) -> DecisionView {
        match change {
            ChangeView::Content { content, .. } => if self.startup_baseline_consumed {
                DecisionView::Broadcast(self.bumped().message(content))
            } else {
                DecisionView::Nothing
            },
            ChangeView::NullSelection => match (
                self.selection_origin,
                self.last_remote_content,
            ) {
                (SelectionOrigin::Remote, Some(content)) => DecisionView::Reclaim(content),
                _ => DecisionView::Nothing,
            },
        }
    }

    /// A message of `origin` with `serial` is new: it is not one of this peer's
    /// own, and nothing as late has been received from `origin`.
    pub open spec fn is_fresh(self, origin: Seq<char>, serial: u64) -> bool {
        origin != self.local_fingerprint && serial > self.seen(origin)
    }

    /// The content that a remote message makes this peer apply.
    pub open spec fn remote_result(
        self,
        origin: Seq<char>,
        serial: u64,
        content: ContentView,
    ) -> Option<ContentView> {
        if self.is_fresh(origin, serial) && self.current_content != Some(content) {
            Some(content)
        } else {
            None
        }
    }

    /// The state after a remote message.
    pub open spec fn after_remote(
        self,
        origin: Seq<char>,
        serial: u64,
        content: ContentView,
    ) -> StateView {
        if !self.is_fresh(origin, serial) {
            self
        } else {
            let heard = StateView { last_seen: self.last_seen.insert(origin, serial), ..self };
            if self.current_content == Some(content) {
                heard
            } else {
                StateView {
                    selection_origin: SelectionOrigin::Remote,
                    last_remote_content: Some(content),
                    current_content: Some(content),
                    ..heard
                }
            }
        }
    }

    /// The state after `fingerprint` has (re)connected.
    pub open spec fn after_reset(self, fingerprint: Seq<char>) -> StateView {
        StateView { last_seen: self.last_seen.remove(fingerprint), ..self }
    }

    /// The state after `fingerprint` has announced whether it shares its
    /// clipboard.
    pub open spec fn after_announcement(self, fingerprint: Seq<char>, shares: bool) -> StateView {
        StateView {
            muted: if shares {
                self.muted.remove(fingerprint)
            } else {
                self.muted.insert(fingerprint)
            },
            ..self
        }
    }

    /// What holds of a peer from its start on.
    pub open spec fn well_formed(self) -> bool {
        &&& self.selection_origin == SelectionOrigin::Remote ==> {
            &&& self.last_remote_content is Some
            &&& self.last_remote_content == self.current_content
        }
        &&& self.startup_baseline_consumed ==> self.current_content is Some
        &&& !self.last_seen.contains_key(self.local_fingerprint)
        &&& forall|origin: Seq<char>| #[trigger]
            self.last_seen.contains_key(origin) ==> self.last_seen[origin] > 0
    }
}

impl View for ClipboardState {
    type V = StateView;

    closed spec fn view(&self) -> StateView {
        StateView {
            local_fingerprint: self.local_fingerprint@,
            local_serial: self.local_serial,
            last_seen: self.last_seen@,
            muted: self.muted@.dom(),
            selection_origin: self.selection_origin,
            last_remote_content: crate::content::view_of(self.last_remote_content),
            current_content: crate::content::view_of(self.current_content),
            startup_baseline_consumed: self.startup_baseline_consumed,
        }
    }
}

impl ClipboardState {
    /// The state of a peer that has just started. Whatever is on the local
    /// clipboard then was not placed there by this program.
    pub fn new(local_fingerprint: String) -> (state: ClipboardState)
        ensures
            state@ == StateView::initial(local_fingerprint@),
            state@.well_formed(),
    {
        ClipboardState {
            local_fingerprint,
            local_serial: 0,
            last_seen: StringHashMap::new(),
            muted: StringHashMap::new(),
            selection_origin: SelectionOrigin::Local,
            last_remote_content: None,
            current_content: None,
            startup_baseline_consumed: false,
        }
    }

    pub fn local_fingerprint(&self) -> (fingerprint: &str)
        ensures
            fingerprint@ == self@.local_fingerprint,
    {
        self.local_fingerprint.as_str()
    }

    /// Takes the next serial.
    pub fn bump_serial(&mut self)
        ensures
            final(self)@ == old(self)@.bumped(),
            final(self)@.local_serial > 0,
    {
        self.local_serial = self.local_serial.wrapping_add(1);
        if self.local_serial == 0 {
            self.local_serial = 1;
        }
    }

    /// The message that carries `content` under the current serial.
    fn message(&self, content: &ClipboardContent) -> (msg: CapMsg)
        ensures
            msg@ == self@.message(content@),
    {
        let copy: ClipboardContent = content.duplicate();
        CapMsg::Clipboard {
            origin: self.local_fingerprint.clone(),
            serial: self.local_serial,
            mime: copy.mime,
            data: copy.data,
        }
    }

    /// Re-originate remotely-received content for relaying to other peers: the
    /// message goes out under our own fingerprint and a fresh serial, so that
    /// the receivers' check of the origin against the TLS fingerprint holds.
    pub fn make_relay(&mut self, content: &ClipboardContent) -> (msg: CapMsg)
        ensures
            final(self)@ == old(self)@.bumped(),
            msg@ == old(self)@.bumped().message(content@),
            old(self)@.well_formed() ==> final(self)@.well_formed(),
    {
        self.bump_serial();
        self.message(content)
    }

    /// Process a `ClipboardChange` observed by the local backend.
    pub fn on_local_change(&mut self, change: ClipboardChange) -> (decision: LocalChangeDecision)
        ensures
            final(self)@ == old(self)@.after_local(change@),
            decision@ == old(self)@.local_decision(change@),
            old(self)@.well_formed() ==> final(self)@.well_formed(),
    {
        match change {
            ClipboardChange::Content { content, origin_hint: _ } => {
                self.selection_origin = SelectionOrigin::Local;
                if !self.startup_baseline_consumed {
                    self.startup_baseline_consumed = true;
                    self.current_content = Some(content);
                    return LocalChangeDecision::Nothing;
                }
                self.bump_serial();
                let msg: CapMsg = self.message(&content);
                self.current_content = Some(content);
                LocalChangeDecision::Broadcast(msg)
            },
            ClipboardChange::NullSelection => {
                if self.selection_origin != SelectionOrigin::Remote {
                    return LocalChangeDecision::Nothing;
                }
                match &self.last_remote_content {
                    Some(content) => LocalChangeDecision::Reclaim(content.duplicate()),
                    None => LocalChangeDecision::Nothing,
                }
            },
        }
    }

    /// Process an inbound `CapMsg::Clipboard`. Returns the content to apply if
    /// the message passes the loop-suppression check; otherwise `None`.
    ///
    /// `origin` must already have been validated against the TLS peer
    /// fingerprint by the caller.
    pub fn on_remote_message(
        &mut self,
        origin: String,
        serial: u64,
        mime: String,
        data: Vec<u8>,
    ) -> (applied: Option<ClipboardContent>)
        ensures
            final(self)@ == old(self)@.after_remote(
                origin@,
                serial,
                (ContentView { mime: mime@, data: data@ }),
            ),
            crate::content::view_of(applied) == old(self)@.remote_result(
                origin@,
                serial,
                (ContentView { mime: mime@, data: data@ }),
            ),
            old(self)@.well_formed() ==> final(self)@.well_formed(),
    {
        if origin == self.local_fingerprint {
            return None;
        }
        let last: u64 = self.last_seen(origin.as_str());
        if serial <= last {
            return None;
        }
        self.last_seen.insert(origin, serial);
        let content: ClipboardContent = ClipboardContent { mime, data };
        if let Some(current) = &self.current_content {
            if current.same_as(&content) {
                return None;
            }
        }
        self.last_remote_content = Some(content.duplicate());
        self.current_content = Some(content.duplicate());
        self.selection_origin = SelectionOrigin::Remote;
        Some(content)
    }

    /// Reset what was seen of a peer so that a freshly (re)connected peer's
    /// first message is accepted (peer-restart handling).
    pub fn reset_peer(&mut self, fingerprint: &str)
        ensures
            final(self)@ == old(self)@.after_reset(fingerprint@),
            old(self)@.well_formed() ==> final(self)@.well_formed(),
    {
        self.last_seen.remove(fingerprint);
    }

    /// Takes note of whether a peer that has (re)connected shares its clipboard.
    pub fn announce_peer(&mut self, fingerprint: &str, shares: bool)
        ensures
            final(self)@ == old(self)@.after_announcement(fingerprint@, shares),
            old(self)@.well_formed() ==> final(self)@.well_formed(),
    {
        if shares {
            self.muted.remove(fingerprint);
        } else {
            self.muted.insert(fingerprint.to_owned(), true);
        }
        assert(self@.muted =~= old(self)@.after_announcement(fingerprint@, shares).muted);
    }

    /// Whether a peer last announced that it does not share its clipboard.
    pub fn is_muted(&self, fingerprint: &str) -> (muted: bool)
        ensures
            muted == self@.muted.contains(fingerprint@),
    {
        self.muted.contains_key(fingerprint)
    }

    /// Says where the content of the local selection came from.
    pub fn set_selection_origin(&mut self, origin: SelectionOrigin)
        ensures
            final(self)@ == (StateView { selection_origin: origin, ..old(self)@ }),
    {
        self.selection_origin = origin;
    }

    pub fn selection_origin(&self) -> (origin: SelectionOrigin)
        ensures
            origin == self@.selection_origin,
    {
        self.selection_origin
    }

    /// The highest serial received from a peer; 0 where none was.
    pub fn last_seen(&self, fingerprint: &str) -> (serial: u64)
        ensures
            serial == self@.seen(fingerprint@),
    {
        match self.last_seen.get(fingerprint) {
            Some(serial) => *serial,
            None => 0,
        }
    }
}

} // verus!
