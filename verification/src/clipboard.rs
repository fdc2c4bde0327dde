//! The clipboard task: bridges the local platform clipboard with the network
//! side-channel.

use vstd::prelude::*;

use crate::backend;
use crate::clipboard_net::{local_hello, ClipboardNetEvent, NetEventView};
use crate::clipboard_state::{ClipboardState, DecisionView, LocalChangeDecision, StateView};
use crate::content::{ChangeView, ClipboardChange, ClipboardContent, ContentView, OriginHint};
use crate::error::ClipboardError;
use crate::peer_session::{ActionView, InputView, SessionView};
use crate::proto::{CapMsg, CapMsgView, CAP_CLIPBOARD};

verus! {

/// A platform clipboard together with the loop-suppression state.
pub struct Clipboard<B> {
    backend: B,
    state: ClipboardState,
}

/// Outcome of routing a [`ClipboardNetEvent`].
#[derive(Debug)]
pub enum NetOutcome {
    /// Apply `content` locally and relay the re-originated message to every
    /// peer except those whose fingerprint matches `src_fingerprint`. Relaying
    /// makes leaf-to-leaf propagation work in a star topology, where leaves
    /// are only connected to the hub.
    ApplyLocal { content: ClipboardContent, relay: CapMsg, src_fingerprint: String },
    Nothing,
}

/// The mathematical value of a [`NetOutcome`].
#[verifier::ext_equal]
pub enum OutcomeView {
    ApplyLocal { content: ContentView, relay: CapMsgView, src_fingerprint: Seq<char> },
    Nothing,
}

impl View for NetOutcome {
    type V = OutcomeView;

    open spec fn view(&self) -> OutcomeView {
        match self {
            NetOutcome::ApplyLocal {
                content,
                relay,
                src_fingerprint,
            } => OutcomeView::ApplyLocal {
                content: content@,
                relay: relay@,
                src_fingerprint: src_fingerprint@,
            },
            NetOutcome::Nothing => OutcomeView::Nothing,
        }
    }
}

/// The content that an event makes a peer in state `state` apply: that of a
/// clipboard message which its sender sent under its own name, if it is new and
/// the sender has not announced that it does not share its clipboard.
pub open spec fn applied_content(state: StateView, event: NetEventView) -> Option<ContentView> {
    match event {
        NetEventView::Message {
            fingerprint,
            msg: CapMsgView::Clipboard { origin, serial, mime, data },
            ..
        } => if origin == fingerprint && !state.muted.contains(fingerprint) {
            state.remote_result(origin, serial, ContentView { mime, data })
        } else {
            None
        },
        _ => None,
    }
}

/// What an event leads to in state `state`.
pub open spec fn net_outcome(state: StateView, event: NetEventView) -> OutcomeView {
    match applied_content(state, event) {
        Some(content) => OutcomeView::ApplyLocal {
            content,
            relay: state.bumped().message(content),
            src_fingerprint: event->Message_fingerprint,
        },
        None => OutcomeView::Nothing,
    }
}

/// The state after an event.
pub open spec fn after_net(state: StateView, event: NetEventView) -> StateView {
    match event {
        NetEventView::PeerConnected { fingerprint, capabilities, .. } => state.after_reset(
            fingerprint,
        ).after_announcement(fingerprint, crate::peer_session::shares_clipboard(capabilities)),
        NetEventView::PeerDisconnected { .. } => state,
        NetEventView::Message { fingerprint, msg, .. } => match msg {
            CapMsgView::Clipboard { origin, serial, mime, data } => if origin != fingerprint
                || state.muted.contains(fingerprint) {
                state
            } else {
                let heard = state.after_remote(origin, serial, ContentView { mime, data });
                if applied_content(state, event) is Some {
                    heard.bumped()
                } else {
                    heard
                }
            },
            CapMsgView::Hello { .. } => state,
        },
    }
}

/// `msg` is what is broadcast for a local change, and `after` what becomes of
/// the platform clipboard.
pub open spec fn handles_local_change<B: backend::Clipboard>(
    state: StateView,
    change: ChangeView,
    before: B,
    msg: Option<CapMsg>,
    after: B,
) -> bool {
    match state.local_decision(change) {
        DecisionView::Broadcast(m) => msg is Some && msg->0@ == m && after == before,
        DecisionView::Reclaim(content) => msg is None && was_set(before, content, after),
        DecisionView::Nothing => msg is None && after == before,
    }
}

/// `content` was put on the clipboard, which led from `before` to `after`.
pub open spec fn was_set<B: backend::Clipboard>(before: B, content: ContentView, after: B) -> bool {
    exists|result: Result<(), ClipboardError>| #[trigger] before.set_step(content, &after, result)
}

impl<B> Clipboard<B> {
    /// The platform clipboard.
    pub closed spec fn backend(&self) -> B {
        self.backend
    }

    /// The loop-suppression state.
    pub closed spec fn state(&self) -> StateView {
        self.state@
    }
}

impl<B: backend::Clipboard> Clipboard<B> {
    /// A task that has just started.
    pub fn new(backend: B, local_fingerprint: String) -> (clipboard: Clipboard<B>)
        ensures
            clipboard.backend() == backend,
            clipboard.state() == StateView::initial(local_fingerprint@),
            clipboard.state().well_formed(),
    {
        Clipboard { backend, state: ClipboardState::new(local_fingerprint) }
    }

    /// The next change of the local clipboard, if there is one.
    pub fn next_backend_event(&mut self) -> (event: Option<ClipboardChange>)
        ensures
            old(self).backend().next_event_step(&final(self).backend(), event),
            final(self).state() == old(self).state(),
    {
        self.backend.next_event()
    }

    /// Drive the backend in response to a local clipboard change. Returns a
    /// `CapMsg` to broadcast (if any). Where an emptied selection is claimed
    /// again, the content is set here, before returning; whether that works
    /// changes nothing else.
    pub fn handle_local_change(&mut self, change: ClipboardChange) -> (msg: Option<CapMsg>)
        ensures
            final(self).state() == old(self).state().after_local(change@),
            old(self).state().well_formed() ==> final(self).state().well_formed(),
            match msg {
                Some(sent) => old(self).state().local_decision(change@) == DecisionView::Broadcast(
                    sent@,
                ),
                None => old(self).state().local_decision(change@) !is Broadcast,
            },
            match old(self).state().local_decision(change@) {
                DecisionView::Reclaim(content) => was_set(
                    old(self).backend(),
                    content,
                    final(self).backend(),
                ),
                _ => final(self).backend() == old(self).backend(),
            },
            handles_local_change(
                old(self).state(),
                change@,
                old(self).backend(),
                msg,
                final(self).backend(),
            ),
    {
        let decision: LocalChangeDecision = self.state.on_local_change(change);
        match decision {
            LocalChangeDecision::Broadcast(msg) => Some(msg),
            LocalChangeDecision::Reclaim(content) => {
                let result: Result<(), ClipboardError> = self.backend.set(content);
                assert(was_set(old(self).backend(), content@, self.backend()));
                None
            },
            LocalChangeDecision::Nothing => None,
        }
    }

    /// Apply a remote content to the local backend.
    pub fn apply_remote(&mut self, content: ClipboardContent) -> (result: Result<
        (),
        ClipboardError,
    >)
        ensures
            old(self).backend().set_step(content@, &final(self).backend(), result),
            final(self).state() == old(self).state(),
    {
        self.backend.set(content)
    }

    /// Make a `Hello` for this peer.
    pub fn make_hello(&self) -> (hello: CapMsg)
        ensures
            hello@ == crate::clipboard_net::hello_of(self.state().local_fingerprint),
    {
        local_hello(self.state.local_fingerprint())
    }

    /// Shuts the backend down.
    pub fn terminate(&mut self) -> (result: Result<(), ClipboardError>)
        ensures
            old(self).backend().terminate_step(&final(self).backend(), result),
            final(self).state() == old(self).state(),
    {
        self.backend.terminate()
    }

    /// Route a side-channel event through the loop-suppression state.
    ///
    /// Messages of a peer that has connected without [`CAP_CLIPBOARD`] are
    /// ignored until it connects with it.
    pub fn handle_net_event(&mut self, event: ClipboardNetEvent) -> (outcome: NetOutcome)
        ensures
            final(self).state() == after_net(old(self).state(), event@),
            outcome@ == net_outcome(old(self).state(), event@),
            final(self).backend() == old(self).backend(),
            old(self).state().well_formed() ==> final(self).state().well_formed(),
    {
        match event {
            ClipboardNetEvent::PeerConnected { addr: _, fingerprint, capabilities } => {
                self.state.reset_peer(fingerprint.as_str());
                let shares: bool = capabilities & CAP_CLIPBOARD != 0;
                self.state.announce_peer(fingerprint.as_str(), shares);
                NetOutcome::Nothing
            },
            ClipboardNetEvent::PeerDisconnected { addr: _, fingerprint: _ } => NetOutcome::Nothing,
            ClipboardNetEvent::Message { addr: _, fingerprint: claimed, msg } => match msg {
                CapMsg::Hello { .. } => NetOutcome::Nothing,
                CapMsg::Clipboard { origin, serial, mime, data } => {
                    if origin != claimed || self.state.is_muted(claimed.as_str()) {
                        return NetOutcome::Nothing;
                    }
                    match self.state.on_remote_message(origin, serial, mime, data) {
                        Some(content) => {
                            let relay: CapMsg = self.state.make_relay(&content);
                            NetOutcome::ApplyLocal { content, relay, src_fingerprint: claimed }
                        },
                        None => NetOutcome::Nothing,
                    }
                },
            },
        }
    }
}

/// Whatever is applied is what the message carried, and it is relayed
/// unchanged, under this peer's own name, with a serial of its own, and back to
/// none of the sender's connections.
pub proof fn law_what_is_applied_is_relayed(state: StateView, event: NetEventView)
    requires
        net_outcome(state, event) is ApplyLocal,
    ensures
        event is Message,
        event->msg is Clipboard,
        event->msg->origin == event->Message_fingerprint,
        event->msg->origin != state.local_fingerprint,
        net_outcome(state, event)->content == (ContentView {
            mime: event->msg->mime,
            data: event->msg->data,
        }),
        net_outcome(state, event)->src_fingerprint == event->Message_fingerprint,
        net_outcome(state, event)->relay == (CapMsgView::Clipboard {
            origin: state.local_fingerprint,
            serial: crate::clipboard_state::next_serial(state.local_serial),
            mime: event->msg->mime,
            data: event->msg->data,
        }),
        after_net(state, event).local_serial == net_outcome(state, event)->relay->serial,
        after_net(state, event).current_content == Some(net_outcome(state, event)->content),
{
}

/// No event of one peer changes what has been seen of another.
pub proof fn law_peers_cannot_silence_each_other(
    state: StateView,
    event: NetEventView,
    other: Seq<char>,
)
    requires
        match event {
            NetEventView::PeerConnected { fingerprint, .. } => other != fingerprint,
            NetEventView::PeerDisconnected { fingerprint, .. } => other != fingerprint,
            NetEventView::Message { fingerprint, .. } => other != fingerprint,
        },
    ensures
        after_net(state, event).seen(other) == state.seen(other),
{
}

/// A message under a name that its sender has not proved changes nothing.
pub proof fn law_a_forged_message_changes_nothing(state: StateView, event: NetEventView)
    requires
        event is Message,
        event->msg is Clipboard,
        event->msg->origin != event->Message_fingerprint,
    ensures
        after_net(state, event) == state,
        net_outcome(state, event) == OutcomeView::Nothing,
{
}

/// A peer that has connected without sharing its clipboard is not listened to:
/// whatever it sends afterwards changes nothing, until it connects again.
pub proof fn law_a_peer_that_does_not_share_is_ignored(
    state: StateView,
    connected: NetEventView,
    message: NetEventView,
)
    requires
        connected is PeerConnected,
        !crate::peer_session::shares_clipboard(connected->capabilities),
        message is Message,
        message->Message_fingerprint == connected->PeerConnected_fingerprint,
    ensures
        net_outcome(after_net(state, connected), message) == OutcomeView::Nothing,
        after_net(after_net(state, connected), message) == after_net(state, connected),
{
}

/// Only connecting decides whether a peer is listened to, and only for the peer
/// that connects.
pub proof fn law_only_connecting_mutes(state: StateView, event: NetEventView, peer: Seq<char>)
    ensures
        after_net(state, event).muted.contains(peer) <==> match event {
            NetEventView::PeerConnected { fingerprint, capabilities, .. } => if peer
                == fingerprint {
                !crate::peer_session::shares_clipboard(capabilities)
            } else {
                state.muted.contains(peer)
            },
            _ => state.muted.contains(peer),
        },
{
}

/// A peer that comes back and shares its clipboard is heard again, whatever
/// serial it starts with and whatever it announced before: the first message
/// after it has reconnected is applied, unless its content is there already.
pub proof fn law_a_restarted_peer_is_heard(
    state: StateView,
    connected: NetEventView,
    message: NetEventView,
)
    requires
        connected is PeerConnected,
        crate::peer_session::shares_clipboard(connected->capabilities),
        message is Message,
        message->Message_fingerprint == connected->PeerConnected_fingerprint,
        message->Message_fingerprint != state.local_fingerprint,
        message->msg is Clipboard,
        message->msg->origin == message->Message_fingerprint,
        message->msg->serial > 0,
        state.current_content != Some(
            ContentView { mime: message->msg->mime, data: message->msg->data },
        ),
    ensures
        net_outcome(after_net(state, connected), message) is ApplyLocal,
{
}

/// In a star, what is copied on one leaf reaches another: the hub applies the
/// copy, and the other leaf, which listens to the hub, applies its relay, unless
/// it holds the content already. The relay is new to the leaf as long as the hub's serial
/// is past everything that the leaf has seen of the hub.
pub proof fn law_a_copy_crosses_the_hub(
    hub: StateView,
    leaf: StateView,
    to_hub: NetEventView,
    to_leaf: NetEventView,
)
    requires
        net_outcome(hub, to_hub) is ApplyLocal,
        to_leaf is Message,
        to_leaf->Message_fingerprint == hub.local_fingerprint,
        to_leaf->msg == net_outcome(hub, to_hub)->relay,
        leaf.local_fingerprint != hub.local_fingerprint,
        !leaf.muted.contains(hub.local_fingerprint),
        leaf.seen(hub.local_fingerprint) <= hub.local_serial,
        hub.local_serial < u64::MAX,
        leaf.current_content != Some(net_outcome(hub, to_hub)->content),
    ensures
        net_outcome(leaf, to_leaf) is ApplyLocal,
        net_outcome(leaf, to_leaf)->content == net_outcome(hub, to_hub)->content,
{
}

/// A copy reaches a connected peer: the message that it is broadcast in is
/// sent by the one end of the connection, reported by the other and applied
/// there, as long as the peer listens to the sender, has seen no later one of it
/// and does not hold the content already. The count of the sender must not be at its end,
/// where it starts again.
pub proof fn law_a_copy_reaches_a_connected_peer(
    sender: StateView,
    receiver: StateView,
    near: SessionView,
    far: SessionView,
    content: ContentView,
    origin_hint: OriginHint,
)
    requires
        sender.startup_baseline_consumed,
        sender.local_fingerprint != receiver.local_fingerprint,
        !receiver.muted.contains(sender.local_fingerprint),
        receiver.seen(sender.local_fingerprint) <= sender.local_serial,
        sender.local_serial < u64::MAX,
        receiver.current_content != Some(content),
        near.phase is Up,
        crate::peer_session::shares_clipboard(near.phase->capabilities),
        far.phase is Up,
        crate::peer_session::shares_clipboard(far.phase->capabilities),
        far.tls_fingerprint == sender.local_fingerprint,
    ensures
        ({
            let decision = sender.local_decision(ChangeView::Content { content, origin_hint });
            let msg = decision->Broadcast_0;
            &&& decision is Broadcast
            &&& near.action(InputView::Outgoing(msg)) == ActionView::Send(msg)
            &&& far.action(InputView::Frame(msg)) == ActionView::Deliver(far.received(msg))
            &&& net_outcome(receiver, far.received(msg)) is ApplyLocal
            &&& net_outcome(receiver, far.received(msg))->content == content
        }),
{
}

/// An emptied selection is claimed again with the content that was applied
/// last, as long as nothing was copied locally since; setting it is left to
/// the backend, and nothing is broadcast.
pub proof fn law_applied_content_survives_its_owner(state: StateView, event: NetEventView)
    requires
        net_outcome(state, event) is ApplyLocal,
    ensures
        after_net(state, event).local_decision(ChangeView::NullSelection) == DecisionView::Reclaim(
            net_outcome(state, event)->content,
        ),
{
}

/// Nothing of an outcome is left out of its view, and a content that was set
/// was handed to the backend.
pub proof fn law_outcomes_are_shown_whole<B: backend::Clipboard>(
    outcome: NetOutcome,
    before: B,
    content: ContentView,
    after: B,
)
    ensures
        outcome is Nothing <==> outcome@ is Nothing,
        outcome is ApplyLocal ==> {
            &&& outcome@->content == outcome->content@
            &&& outcome@->relay == outcome->relay@
            &&& outcome@->src_fingerprint == outcome->src_fingerprint@
        },
        was_set(before, content, after) ==> exists|result: Result<(), ClipboardError>| #[trigger]
            before.set_step(content, &after, result),
{
}

} // verus!
