//! What the clipboard task answers, told from what has happened to it.
//!
//! The functions of the first part look at the history of a task alone: the
//! local changes and network events since it was started, in order. The laws
//! tie the task's state and its answers to that history.

use vstd::prelude::*;

use crate::clipboard::OutcomeView;
use crate::clipboard_net::NetEventView;
use crate::clipboard_state::{DecisionView, SelectionOrigin, StateView};
use crate::content::{ChangeView, ContentView, OriginHint};
use crate::error::ClipboardError;
use crate::proto::{CapMsg, CapMsgView};

verus! {

/// Something that a task was told.
pub enum Step {
    Local(ChangeView),
    Net(NetEventView),
}

/// A content was observed locally.
pub open spec fn is_copy(step: Step) -> bool {
    step is Local && step->Local_0 is Content
}

/// Some content has been observed locally.
pub open spec fn copied(steps: Seq<Step>) -> bool {
    exists|i: int| 0 <= i < steps.len() && is_copy(#[trigger] steps[i])
}

/// A clipboard message which its sender sent under its own name, and which is
/// not `local`'s own.
pub open spec fn is_own_message(event: NetEventView, local: Seq<char>) -> bool {
    &&& event is Message
    &&& event->msg is Clipboard
    &&& event->msg->origin == event->Message_fingerprint
    &&& event->Message_fingerprint != local
}

/// The content of a clipboard message.
pub open spec fn carried(event: NetEventView) -> ContentView {
    ContentView { mime: event->msg->mime, data: event->msg->data }
}

/// `peer` has connected, and when it last did, the lowest bit of its
/// capabilities was not set.
pub open spec fn announced_off(steps: Seq<Step>, peer: Seq<char>) -> bool
    decreases steps.len(),
{
    if steps.len() == 0 {
        false
    } else {
        match steps.last() {
            Step::Net(NetEventView::PeerConnected { fingerprint, capabilities, .. }) => if peer
                == fingerprint {
                capabilities & 1 == 0
            } else {
                announced_off(steps.drop_last(), peer)
            },
            _ => announced_off(steps.drop_last(), peer),
        }
    }
}

/// The highest serial that was taken from `peer` since it last connected; 0
/// where there was none.
pub open spec fn heard(steps: Seq<Step>, local: Seq<char>, peer: Seq<char>) -> u64
    decreases steps.len(),
{
    if steps.len() == 0 {
        0
    } else {
        let before = steps.drop_last();
        let earlier = heard(before, local, peer);
        match steps.last() {
            Step::Local(_) => earlier,
            Step::Net(event) => if event is PeerConnected && event->PeerConnected_fingerprint
                == peer {
                0
            } else if is_own_message(event, local) && event->Message_fingerprint == peer
                && !announced_off(before, peer) && event->msg->serial > earlier {
                event->msg->serial
            } else {
                earlier
            },
        }
    }
}

/// What the clipboard holds: what was copied or applied last.
pub open spec fn held(steps: Seq<Step>, local: Seq<char>) -> Option<ContentView>
    decreases steps.len(), 0int,
{
    if steps.len() == 0 {
        None
    } else {
        match steps.last() {
            Step::Local(ChangeView::Content { content, .. }) => Some(content),
            Step::Local(ChangeView::NullSelection) => held(steps.drop_last(), local),
            Step::Net(event) => if applies(steps.drop_last(), local, event) {
                Some(carried(event))
            } else {
                held(steps.drop_last(), local)
            },
        }
    }
}

/// A network event brings something new: a message of a peer that shares its
/// clipboard, later than all that was taken from it, with a content that the
/// clipboard does not hold.
pub open spec fn applies(steps: Seq<Step>, local: Seq<char>, event: NetEventView) -> bool
    decreases steps.len(), 1int,
{
    &&& is_own_message(event, local)
    &&& !announced_off(steps, event->Message_fingerprint)
    &&& event->msg->serial > heard(steps, local, event->Message_fingerprint)
    &&& held(steps, local) != Some(carried(event))
}

/// What the clipboard holds came from a peer.
pub open spec fn came_from_a_peer(steps: Seq<Step>, local: Seq<char>) -> bool
    decreases steps.len(),
{
    if steps.len() == 0 {
        false
    } else {
        let before = steps.drop_last();
        match steps.last() {
            Step::Local(ChangeView::Content { .. }) => false,
            Step::Local(ChangeView::NullSelection) => came_from_a_peer(before, local),
            Step::Net(event) => applies(before, local, event) || came_from_a_peer(before, local),
        }
    }
}

/// How many messages the task has sent: one for each local content but the
/// first, and one for each content that it applied.
pub open spec fn sent(steps: Seq<Step>, local: Seq<char>) -> nat
    decreases steps.len(),
{
    if steps.len() == 0 {
        0
    } else {
        let before = steps.drop_last();
        let sends = match steps.last() {
            Step::Local(change) => change is Content && copied(before),
            Step::Net(event) => applies(before, local, event),
        };
        sent(before, local) + if sends {
            1nat
        } else {
            0
        }
    }
}

/// The serial of the `n`-th message: they count up from 1, and start at 1 again
/// behind the largest.
pub open spec fn nth_serial(n: nat) -> u64 {
    if n == 0 {
        0
    } else {
        ((n - 1) % 0xffff_ffff_ffff_ffff + 1) as u64
    }
}

/// The message that carries `content` as the next one of `local`.
pub open spec fn next_message(
    steps: Seq<Step>,
    local: Seq<char>,
    content: ContentView,
) -> CapMsgView {
    CapMsgView::Clipboard {
        origin: local,
        serial: nth_serial(sent(steps, local) + 1),
        mime: content.mime,
        data: content.data,
    }
}

/// The state of a task with fingerprint `local` that was told `steps`.
pub open spec fn state_after(local: Seq<char>, steps: Seq<Step>) -> StateView
    decreases steps.len(),
{
    if steps.len() == 0 {
        StateView::initial(local)
    } else {
        let before = state_after(local, steps.drop_last());
        match steps.last() {
            Step::Local(change) => before.after_local(change),
            Step::Net(event) => crate::clipboard::after_net(before, event),
        }
    }
}

proof fn lemma_copied(steps: Seq<Step>)
    ensures
        steps.len() == 0 ==> !copied(steps),
        steps.len() > 0 ==> copied(steps) == (copied(steps.drop_last()) || is_copy(steps.last())),
{
    if steps.len() > 0 {
        let before = steps.drop_last();
        if copied(before) {
            let i = choose|i: int| 0 <= i < before.len() && is_copy(#[trigger] before[i]);
            assert(steps[i] == before[i]);
        }
        if is_copy(steps.last()) {
            assert(is_copy(steps[steps.len() - 1]));
        }
        if copied(steps) && !is_copy(steps.last()) {
            let i = choose|i: int| 0 <= i < steps.len() && is_copy(#[trigger] steps[i]);
            assert(before[i] == steps[i]);
        }
    }
}

proof fn lemma_nth_serial(n: nat)
    ensures
        crate::clipboard_state::next_serial(nth_serial(n)) == nth_serial(n + 1),
{
}

/// The whole state of a task follows from what happened to it: the startup
/// content counts as seen once any content was observed locally and never
/// otherwise, the clipboard holds what was copied or applied last, and the
/// serials, the peers' serials and the peers that are not listened to are those
/// of the history.
pub proof fn law_the_state_is_what_happened(local: Seq<char>, steps: Seq<Step>)
    ensures
        ({
            let state = state_after(local, steps);
            &&& state.local_fingerprint == local
            &&& state.startup_baseline_consumed == copied(steps)
            &&& state.current_content == held(steps, local)
            &&& (state.selection_origin == SelectionOrigin::Remote) == came_from_a_peer(
                steps,
                local,
            )
            &&& came_from_a_peer(steps, local) ==> state.last_remote_content == held(steps, local)
                && held(steps, local) is Some
            &&& state.local_serial == nth_serial(sent(steps, local))
            &&& forall|peer: Seq<char>| #[trigger]
                state.seen(peer) == heard(steps, local, peer)
            &&& forall|peer: Seq<char>| #[trigger]
                state.muted.contains(peer) == announced_off(steps, peer)
        }),
    decreases steps.len(),
{
    lemma_copied(steps);
    reveal_with_fuel(held, 2);
    reveal_with_fuel(applies, 2);
    if steps.len() > 0 {
        let before = steps.drop_last();
        law_the_state_is_what_happened(local, before);
        lemma_nth_serial(sent(before, local));
        let old_state = state_after(local, before);
        let state = state_after(local, steps);
        assert forall|peer: Seq<char>| #[trigger]
            state.seen(peer) == heard(steps, local, peer) by {
            assert(old_state.seen(peer) == heard(before, local, peer));
            assert(old_state.muted.contains(peer) == announced_off(before, peer));
            if let Step::Net(event) = steps.last() {
                if event is Message {
                    let sender = event->Message_fingerprint;
                    assert(old_state.seen(sender) == heard(before, local, sender));
                    assert(old_state.muted.contains(sender) == announced_off(before, sender));
                }
            }
        }
        assert forall|peer: Seq<char>| #[trigger]
            state.muted.contains(peer) == announced_off(steps, peer) by {
            assert(old_state.muted.contains(peer) == announced_off(before, peer));
        }
        if let Step::Net(event) = steps.last() {
            if event is Message {
                let sender = event->Message_fingerprint;
                assert(old_state.seen(sender) == heard(before, local, sender));
                assert(old_state.muted.contains(sender) == announced_off(before, sender));
            }
        }
    }
}

/// Every local content but the first is broadcast, whatever else happened: to
/// all peers, unchanged, under this peer's name and with the next serial. The
/// first is what was there at startup, and goes nowhere.
pub proof fn law_every_copy_but_the_first_is_broadcast(
    local: Seq<char>,
    steps: Seq<Step>,
    content: ContentView,
    origin_hint: OriginHint,
)
    ensures
        state_after(local, steps).local_decision(ChangeView::Content { content, origin_hint })
            == if copied(steps) {
            DecisionView::Broadcast(next_message(steps, local, content))
        } else {
            DecisionView::Nothing
        },
{
    law_the_state_is_what_happened(local, steps);
    lemma_nth_serial(sent(steps, local));
}

/// A network event is applied and relayed exactly where it brings something
/// new, and what is applied and relayed is what it carries.
pub proof fn law_news_are_applied_and_relayed(
    local: Seq<char>,
    steps: Seq<Step>,
    event: NetEventView,
)
    ensures
        crate::clipboard::net_outcome(state_after(local, steps), event) == if applies(
            steps,
            local,
            event,
        ) {
            OutcomeView::ApplyLocal {
                content: carried(event),
                relay: next_message(steps, local, carried(event)),
                src_fingerprint: event->Message_fingerprint,
            }
        } else {
            OutcomeView::Nothing
        },
{
    law_the_state_is_what_happened(local, steps);
    lemma_nth_serial(sent(steps, local));
    if event is Message {
        let state = state_after(local, steps);
        let sender = event->Message_fingerprint;
        assert(state.seen(sender) == heard(steps, local, sender));
        assert(state.muted.contains(sender) == announced_off(steps, sender));
    }
}

/// An emptied selection is claimed again exactly where what it held came from a
/// peer, and with that.
pub proof fn law_an_emptied_selection_is_claimed_for_the_peer(local: Seq<char>, steps: Seq<Step>)
    ensures
        state_after(local, steps).local_decision(ChangeView::NullSelection)
            == if came_from_a_peer(steps, local) {
            DecisionView::Reclaim(held(steps, local)->0)
        } else {
            DecisionView::Nothing
        },
{
    law_the_state_is_what_happened(local, steps);
}

/// What a network event leaves alone, in every state: the name of this peer and
/// whether the startup content counts as seen; where nothing is applied, also
/// what the clipboard holds, whose it is and the serials of this peer.
pub proof fn law_what_network_events_leave_alone(state: StateView, event: NetEventView)
    ensures
        ({
            let after = crate::clipboard::after_net(state, event);
            &&& after.local_fingerprint == state.local_fingerprint
            &&& after.startup_baseline_consumed == state.startup_baseline_consumed
            &&& crate::clipboard::net_outcome(state, event) is Nothing ==> {
                &&& after.current_content == state.current_content
                &&& after.last_remote_content == state.last_remote_content
                &&& after.selection_origin == state.selection_origin
                &&& after.local_serial == state.local_serial
            }
        }),
{
}

/// A disconnect leaves the whole state as it was, and leads to nothing.
pub proof fn law_a_disconnect_changes_nothing(state: StateView, event: NetEventView)
    requires
        event is PeerDisconnected,
    ensures
        crate::clipboard::after_net(state, event) == state,
        crate::clipboard::net_outcome(state, event) == OutcomeView::Nothing,
{
}

/// A connect forgets the serials of the peer that connects and takes note of
/// its capabilities. Everything else stays, and nothing is applied.
pub proof fn law_a_connect_concerns_one_peer(
    state: StateView,
    event: NetEventView,
    other: Seq<char>,
)
    requires
        event is PeerConnected,
        other != event->PeerConnected_fingerprint,
    ensures
        ({
            let peer = event->PeerConnected_fingerprint;
            let after = crate::clipboard::after_net(state, event);
            &&& crate::clipboard::net_outcome(state, event) is Nothing
            &&& after == (StateView { last_seen: after.last_seen, muted: after.muted, ..state })
            &&& !after.last_seen.contains_key(peer)
            &&& after.last_seen.contains_key(other) == state.last_seen.contains_key(other)
            &&& state.last_seen.contains_key(other) ==> after.last_seen[other]
                == state.last_seen[other]
            &&& after.muted.contains(peer) == (event->capabilities & 1 == 0)
            &&& after.muted.contains(other) == state.muted.contains(other)
        }),
{
}

/// The state after several network events.
pub open spec fn after_events(state: StateView, events: Seq<NetEventView>) -> StateView
    decreases events.len(),
{
    if events.len() == 0 {
        state
    } else {
        crate::clipboard::after_net(after_events(state, events.drop_last()), events.last())
    }
}

/// None of several network events makes the task apply anything.
pub open spec fn apply_nothing(state: StateView, events: Seq<NetEventView>) -> bool
    decreases events.len(),
{
    events.len() == 0 || (apply_nothing(state, events.drop_last())
        && crate::clipboard::net_outcome(
        after_events(state, events.drop_last()),
        events.last(),
    ) is Nothing)
}

/// What came from a peer stays claimable: after any further network events that
/// bring nothing new, an emptied selection is claimed again with it.
pub proof fn law_applied_content_stays_claimable(
    state: StateView,
    event: NetEventView,
    later: Seq<NetEventView>,
)
    requires
        crate::clipboard::net_outcome(state, event) is ApplyLocal,
        apply_nothing(crate::clipboard::after_net(state, event), later),
    ensures
        ({
            let now = after_events(crate::clipboard::after_net(state, event), later);
            &&& now.local_decision(ChangeView::NullSelection) == DecisionView::Reclaim(
                carried(event),
            )
            &&& now.selection_origin == SelectionOrigin::Remote
            &&& now.last_remote_content == Some(carried(event))
        }),
    decreases later.len(),
{
    if later.len() > 0 {
        law_applied_content_stays_claimable(state, event, later.drop_last());
    }
}

/// To be told of a capability is all that an announcement does, and to forget
/// serials all that a reset does, each for one peer.
pub proof fn law_notes_on_a_peer_concern_that_peer(
    state: StateView,
    peer: Seq<char>,
    shares: bool,
    other: Seq<char>,
)
    ensures
        ({
            let told = state.after_announcement(peer, shares);
            &&& told == (StateView { muted: told.muted, ..state })
            &&& told.muted.contains(peer) == !shares
            &&& other != peer ==> told.muted.contains(other) == state.muted.contains(other)
        }),
        ({
            let reset = state.after_reset(peer);
            &&& reset == (StateView { last_seen: reset.last_seen, ..state })
            &&& !reset.last_seen.contains_key(peer)
            &&& other != peer ==> {
                &&& reset.last_seen.contains_key(other) == state.last_seen.contains_key(other)
                &&& state.last_seen.contains_key(other) ==> reset.last_seen[other]
                    == state.last_seen[other]
            }
        }),
{
}

/// A remote message is applied exactly where it is of another peer, later than
/// all that was taken from its origin, and carries what is not held. Then it is
/// all that the clipboard holds, and it is held for a peer.
pub proof fn law_when_a_remote_message_is_applied(
    state: StateView,
    origin: Seq<char>,
    serial: u64,
    content: ContentView,
)
    ensures
        ({
            let last = if state.last_seen.contains_key(origin) {
                state.last_seen[origin]
            } else {
                0
            };
            let news = origin != state.local_fingerprint && serial > last;
            let after = state.after_remote(origin, serial, content);
            let result = state.remote_result(origin, serial, content);
            &&& state.seen(origin) == last
            &&& result is Some <==> news && state.current_content != Some(content)
            &&& result is Some ==> result->0 == content
            &&& after.local_fingerprint == state.local_fingerprint
            &&& after.local_serial == state.local_serial
            &&& after.muted == state.muted
            &&& after.startup_baseline_consumed == state.startup_baseline_consumed
            &&& after.last_seen == if news {
                state.last_seen.insert(origin, serial)
            } else {
                state.last_seen
            }
            &&& if result is Some {
                &&& after.current_content == result
                &&& after.last_remote_content == result
                &&& after.selection_origin == SelectionOrigin::Remote
            } else {
                &&& after.current_content == state.current_content
                &&& after.last_remote_content == state.last_remote_content
                &&& after.selection_origin == state.selection_origin
            }
        }),
{
}

/// A local content is held for this peer, and leaves alone what is known of the
/// peers and what came from them last. An emptied selection changes nothing.
pub proof fn law_what_local_changes_do(state: StateView, change: ChangeView)
    ensures
        ({
            let after = state.after_local(change);
            &&& after.local_fingerprint == state.local_fingerprint
            &&& after.last_seen == state.last_seen
            &&& after.muted == state.muted
            &&& after.last_remote_content == state.last_remote_content
            &&& change is NullSelection ==> after == state
            &&& change is Content ==> {
                &&& after.startup_baseline_consumed
                &&& after.current_content == Some(change->content)
                &&& after.selection_origin == SelectionOrigin::Local
                &&& state.startup_baseline_consumed == (state.local_decision(
                    change,
                ) is Broadcast)
                &&& state.local_decision(change) !is Reclaim
                &&& after.local_serial == if !state.startup_baseline_consumed {
                    state.local_serial
                } else if state.local_serial == u64::MAX {
                    1
                } else {
                    (state.local_serial + 1) as u64
                }
            }
        }),
{
}

/// Who copied, and what else is known, has no bearing on what is broadcast: of
/// two peers that have sent as much, the same content is broadcast in the same
/// way, apart from the name.
pub proof fn law_broadcasts_depend_on_the_content_alone(
    a: StateView,
    b: StateView,
    content: ContentView,
    hint_a: OriginHint,
    hint_b: OriginHint,
)
    requires
        a.startup_baseline_consumed,
        b.startup_baseline_consumed,
        a.local_serial == b.local_serial,
    ensures
        ({
            let x = a.local_decision(ChangeView::Content { content, origin_hint: hint_a });
            let y = b.local_decision(ChangeView::Content { content, origin_hint: hint_b });
            &&& x is Broadcast && y is Broadcast
            &&& x->Broadcast_0 is Clipboard && y->Broadcast_0 is Clipboard
            &&& x->Broadcast_0->origin == a.local_fingerprint
            &&& y->Broadcast_0->origin == b.local_fingerprint
            &&& x->Broadcast_0->serial == y->Broadcast_0->serial
            &&& x->Broadcast_0->mime == content.mime && y->Broadcast_0->mime == content.mime
            &&& x->Broadcast_0->data == content.data && y->Broadcast_0->data == content.data
        }),
{
}

/// What is done about a local change, told from what happened: a copy is
/// broadcast, but for the first, and the platform clipboard is left alone; an
/// emptied selection is set again where what it held came from a peer, and
/// nothing is broadcast.
pub proof fn law_what_is_done_about_a_local_change<B: crate::backend::Clipboard>(
    local: Seq<char>,
    steps: Seq<Step>,
    change: ChangeView,
    before: B,
    msg: Option<CapMsg>,
    after: B,
)
    requires
        crate::clipboard::handles_local_change(
            state_after(local, steps),
            change,
            before,
            msg,
            after,
        ),
    ensures
        msg is Some <==> change is Content && copied(steps),
        msg is Some ==> msg->0@ == next_message(steps, local, change->content),
        change is NullSelection && came_from_a_peer(steps, local) ==> exists|
            result: Result<(), ClipboardError>,
        | #[trigger] before.set_step(held(steps, local)->0, &after, result),
        !(change is NullSelection && came_from_a_peer(steps, local)) ==> after == before,
{
    law_an_emptied_selection_is_claimed_for_the_peer(local, steps);
    if let ChangeView::Content { content, origin_hint } = change {
        law_every_copy_but_the_first_is_broadcast(local, steps, content, origin_hint);
    }
}

} // verus!
