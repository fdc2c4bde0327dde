//! What holds of copying and relaying as a whole: nothing is applied twice,
//! nothing loops, and a copy reaches the peers that have not seen it.

use vstd::prelude::*;

use crate::clipboard_state::{DecisionView, SelectionOrigin, StateView};
use crate::content::{ChangeView, ContentView, OriginHint};
use crate::proto::CapMsgView;

verus! {

/// A message that was received once, and every older one of the same origin,
/// is dropped without a trace, whatever it carries.
pub proof fn law_replays_and_late_messages_are_dropped(
    state: StateView,
    origin: Seq<char>,
    serial: u64,
    content: ContentView,
    late_serial: u64,
    late_content: ContentView,
)
    requires
        late_serial <= serial,
    ensures
        ({
            let after = state.after_remote(origin, serial, content);
            &&& after.remote_result(origin, late_serial, late_content) is None
            &&& after.after_remote(origin, late_serial, late_content) == after
        }),
{
}

/// What was seen of an origin never goes back, and a message changes it for
/// its own origin only.
pub proof fn law_seen_serials_never_go_back(
    state: StateView,
    origin: Seq<char>,
    serial: u64,
    content: ContentView,
    peer: Seq<char>,
)
    ensures
        state.after_remote(origin, serial, content).seen(peer) >= state.seen(peer),
        peer != origin ==> state.after_remote(origin, serial, content).seen(peer) == state.seen(
            peer,
        ),
        origin != state.local_fingerprint && serial > 0 ==> state.after_remote(
            origin,
            serial,
            content,
        ).seen(origin) >= serial,
{
}

/// Local changes and relays leave what was seen of the peers alone.
pub proof fn law_local_work_keeps_what_was_seen(
    state: StateView,
    change: ChangeView,
    peer: Seq<char>,
)
    ensures
        state.after_local(change).seen(peer) == state.seen(peer),
        state.bumped().seen(peer) == state.seen(peer),
{
}

/// After a peer has (re)connected its first message is accepted with any
/// serial but 0, unless it carries what the clipboard already holds. The other
/// peers are not affected.
pub proof fn law_reset_admits_any_serial(
    state: StateView,
    origin: Seq<char>,
    serial: u64,
    content: ContentView,
    peer: Seq<char>,
)
    requires
        origin != state.local_fingerprint,
        serial > 0,
        state.current_content != Some(content),
    ensures
        state.after_reset(origin).seen(origin) == 0,
        state.after_reset(origin).remote_result(origin, serial, content) == Some(content),
        peer != origin ==> state.after_reset(origin).seen(peer) == state.seen(peer),
{
}

/// A message that claims this peer as its origin changes nothing.
pub proof fn law_own_messages_are_ignored(
    state: StateView,
    serial: u64,
    content: ContentView,
)
    ensures
        state.remote_result(state.local_fingerprint, serial, content) is None,
        state.after_remote(state.local_fingerprint, serial, content) == state,
{
}

/// What the clipboard already holds is not applied, and so not relayed, again.
/// Only the serial of the message is taken note of.
pub proof fn law_held_content_is_not_applied(
    state: StateView,
    origin: Seq<char>,
    serial: u64,
    content: ContentView,
)
    requires
        state.current_content == Some(content),
    ensures
        state.remote_result(origin, serial, content) is None,
        state.after_remote(origin, serial, content) == (StateView {
            last_seen: state.after_remote(origin, serial, content).last_seen,
            ..state
        }),
        state.is_fresh(origin, serial) ==> state.after_remote(origin, serial, content).seen(origin)
            == serial,
{
}

/// A remote content that was applied is what the clipboard holds, and what it
/// is claimed again with when the selection is lost.
pub proof fn law_remote_content_is_reclaimed(
    state: StateView,
    origin: Seq<char>,
    serial: u64,
    content: ContentView,
)
    requires
        state.remote_result(origin, serial, content) is Some,
    ensures
        ({
            let after = state.after_remote(origin, serial, content);
            &&& state.remote_result(origin, serial, content) == Some(content)
            &&& after.current_content == Some(content)
            &&& after.selection_origin == SelectionOrigin::Remote
            &&& after.local_decision(ChangeView::NullSelection)
                == DecisionView::Reclaim(content)
        }),
{
}

/// A local content is what the clipboard holds, and a selection that is lost
/// after it is not claimed again, whether or not remote content came before.
pub proof fn law_local_content_is_not_reclaimed(
    state: StateView,
    content: ContentView,
    origin_hint: OriginHint,
)
    ensures
        ({
            let after = state.after_local(
                ChangeView::Content { content, origin_hint },
            );
            &&& after.current_content == Some(content)
            &&& after.selection_origin == SelectionOrigin::Local
            &&& after.local_decision(ChangeView::NullSelection)
                == DecisionView::Nothing
        }),
{
}

/// A lost selection is claimed again exactly when it came from a peer, with
/// the content that the clipboard held, and it changes nothing in the state.
pub proof fn law_null_selection_rule(state: StateView)
    requires
        state.well_formed(),
    ensures
        ({
            let decision = state.local_decision(ChangeView::NullSelection);
            &&& state.after_local(ChangeView::NullSelection) == state
            &&& state.selection_origin == SelectionOrigin::Remote ==> decision
                == DecisionView::Reclaim(state.current_content->Some_0)
            &&& state.selection_origin == SelectionOrigin::Local ==> decision
                == DecisionView::Nothing
        }),
{
}

/// The first content that is observed locally is taken as what was there at
/// startup and goes nowhere; every later one is broadcast. Only an observed
/// content counts: remote messages, resets, relays and lost selections do not.
pub proof fn law_only_the_startup_content_is_kept_back(
    state: StateView,
    content: ContentView,
    origin_hint: OriginHint,
    origin: Seq<char>,
    serial: u64,
)
    ensures
        ({
            let change = ChangeView::Content { content, origin_hint };
            let after = state.after_local(change);
            &&& after.startup_baseline_consumed
            &&& !state.startup_baseline_consumed ==> {
                &&& state.local_decision(change) == DecisionView::Nothing
                &&& after.local_serial == state.local_serial
            }
            &&& state.startup_baseline_consumed ==> state.local_decision(change)
                == DecisionView::Broadcast(after.message(content))
        }),
        state.after_remote(origin, serial, content).startup_baseline_consumed
            == state.startup_baseline_consumed,
        state.after_reset(origin).startup_baseline_consumed == state.startup_baseline_consumed,
        state.bumped().startup_baseline_consumed == state.startup_baseline_consumed,
        state.after_local(ChangeView::NullSelection).startup_baseline_consumed
            == state.startup_baseline_consumed,
{
}

/// Serials count up by one and are never 0, also where the count wraps.
pub proof fn law_serials_count_up(state: StateView)
    ensures
        state.bumped().local_serial > 0,
        state.local_serial < u64::MAX ==> state.bumped().local_serial == state.local_serial + 1,
        state.local_serial == u64::MAX ==> state.bumped().local_serial == 1,
{
}

/// Relaying takes a serial and changes nothing else: in particular the
/// selection still belongs to whom it belonged to.
pub proof fn law_relaying_only_takes_a_serial(state: StateView)
    ensures
        state.bumped() == (StateView {
            local_serial: state.bumped().local_serial,
            ..state
        }),
{
}

/// A copy arrives: what `sender` broadcasts for a local content is applied by
/// a peer that has heard at most what `sender` has sent and holds something
/// else. Afterwards both hold it, and the peer has heard exactly what `sender`
/// has sent, so the next copy will arrive too.
///
/// The count of `sender` must not be at its very end, where it wraps and the
/// peer takes the next serials for old ones until it is reset.
pub proof fn law_a_copy_arrives(
    sender: StateView,
    receiver: StateView,
    content: ContentView,
    origin_hint: OriginHint,
)
    requires
        sender.startup_baseline_consumed,
        sender.local_fingerprint != receiver.local_fingerprint,
        receiver.seen(sender.local_fingerprint) <= sender.local_serial < u64::MAX,
        receiver.current_content != Some(content),
    ensures
        ({
            let change = ChangeView::Content { content, origin_hint };
            let sent = sender.after_local(change);
            let received = receiver.after_remote(
                sent.local_fingerprint,
                sent.local_serial,
                content,
            );
            &&& sender.local_decision(change) == DecisionView::Broadcast(
                CapMsgView::Clipboard {
                    origin: sent.local_fingerprint,
                    serial: sent.local_serial,
                    mime: content.mime,
                    data: content.data,
                },
            )
            &&& receiver.remote_result(sent.local_fingerprint, sent.local_serial, content) == Some(
                content,
            )
            &&& sent.current_content == Some(content)
            &&& received.current_content == Some(content)
            &&& received.seen(sender.local_fingerprint) == sent.local_serial
        }),
{
}

/// A relay arrives: what `hub` relays of a content is applied by a peer that
/// has heard at most what `hub` has sent and holds something else, although the
/// peer never heard of the machine that the content was copied on.
pub proof fn law_a_relay_arrives(
    hub: StateView,
    receiver: StateView,
    content: ContentView,
)
    requires
        hub.local_fingerprint != receiver.local_fingerprint,
        receiver.seen(hub.local_fingerprint) <= hub.local_serial < u64::MAX,
        receiver.current_content != Some(content),
    ensures
        ({
            let sent = hub.bumped();
            &&& sent.message(content) == CapMsgView::Clipboard {
                origin: hub.local_fingerprint,
                serial: sent.local_serial,
                mime: content.mime,
                data: content.data,
            }
            &&& receiver.remote_result(hub.local_fingerprint, sent.local_serial, content) == Some(
                content,
            )
            &&& receiver.after_remote(hub.local_fingerprint, sent.local_serial, content).seen(
                hub.local_fingerprint,
            ) == sent.local_serial
        }),
{
}

/// A message on its way to one of several peers. Its content is given apart.
pub struct Delivery {
    /// Which peer receives it.
    pub to: int,
    pub origin: Seq<char>,
    pub serial: u64,
}

/// A peer after it has received a message and, where it applied it, relayed it.
pub open spec fn received(
    state: StateView,
    origin: Seq<char>,
    serial: u64,
    content: ContentView,
) -> StateView {
    if state.remote_result(origin, serial, content) is Some {
        state.after_remote(origin, serial, content).bumped()
    } else {
        state.after_remote(origin, serial, content)
    }
}

/// The peers after all of `deliveries`, each of which carries `content`.
pub open spec fn deliver_all(
    peers: Seq<StateView>,
    deliveries: Seq<Delivery>,
    content: ContentView,
) -> Seq<StateView>
    decreases deliveries.len(),
{
    if deliveries.len() == 0 {
        peers
    } else {
        let before = deliver_all(peers, deliveries.drop_last(), content);
        let d = deliveries.last();
        before.update(d.to, received(before[d.to], d.origin, d.serial, content))
    }
}

/// How many of `deliveries` are applied, and so relayed.
pub open spec fn applications(
    peers: Seq<StateView>,
    deliveries: Seq<Delivery>,
    content: ContentView,
) -> nat
    decreases deliveries.len(),
{
    if deliveries.len() == 0 {
        0
    } else {
        let before = deliver_all(peers, deliveries.drop_last(), content);
        let d = deliveries.last();
        applications(peers, deliveries.drop_last(), content) + if before[d.to].remote_result(
            d.origin,
            d.serial,
            content,
        ) is Some {
            1nat
        } else {
            0nat
        }
    }
}

/// How many of `peers` hold something else than `content`.
pub open spec fn outstanding(
    peers: Seq<StateView>,
    content: ContentView,
) -> nat
    decreases peers.len(),
{
    if peers.len() == 0 {
        0
    } else {
        outstanding(peers.drop_last(), content) + if peers.last().current_content == Some(content) {
            0nat
        } else {
            1nat
        }
    }
}

/// Replacing one peer changes the number of those that hold something else by
/// what that one peer contributes.
proof fn lemma_outstanding_update(
    peers: Seq<StateView>,
    i: int,
    state: StateView,
    content: ContentView,
)
    requires
        0 <= i < peers.len(),
    ensures
        outstanding(peers.update(i, state), content) + (if peers[i].current_content == Some(
            content,
        ) {
            0nat
        } else {
            1nat
        }) == outstanding(peers, content) + (if state.current_content == Some(content) {
            0nat
        } else {
            1nat
        }),
    decreases peers.len(),
{
    if i == peers.len() - 1 {
        assert(peers.update(i, state).drop_last() =~= peers.drop_last());
    } else {
        lemma_outstanding_update(peers.drop_last(), i, state, content);
        assert(peers.update(i, state).drop_last() =~= peers.drop_last().update(i, state));
        assert(peers.update(i, state).last() == peers.last());
    }
}

/// Relay cycles end. However the peers are connected, and whichever messages
/// that carry one content reach them in whatever order, every application makes
/// one peer hold the content that did not hold it before. So a content is
/// applied at most once by each peer, and relayed no more often than that.
pub proof fn law_relay_cycles_end(
    peers: Seq<StateView>,
    deliveries: Seq<Delivery>,
    content: ContentView,
)
    requires
        forall|k: int|
            0 <= k < deliveries.len() ==> 0 <= (#[trigger] deliveries[k]).to < peers.len(),
    ensures
        applications(peers, deliveries, content) + outstanding(
            deliver_all(peers, deliveries, content),
            content,
        ) == outstanding(peers, content),
        applications(peers, deliveries, content) <= outstanding(peers, content) <= peers.len(),
        deliver_all(peers, deliveries, content).len() == peers.len(),
    decreases deliveries.len(),
{
    lemma_outstanding_bound(peers, content);
    if deliveries.len() > 0 {
        let earlier = deliveries.drop_last();
        assert forall|k: int| 0 <= k < earlier.len() implies 0 <= (
        #[trigger] earlier[k]).to < peers.len() by {
            assert(earlier[k] == deliveries[k]);
        }
        law_relay_cycles_end(peers, earlier, content);
        let before = deliver_all(peers, earlier, content);
        let d = deliveries.last();
        assert(d == deliveries[deliveries.len() - 1]);
        lemma_outstanding_update(
            before,
            d.to,
            received(before[d.to], d.origin, d.serial, content),
            content,
        );
    }
}

proof fn lemma_outstanding_bound(
    peers: Seq<StateView>,
    content: ContentView,
)
    ensures
        outstanding(peers, content) <= peers.len(),
    decreases peers.len(),
{
    if peers.len() > 0 {
        lemma_outstanding_bound(peers.drop_last(), content);
    }
}

} // verus!
