//! What the Wayland clipboard reads, reports and hands out, told from what has
//! happened to it.

use vstd::prelude::*;

use crate::content::{ChangeView, ClipboardChange, OriginHint};
use crate::error::IoError;
use crate::wayland::{LocalSource, ManagerKind, SelectionView, SetPlan, WaylandView};

verus! {

/// Something that happened on the Wayland connection.
pub enum WaylandStep {
    /// An offer was introduced.
    Offer(u32),
    /// An offer advertised a MIME type.
    Mime(u32, Seq<char>),
    /// The selection changed.
    Selection(Option<u32>),
    /// These bytes were put on the clipboard, through the source with this
    /// number.
    Put(Seq<u8>, u64),
    /// A source was cancelled.
    Cancelled(LocalSource),
}

/// The source with number `id` under a protocol.
pub open spec fn source_under(manager: ManagerKind, id: u64) -> LocalSource {
    if manager == ManagerKind::Ext {
        LocalSource::Ext(id)
    } else {
        LocalSource::Wlr(id)
    }
}

/// What is on offer from here: the bytes that were put last, and their source,
/// as long as that source was not cancelled.
pub open spec fn on_offer(manager: ManagerKind, steps: Seq<WaylandStep>) -> Option<
    (Seq<u8>, LocalSource),
>
    decreases steps.len(),
{
    if steps.len() == 0 {
        None
    } else {
        let earlier = on_offer(manager, steps.drop_last());
        match steps.last() {
            WaylandStep::Put(data, id) => Some((data, source_under(manager, id))),
            WaylandStep::Cancelled(source) => match earlier {
                Some((_, current)) => if current == source {
                    None
                } else {
                    earlier
                },
                None => None,
            },
            _ => earlier,
        }
    }
}

/// The types that an offer has advertised since it was last introduced or
/// selected.
pub open spec fn types_of(steps: Seq<WaylandStep>, id: u32) -> Seq<Seq<char>>
    decreases steps.len(),
{
    if steps.len() == 0 {
        Seq::empty()
    } else {
        let earlier = types_of(steps.drop_last(), id);
        match steps.last() {
            WaylandStep::Offer(i) => if i == id {
                Seq::empty()
            } else {
                earlier
            },
            WaylandStep::Mime(i, mime) => if i == id {
                earlier.push(mime)
            } else {
                earlier
            },
            WaylandStep::Selection(Some(i)) => if i == id {
                Seq::empty()
            } else {
                earlier
            },
            _ => earlier,
        }
    }
}

/// Something was put on the clipboard since an offer was last selected.
pub open spec fn awaits_echo(steps: Seq<WaylandStep>) -> bool
    decreases steps.len(),
{
    if steps.len() == 0 {
        false
    } else {
        match steps.last() {
            WaylandStep::Put(_, _) => true,
            WaylandStep::Selection(Some(_)) => false,
            _ => awaits_echo(steps.drop_last()),
        }
    }
}

/// The state of the clipboard of `peer_id` after `steps`.
pub open spec fn state_after(
    manager: ManagerKind,
    peer_id: Seq<char>,
    steps: Seq<WaylandStep>,
) -> WaylandView
    decreases steps.len(),
{
    if steps.len() == 0 {
        WaylandView::initial(manager, peer_id)
    } else {
        let before = state_after(manager, peer_id, steps.drop_last());
        match steps.last() {
            WaylandStep::Offer(id) => before.after_offer(id),
            WaylandStep::Mime(id, mime) => before.after_mime(id, mime),
            WaylandStep::Selection(id) => before.after_selection(id),
            WaylandStep::Put(data, id) => before.after_set(data, id),
            WaylandStep::Cancelled(source) => before.after_cancel(source),
        }
    }
}

/// The whole state follows from what happened.
pub proof fn law_the_state_is_what_happened(
    manager: ManagerKind,
    peer_id: Seq<char>,
    steps: Seq<WaylandStep>,
)
    ensures
        ({
            let state = state_after(manager, peer_id, steps);
            let offered = on_offer(manager, steps);
            &&& state.manager == manager
            &&& state.peer_id == peer_id
            &&& state.suppress_next_selection == awaits_echo(steps)
            &&& state.pending_local_send == match offered {
                Some((data, _)) => Some(data),
                None => None,
            }
            &&& state.local_source == match offered {
                Some((_, source)) => Some(source),
                None => None,
            }
            &&& forall|id: u32| #[trigger] state.advertised(id) == types_of(steps, id)
        }),
    decreases steps.len(),
{
    if steps.len() > 0 {
        let before = steps.drop_last();
        law_the_state_is_what_happened(manager, peer_id, before);
        let old_state = state_after(manager, peer_id, before);
        let state = state_after(manager, peer_id, steps);
        assert forall|id: u32| #[trigger] state.advertised(id) == types_of(steps, id) by {
            assert(old_state.advertised(id) == types_of(before, id));
        }
    }
}

/// What was put on the clipboard is handed out under both text types after any
/// offers, advertised types and selections, until its source is cancelled or
/// something else is put there; before and after that nothing is handed out.
pub proof fn law_what_was_put_is_handed_out(
    manager: ManagerKind,
    peer_id: Seq<char>,
    steps: Seq<WaylandStep>,
)
    ensures
        ({
            let state = state_after(manager, peer_id, steps);
            let expected = match on_offer(manager, steps) {
                Some((data, _)) => Some(data),
                None => None,
            };
            &&& state.payload("text/plain;charset=utf-8"@) == expected
            &&& state.payload("text/plain"@) == expected
            &&& state.payload("application/x-lan-mouse-origin;peer="@ + peer_id) == Some(
                vstd::utf8::encode_utf8(peer_id),
            )
        }),
{
    law_the_state_is_what_happened(manager, peer_id, steps);
    crate::wayland::law_markers_are_no_text(peer_id);
}

/// A selection, empty or not, an offer and an advertised type change neither
/// what is handed out under any type nor the local source.
pub proof fn law_foreign_events_leave_the_own_content_alone(
    state: WaylandView,
    selected: Option<u32>,
    id: u32,
    advertised: Seq<char>,
    wanted: Seq<char>,
)
    ensures
        state.after_selection(selected).payload(wanted) == state.payload(wanted),
        state.after_selection(selected).local_source == state.local_source,
        state.after_offer(id).payload(wanted) == state.payload(wanted),
        state.after_offer(id).local_source == state.local_source,
        state.after_mime(id, advertised).payload(wanted) == state.payload(wanted),
        state.after_mime(id, advertised).local_source == state.local_source,
        state.after_selection(selected).peer_id == state.peer_id,
        state.after_offer(id).peer_id == state.peer_id,
        state.after_mime(id, advertised).peer_id == state.peer_id,
{
}

/// Putting something on the clipboard and losing it again leave the offers of
/// others alone.
pub proof fn law_own_content_leaves_offers_alone(
    state: WaylandView,
    data: Seq<u8>,
    number: u64,
    source: LocalSource,
    id: u32,
)
    ensures
        state.after_set(data, number).offers == state.offers,
        state.after_cancel(source).offers == state.offers,
        state.after_set(data, number).peer_id == state.peer_id,
        state.after_cancel(source).peer_id == state.peer_id,
        state.after_set(data, number).manager == state.manager,
        state.after_cancel(source).manager == state.manager,
        state.after_set(data, number).local_source == Some(source_under(state.manager, number)),
        state.after_set(data, number).is_ours(id) == state.is_ours(id),
        state.after_cancel(source).suppress_next_selection == state.suppress_next_selection,
        state.local_source != Some(source) ==> state.after_cancel(source) == state,
{
}

/// What is done about a selection, told from what happened: an empty one is
/// reported; one that carries our marker, or that follows something put here,
/// is dropped; any other is read as UTF-8 text where it has that type, else as
/// legacy text where it has that, and else is dropped. No other type that it
/// has makes a difference, nor the order of its types.
pub proof fn law_foreign_text_is_read(
    manager: ManagerKind,
    peer_id: Seq<char>,
    steps: Seq<WaylandStep>,
    id: u32,
)
    ensures
        ({
            let state = state_after(manager, peer_id, steps);
            let types = types_of(steps, id);
            let marker = "application/x-lan-mouse-origin;peer="@ + peer_id;
            &&& state.selection_action(None) == SelectionView::Report(ChangeView::NullSelection)
            &&& state.selection_action(Some(id)) == if awaits_echo(steps) || types.contains(
                marker,
            ) {
                SelectionView::Discard
            } else if types.contains("text/plain;charset=utf-8"@) {
                SelectionView::Receive("text/plain;charset=utf-8"@)
            } else if types.contains("text/plain"@) {
                SelectionView::Receive("text/plain"@)
            } else {
                SelectionView::Discard
            }
        }),
{
    law_the_state_is_what_happened(manager, peer_id, steps);
    assert(state_after(manager, peer_id, steps).advertised(id) == types_of(steps, id));
}

/// More types never turn a read into a drop, unless our own marker is among
/// them: an offer that has all the types of one that is read is read as well,
/// and no worse.
pub proof fn law_more_types_do_no_harm(
    state: WaylandView,
    richer: WaylandView,
    id: u32,
    richer_id: u32,
)
    requires
        state.selection_action(Some(id)) is Receive,
        richer.suppress_next_selection == state.suppress_next_selection,
        forall|mime: Seq<char>| #[trigger]
            state.advertised(id).contains(mime) ==> richer.advertised(richer_id).contains(mime),
        !richer.advertised(richer_id).contains(
            "application/x-lan-mouse-origin;peer="@ + richer.peer_id,
        ),
    ensures
        richer.selection_action(Some(richer_id)) is Receive,
        richer.selection_action(Some(richer_id))->Receive_0 == "text/plain;charset=utf-8"@
            || richer.selection_action(Some(richer_id)) == state.selection_action(Some(id)),
{
}

/// What an offer is read as depends on nothing but whether it has the two text
/// types, and it has what it is read as.
pub proof fn law_only_the_text_types_matter(a: Seq<Seq<char>>, b: Seq<Seq<char>>)
    requires
        a.contains("text/plain;charset=utf-8"@) == b.contains("text/plain;charset=utf-8"@),
        a.contains("text/plain"@) == b.contains("text/plain"@),
    ensures
        crate::wayland::picked_mime(a) == crate::wayland::picked_mime(b),
        crate::wayland::picked_mime(a) is Some ==> a.contains(crate::wayland::picked_mime(a)->0),
        crate::wayland::picked_mime(a) is None <==> !a.contains("text/plain;charset=utf-8"@)
            && !a.contains("text/plain"@),
        a.contains("text/plain;charset=utf-8"@) ==> crate::wayland::picked_mime(a) == Some(
            "text/plain;charset=utf-8"@,
        ),
{
}

/// An offer's types are kept as they are advertised, in order, and none of
/// another offer is among them.
pub proof fn law_types_belong_to_their_offer(
    state: WaylandView,
    id: u32,
    mime: Seq<char>,
    other: u32,
)
    requires
        other != id,
    ensures
        state.after_offer(id).advertised(id).len() == 0,
        state.after_offer(id).advertised(other) == state.advertised(other),
        state.after_mime(id, mime).advertised(id) == state.advertised(id).push(mime),
        state.after_mime(id, mime).advertised(other) == state.advertised(other),
        state.after_selection(Some(id)).advertised(id).len() == 0,
        state.after_selection(Some(id)).advertised(other) == state.advertised(other),
        state.after_selection(None) == state,
        state.after_offer(id).suppress_next_selection == state.suppress_next_selection,
        state.after_mime(id, mime).suppress_next_selection == state.suppress_next_selection,
        !state.after_selection(Some(id)).suppress_next_selection,
{
}

/// What is offered with every content: the two text types and our marker, which
/// starts with the prefix and ends with our fingerprint.
pub proof fn law_what_is_offered(state: WaylandView, peer_id: Seq<char>)
    ensures
        state.offered().len() == 3,
        state.offered()[0] == "text/plain;charset=utf-8"@,
        state.offered()[1] == "text/plain"@,
        state.offered()[2] == "application/x-lan-mouse-origin;peer="@ + state.peer_id,
        crate::wayland::marker_of(peer_id) == "application/x-lan-mouse-origin;peer="@ + peer_id,
{
}

/// A clipboard can be shared wherever one of the two protocols is there; the
/// first is used where it is there, whether or not the second is.
pub proof fn law_which_protocol_is_used(ext_bound: bool, wlr_bound: bool)
    ensures
        crate::wayland::preferred_manager(ext_bound, wlr_bound) is Some <==> ext_bound || wlr_bound,
        crate::wayland::preferred_manager(ext_bound, wlr_bound) == Some(ManagerKind::Ext)
            <==> ext_bound,
{
}

/// What was read of an offer to its end is reported whole, under the type that
/// it was read as, as a local change; what could not be read is not reported.
pub proof fn law_what_was_read_is_reported(
    mime: Seq<char>,
    read: Result<Vec<u8>, IoError>,
    change: Option<ClipboardChange>,
)
    requires
        crate::wayland::reports_read(mime, read, change),
    ensures
        change is Some <==> read is Ok,
        read is Ok ==> {
            &&& change->0@ is Content
            &&& change->0@->content.mime == mime
            &&& change->0@->content.data == read->Ok_0@
            &&& change->0@->origin_hint == OriginHint::Local
        },
{
}

/// Whatever is put on the clipboard, the source before it is let go of, and it
/// is offered as text in both ways and with our marker. A source is let go of
/// on its cancellation exactly where it is the current one.
pub proof fn law_sources_are_replaced(state: WaylandView, plan: SetPlan, source: LocalSource)
    requires
        state.is_planned(plan),
    ensures
        plan.destroy == state.local_source,
        plan.offer@.len() == 3,
        plan.offer@[0]@ == "text/plain;charset=utf-8"@,
        plan.offer@[1]@ == "text/plain"@,
        plan.offer@[2]@ == "application/x-lan-mouse-origin;peer="@ + state.peer_id,
        state.to_destroy(source) is Some <==> state.local_source == Some(source),
        state.to_destroy(source) is Some ==> {
            &&& state.to_destroy(source) == Some(source)
            &&& state.after_cancel(source).local_source is None
            &&& state.after_cancel(source).pending_local_send is None
        },
{
    let views = plan.offer@.map_values(|mime: String| mime@);
    assert(views.len() == plan.offer@.len());
    assert(views[0] == plan.offer@[0]@);
    assert(views[1] == plan.offer@[1]@);
    assert(views[2] == plan.offer@[2]@);
}

} // verus!
