//! The decisions of the macOS clipboard.
//!
//! The pasteboard has no change notification: its change count is polled.
//! Every write of ours attaches a marker type beside the text, named after
//! this instance. A pasteboard that carries our own marker is not reported.
//!
//! Times are nanoseconds since some fixed moment.

use vstd::prelude::*;
use vstd::slice::slice_to_vec;
use vstd::string::StringExecFns;

use crate::content::{
    ChangeView, ClipboardChange, ClipboardContent, ContentView, OriginHint, MIME_TEXT_UTF8,
};
use crate::text::contains_text;

verus! {

/// Poll cadence for the change count: 250 ms.
pub const POLL_INTERVAL: u64 = 250_000_000;

/// Longest sleep: 50 ms, so that commands are not delayed by a full
/// [`POLL_INTERVAL`].
pub const MAX_SLEEP: u64 = 50_000_000;

/// Per-instance pasteboard-type prefix.
pub const MARKER_PREFIX: &'static str = "de.feschber.LanMouse.origin.";

/// The marker type of the instance with this fingerprint.
pub open spec fn marker_of(peer_id: Seq<char>) -> Seq<char> {
    MARKER_PREFIX@ + peer_id
}

/// The marker type of the instance with this fingerprint.
pub fn marker_type(peer_id: &str) -> (marker: String)
    ensures
        marker@ == marker_of(peer_id@),
{
    let mut marker: String = MARKER_PREFIX.to_owned();
    marker.append(peer_id);
    marker
}

/// Trusted: `std::str::from_utf8`. It gives the text that the bytes encode,
/// exactly where they are valid UTF-8.
#[verifier::external_body]
fn utf8_text(bytes: &[u8]) -> (text: Option<&str>)
    ensures
        text is Some <==> vstd::utf8::valid_utf8(bytes@),
        text is Some ==> text->0@ == vstd::utf8::decode_utf8(bytes@),
{
    match std::str::from_utf8(bytes) {
        Ok(text) => Some(text),
        Err(_) => None,
    }
}

/// What the macOS clipboard remembers.
#[derive(Debug)]
pub struct PasteboardState {
    peer_id: String,
    last_seen: i64,
    next_tick: u64,
}

/// The mathematical value of a [`PasteboardState`].
#[verifier::ext_equal]
pub struct PasteboardView {
    pub peer_id: Seq<char>,
    /// The change count that has been dealt with.
    pub last_seen: i64,
    /// When the change count is polled next.
    pub next_tick: u64,
}

/// What is written to a cleared pasteboard.
#[derive(Debug)]
pub struct PasteboardItems {
    /// The plain text.
    pub text: String,
    /// The type under which the marker is attached.
    pub marker: String,
    /// The marker's data. Only its type is ever looked at.
    pub marker_data: Vec<u8>,
}

/// A time `delay` after `time`.
pub open spec fn later(time: u64, delay: u64) -> u64 {
    if time + delay > u64::MAX {
        u64::MAX
    } else {
        (time + delay) as u64
    }
}

/// The pasteboard carries the marker of the instance `peer_id`.
pub open spec fn is_marked(types: Option<Seq<String>>, peer_id: Seq<char>) -> bool {
    match types {
        Some(names) => crate::text::holds_text(names, marker_of(peer_id)),
        None => false,
    }
}

/// The change that a text on the pasteboard amounts to.
pub open spec fn change_of(text: Seq<char>) -> ChangeView {
    ChangeView::Content {
        content: ContentView { mime: MIME_TEXT_UTF8@, data: vstd::utf8::encode_utf8(text) },
        origin_hint: OriginHint::Local,
    }
}

/// The view of a list of types that may be missing.
pub open spec fn names_of(types: Option<Vec<String>>) -> Option<Seq<String>> {
    match types {
        Some(names) => Some(names@),
        None => None,
    }
}

/// `change` is the report of a text that may be missing.
pub open spec fn reports(text: Option<String>, change: Option<ClipboardChange>) -> bool {
    match text {
        Some(t) => change matches Some(c) && c@ == change_of(t@),
        None => change is None,
    }
}

/// `change` is the report of a changed pasteboard, as far as it was read:
/// nothing where the types carry the marker of `peer_id`, else its text.
pub open spec fn reported<F: FnOnce() -> Option<Vec<String>>, G: FnOnce() -> Option<String>>(
    peer_id: Seq<char>,
    read_types: F,
    read_text: G,
    change: Option<ClipboardChange>,
) -> bool {
    exists|types: Option<Vec<String>>|
        #![trigger names_of(types)]
        {
            &&& call_ensures(read_types, (), types)
            &&& if is_marked(names_of(types), peer_id) {
                change is None
            } else {
                exists|text: Option<String>|
                    call_ensures(read_text, (), text) && #[trigger] reports(text, change)
            }
        }
}

impl PasteboardView {
    /// The state once the change count is dealt with.
    pub open spec fn after_count(self, change_count: i64) -> PasteboardView {
        PasteboardView { last_seen: change_count, ..self }
    }

    /// The state after it was asked at `now` whether to poll.
    pub open spec fn after_due(self, now: u64) -> PasteboardView {
        if self.is_due(now) {
            PasteboardView { next_tick: later(self.next_tick, POLL_INTERVAL), ..self }
        } else {
            self
        }
    }

    /// `items` is what is written for `data`.
    pub open spec fn is_planned(self, data: Seq<u8>, items: Option<PasteboardItems>) -> bool {
        match items {
            Some(written) => {
                &&& vstd::utf8::valid_utf8(data)
                &&& written.text@ == vstd::utf8::decode_utf8(data)
                &&& written.marker@ == marker_of(self.peer_id)
                &&& written.marker_data@ == vstd::utf8::encode_utf8(self.peer_id)
            },
            None => !vstd::utf8::valid_utf8(data),
        }
    }

    /// `change` is what a poll that gave the count `current` reports.
    pub open spec fn is_polled<
        F: FnOnce() -> Option<Vec<String>>,
        G: FnOnce() -> Option<String>,
    >(
        self,
        current: i64,
        read_types: F,
        read_text: G,
        change: Option<ClipboardChange>,
    ) -> bool {
        if current == self.last_seen {
            change is None
        } else {
            reported(self.peer_id, read_types, read_text, change)
        }
    }

    /// The change count is due at `now`.
    pub open spec fn is_due(self, now: u64) -> bool {
        now >= self.next_tick
    }

    /// How long to sleep at `now`.
    pub open spec fn sleep(self, now: u64) -> u64 {
        if self.is_due(now) {
            0
        } else if self.next_tick - now < MAX_SLEEP {
            (self.next_tick - now) as u64
        } else {
            MAX_SLEEP
        }
    }
}

impl View for PasteboardState {
    type V = PasteboardView;

    closed spec fn view(&self) -> PasteboardView {
        PasteboardView {
            peer_id: self.peer_id@,
            last_seen: self.last_seen,
            next_tick: self.next_tick,
        }
    }
}

impl PasteboardState {
    /// The state at the start. What is on the pasteboard then counts as seen.
    pub fn new(peer_id: &str, change_count: i64, now: u64) -> (state: PasteboardState)
        ensures
            state@ == (PasteboardView {
                peer_id: peer_id@,
                last_seen: change_count,
                next_tick: later(now, POLL_INTERVAL),
            }),
    {
        PasteboardState {
            peer_id: peer_id.to_owned(),
            last_seen: change_count,
            next_tick: now.saturating_add(POLL_INTERVAL),
        }
    }

    /// What to write for `content` once the pasteboard is cleared: its text
    /// and our marker, or nothing where its bytes are no text.
    pub fn plan_set(&self, content: &ClipboardContent) -> (items: Option<PasteboardItems>)
        ensures
            items is Some <==> vstd::utf8::valid_utf8(content.data@),
            items matches Some(written) ==> {
                &&& written.text@ == vstd::utf8::decode_utf8(content.data@)
                &&& written.marker@ == marker_of(self@.peer_id)
                &&& written.marker_data@ == vstd::utf8::encode_utf8(self@.peer_id)
            },
            self@.is_planned(content.data@, items),
    {
        match utf8_text(content.data.as_slice()) {
            Some(text) => Some(
                PasteboardItems {
                    text: text.to_owned(),
                    marker: marker_type(self.peer_id.as_str()),
                    marker_data: slice_to_vec(self.peer_id.as_str().as_bytes()),
                },
            ),
            None => None,
        }
    }

    /// A write of ours has left the pasteboard with this change count.
    pub fn set_done(&mut self, change_count: i64)
        ensures
            final(self)@ == (PasteboardView { last_seen: change_count, ..old(self)@ }),
            final(self)@ == old(self)@.after_count(change_count),
    {
        self.last_seen = change_count;
    }

    /// Whether to poll at `now`. Where it is, the next poll is set one
    /// interval later.
    pub fn poll_due(&mut self, now: u64) -> (due: bool)
        ensures
            due == old(self)@.is_due(now),
            due ==> final(self)@ == (PasteboardView {
                next_tick: later(old(self)@.next_tick, POLL_INTERVAL),
                ..old(self)@
            }),
            !due ==> final(self)@ == old(self)@,
            final(self)@ == old(self)@.after_due(now),
    {
        if now < self.next_tick {
            return false;
        }
        self.next_tick = self.next_tick.saturating_add(POLL_INTERVAL);
        true
    }

    /// How long to sleep at `now`: until the next poll, but not for too long.
    pub fn sleep_for(&self, now: u64) -> (sleep: u64)
        ensures
            sleep == self@.sleep(now),
    {
        if now >= self.next_tick {
            return 0;
        }
        let wait: u64 = self.next_tick - now;
        if wait < MAX_SLEEP {
            wait
        } else {
            MAX_SLEEP
        }
    }

    /// Whether a pasteboard with these types, if it has any, was written by
    /// this instance.
    pub fn is_marked_by_us(&self, types: &Option<Vec<String>>) -> (marked: bool)
        ensures
            marked == is_marked(names_of(*types), self@.peer_id),
    {
        match types {
            Some(names) => {
                let marker: String = marker_type(self.peer_id.as_str());
                contains_text(names, marker.as_str())
            },
            None => false,
        }
    }

    /// Takes the polled change count. Returns whether the pasteboard has
    /// changed since it was last dealt with.
    fn on_change_count(&mut self, current: i64) -> (changed: bool)
        ensures
            changed == (current != old(self)@.last_seen),
            final(self)@ == (PasteboardView { last_seen: current, ..old(self)@ }),
    {
        if current == self.last_seen {
            return false;
        }
        self.last_seen = current;
        true
    }

    /// Takes the polled change count and returns the change to report, if any.
    ///
    /// The types on the pasteboard are read only where its count has changed,
    /// and its text only where it is not marked as ours.
    pub fn poll<F: FnOnce() -> Option<Vec<String>>, G: FnOnce() -> Option<String>>(
        &mut self,
        current: i64,
        read_types: F,
        read_text: G,
    ) -> (change: Option<ClipboardChange>)
        requires
            call_requires(read_types, ()),
            call_requires(read_text, ()),
        ensures
            final(self)@ == (PasteboardView { last_seen: current, ..old(self)@ }),
            current == old(self)@.last_seen ==> change is None,
            current != old(self)@.last_seen ==> reported(
                old(self)@.peer_id,
                read_types,
                read_text,
                change,
            ),
            final(self)@ == old(self)@.after_count(current),
            old(self)@.is_polled(current, read_types, read_text, change),
    {
        if !self.on_change_count(current) {
            return None;
        }
        let types: Option<Vec<String>> = read_types();
        if self.is_marked_by_us(&types) {
            return None;
        }
        let text: Option<String> = read_text();
        text_change(text)
    }
}

/// The change to report for the text of a pasteboard that is not ours.
fn text_change(text: Option<String>) -> (change: Option<ClipboardChange>)
    ensures
        reports(text, change),
{
    match text {
        Some(text) => {
            let data: Vec<u8> = slice_to_vec(text.as_str().as_bytes());
            Some(
                ClipboardChange::Content {
                    content: ClipboardContent { mime: MIME_TEXT_UTF8.to_owned(), data },
                    origin_hint: OriginHint::Local,
                },
            )
        },
        None => None,
    }
}

/// Marker types tell instances apart, so an instance never takes its own
/// writes for changes and always sees those of others.
pub proof fn law_only_own_writes_are_held_back(names: Seq<String>, writer: Seq<char>, reader: Seq<
    char,
>)
    requires
        crate::text::holds_text(names, marker_of(writer)),
        forall|i: int|
            #![trigger names[i]]
            0 <= i < names.len() && names[i]@ != marker_of(writer) ==> names[i]@ != marker_of(
                reader,
            ),
    ensures
        is_marked(Some(names), reader) <==> reader == writer,
{
    if reader != writer && marker_of(reader) == marker_of(writer) {
        assert(reader =~= marker_of(reader).skip(MARKER_PREFIX@.len() as int));
        assert(writer =~= marker_of(writer).skip(MARKER_PREFIX@.len() as int));
    }
}

/// Text that one machine puts on its pasteboard is reported by a reader with
/// the same bytes: nothing is lost between bytes and text.
pub proof fn law_text_survives_the_pasteboard(data: Seq<u8>)
    requires
        vstd::utf8::valid_utf8(data),
    ensures
        change_of(vstd::utf8::decode_utf8(data)) == (ChangeView::Content {
            content: ContentView { mime: MIME_TEXT_UTF8@, data },
            origin_hint: OriginHint::Local,
        }),
{
    vstd::utf8::decode_utf8_encode_utf8(data);
}

/// Polls keep their cadence: each is due one interval after the one before,
/// and a thread that sleeps as it is told never sleeps past one.
pub proof fn law_no_poll_is_slept_through(state: PasteboardView, now: u64)
    ensures
        !state.is_due(now) ==> 0 < state.sleep(now) <= MAX_SLEEP && now + state.sleep(now)
            <= state.next_tick,
        state.is_due(now) ==> state.sleep(now) == 0,
{
}

/// The marker of an instance is the prefix and its fingerprint, and a
/// pasteboard is marked exactly where that is among its types, whatever others
/// there are.
pub proof fn law_a_mark_is_found_among_all_types(names: Seq<String>, peer_id: Seq<char>)
    ensures
        is_marked(Some(names), peer_id) <==> exists|i: int|
            0 <= i < names.len() && (#[trigger] names[i])@ == "de.feschber.LanMouse.origin."@
                + peer_id,
        !is_marked(None, peer_id),
{
    assert(crate::text::holds_text(names, marker_of(peer_id)) <==> exists|i: int|
        0 <= i < names.len() && (#[trigger] names[i])@ == marker_of(peer_id));
}

/// A text is reported as UTF-8 text of a local application, with its own bytes:
/// different texts are reported differently.
pub proof fn law_a_text_is_reported_as_it_is(a: Seq<char>, b: Seq<char>)
    ensures
        change_of(a) is Content,
        change_of(a)->content.mime == "text/plain;charset=utf-8"@,
        change_of(a)->content.data == vstd::utf8::encode_utf8(a),
        change_of(a)->origin_hint == OriginHint::Local,
        change_of(a) == change_of(b) ==> a == b,
{
    vstd::utf8::encode_utf8_decode_utf8(a);
    vstd::utf8::encode_utf8_decode_utf8(b);
}

/// A changed pasteboard of another origin is reported with its text: where no
/// reading of the types finds our marker, and every reading of the text gives
/// `text`, the report is that of `text`.
pub proof fn law_foreign_text_is_reported<
    F: FnOnce() -> Option<Vec<String>>,
    G: FnOnce() -> Option<String>,
>(
    peer_id: Seq<char>,
    read_types: F,
    read_text: G,
    change: Option<ClipboardChange>,
    text: Seq<char>,
)
    requires
        reported(peer_id, read_types, read_text, change),
        forall|types: Option<Vec<String>>| #[trigger]
            call_ensures(read_types, (), types) ==> types is None || forall|i: int|
                0 <= i < types->0@.len() ==> (#[trigger] types->0@[i])@
                    != "de.feschber.LanMouse.origin."@ + peer_id,
        forall|read: Option<String>| #[trigger]
            call_ensures(read_text, (), read) ==> read is Some && read->0@ == text,
    ensures
        change is Some,
        change->0@ == (ChangeView::Content {
            content: ContentView {
                mime: "text/plain;charset=utf-8"@,
                data: vstd::utf8::encode_utf8(text),
            },
            origin_hint: OriginHint::Local,
        }),
{
}

/// A changed pasteboard that carries our own marker is never reported, and
/// neither is one without text.
pub proof fn law_own_and_textless_pasteboards_are_not_reported<
    F: FnOnce() -> Option<Vec<String>>,
    G: FnOnce() -> Option<String>,
>(peer_id: Seq<char>, read_types: F, read_text: G, change: Option<ClipboardChange>)
    requires
        reported(peer_id, read_types, read_text, change),
        (forall|types: Option<Vec<String>>| #[trigger]
            call_ensures(read_types, (), types) ==> types is Some && exists|i: int|
                0 <= i < types->0@.len() && (#[trigger] types->0@[i])@
                    == "de.feschber.LanMouse.origin."@ + peer_id) || (forall|
            read: Option<String>,
        | #[trigger] call_ensures(read_text, (), read) ==> read is None),
    ensures
        change is None,
{
}

/// Polls are due at their time and from then on, a poll is one interval after
/// the one before, and a sleep lasts until the next one or fifty milliseconds,
/// whichever is shorter.
pub proof fn law_when_to_poll(state: PasteboardView, now: u64)
    ensures
        state.is_due(now) <==> now >= state.next_tick,
        state.next_tick <= u64::MAX - 250_000_000 ==> later(state.next_tick, POLL_INTERVAL)
            == state.next_tick + 250_000_000,
        later(state.next_tick, POLL_INTERVAL) >= state.next_tick,
        now < state.next_tick ==> {
            let left = state.next_tick - now;
            state.sleep(now) == if left < 50_000_000 {
                left
            } else {
                50_000_000
            }
        },
{
}

/// What every text is written as: itself, so that its bytes are those that were
/// to be set, and beside it our marker. Bytes that are no text are not written,
/// and no others are left out.
pub proof fn law_every_text_is_written(
    state: PasteboardView,
    data: Seq<u8>,
    items: Option<PasteboardItems>,
)
    requires
        state.is_planned(data, items),
    ensures
        items is Some <==> vstd::utf8::valid_utf8(data),
        items is Some ==> {
            &&& vstd::utf8::encode_utf8(items->0.text@) == data
            &&& items->0.marker@ == "de.feschber.LanMouse.origin."@ + state.peer_id
            &&& items->0.marker_data@ == vstd::utf8::encode_utf8(state.peer_id)
        },
{
    if items is Some {
        vstd::utf8::decode_utf8_encode_utf8(data);
    }
}

/// A change is looked at once: a count that was dealt with, in a poll or after
/// a write of ours, reports nothing, and every other count is looked at.
/// Dealing with one changes nothing else, and asking whether to poll leaves the
/// count alone.
pub proof fn law_every_change_is_looked_at_once<
    F: FnOnce() -> Option<Vec<String>>,
    G: FnOnce() -> Option<String>,
>(
    state: PasteboardView,
    current: i64,
    read_types: F,
    read_text: G,
    change: Option<ClipboardChange>,
    now: u64,
)
    ensures
        state.after_count(current).is_polled(current, read_types, read_text, change)
            ==> change is None,
        current != state.last_seen && state.is_polled(current, read_types, read_text, change)
            ==> reported(state.peer_id, read_types, read_text, change),
        state.after_count(current).last_seen == current,
        state.after_count(current).peer_id == state.peer_id,
        state.after_count(current).next_tick == state.next_tick,
        state.after_due(now).last_seen == state.last_seen,
        state.after_due(now).peer_id == state.peer_id,
        now < state.next_tick ==> state.after_due(now) == state,
        now >= state.next_tick && state.next_tick <= u64::MAX - 250_000_000 ==> state.after_due(
            now,
        ).next_tick == state.next_tick + 250_000_000,
{
}

} // verus!
