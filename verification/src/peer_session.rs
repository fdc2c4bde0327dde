//! One peer connection, from the end of its TLS handshake to its close.
//!
//! Both ends send `Hello` first and wait for the other's `Hello` before they
//! send anything else. After that a [`PeerSession`] lets clipboard messages
//! through in both directions until either side ends the connection.

use vstd::prelude::*;

use crate::clipboard_net::{
    accept_hello, local_hello, ClipboardNetError, ClipboardNetEvent, NetErrorView, NetEventView,
};
use crate::peer_addr::PeerAddr;
use crate::proto::{CapMsg, CapMsgView, FrameError, CAP_CLIPBOARD};
use crate::text::text_equal;

verus! {

/// How far a connection has come.
#[derive(Debug, Clone, Copy, PartialEq, Eq, Structural)]
pub enum Phase {
    /// The peer has not said `Hello` yet.
    AwaitingHello,
    /// The peer has been let in.
    Up { capabilities: u32 },
    /// The connection is over.
    Closed,
}

/// The state of one peer connection.
#[derive(Debug)]
pub struct PeerSession {
    addr: PeerAddr,
    tls_fingerprint: String,
    phase: Phase,
}

/// The mathematical value of a [`PeerSession`].
#[verifier::ext_equal]
pub struct SessionView {
    pub addr: PeerAddr,
    /// Fingerprint of the certificate that the peer has proved.
    pub tls_fingerprint: Seq<char>,
    pub phase: Phase,
}

/// Something that happened on a connection.
#[derive(Debug)]
pub enum SessionInput {
    /// A frame arrived.
    Frame(CapMsg),
    /// Nothing more can be read.
    ReadFailed(FrameError),
    /// The time for the peer's `Hello` is over.
    HelloTimedOut,
    /// A message for the peer is due.
    Outgoing(CapMsg),
    /// There will be no more messages for the peer: the connection has been
    /// dropped here.
    QueueClosed,
    /// A frame could not be written.
    WriteFailed(FrameError),
}

/// The mathematical value of a [`SessionInput`].
#[verifier::ext_equal]
pub enum InputView {
    Frame(CapMsgView),
    ReadFailed(FrameError),
    HelloTimedOut,
    Outgoing(CapMsgView),
    QueueClosed,
    WriteFailed(FrameError),
}

impl View for SessionInput {
    type V = InputView;

    open spec fn view(&self) -> InputView {
        match self {
            SessionInput::Frame(msg) => InputView::Frame(msg@),
            SessionInput::ReadFailed(e) => InputView::ReadFailed(*e),
            SessionInput::HelloTimedOut => InputView::HelloTimedOut,
            SessionInput::Outgoing(msg) => InputView::Outgoing(msg@),
            SessionInput::QueueClosed => InputView::QueueClosed,
            SessionInput::WriteFailed(e) => InputView::WriteFailed(*e),
        }
    }
}

/// Why a connection is closed after the peer was let in.
#[derive(Debug)]
pub enum CloseReason {
    /// The peer said `Hello` again.
    SecondHello,
    /// The peer sent a message under another name than its own.
    ForgedOrigin,
    /// Nothing more can be read.
    ReadFailed(FrameError),
    /// A frame could not be written.
    WriteFailed(FrameError),
    /// The connection has been dropped here.
    Dropped,
}

/// What is to be done about a [`SessionInput`].
#[derive(Debug)]
pub enum SessionAction {
    /// Nothing.
    Ignore,
    /// Close the connection; the peer was never let in.
    Fail(ClipboardNetError),
    /// List the connection and, unless it is refused there, report this event.
    Register(ClipboardNetEvent),
    /// Report this event.
    Deliver(ClipboardNetEvent),
    /// Write this message.
    Send(CapMsg),
    /// Close the connection, take it off the list, then report this event.
    Close(ClipboardNetEvent, CloseReason),
}

/// The mathematical value of a [`SessionAction`].
#[verifier::ext_equal]
pub enum ActionView {
    Ignore,
    Fail(NetErrorView),
    Register(NetEventView),
    Deliver(NetEventView),
    Send(CapMsgView),
    Close(NetEventView, CloseReason),
}

impl View for SessionAction {
    type V = ActionView;

    open spec fn view(&self) -> ActionView {
        match self {
            SessionAction::Ignore => ActionView::Ignore,
            SessionAction::Fail(e) => ActionView::Fail(e@),
            SessionAction::Register(event) => ActionView::Register(event@),
            SessionAction::Deliver(event) => ActionView::Deliver(event@),
            SessionAction::Send(msg) => ActionView::Send(msg@),
            SessionAction::Close(event, reason) => ActionView::Close(event@, *reason),
        }
    }
}

/// The peer takes part in clipboard sharing.
pub open spec fn shares_clipboard(capabilities: u32) -> bool {
    capabilities & CAP_CLIPBOARD != 0
}

impl SessionView {
    /// The report that the peer is there.
    pub open spec fn connected(self, capabilities: u32) -> NetEventView {
        NetEventView::PeerConnected {
            addr: self.addr,
            fingerprint: self.tls_fingerprint,
            capabilities,
        }
    }

    /// The report that the peer is gone.
    pub open spec fn disconnected(self) -> NetEventView {
        NetEventView::PeerDisconnected { addr: self.addr, fingerprint: self.tls_fingerprint }
    }

    /// The report of a message.
    pub open spec fn received(self, msg: CapMsgView) -> NetEventView {
        NetEventView::Message { addr: self.addr, fingerprint: self.tls_fingerprint, msg }
    }

    /// The end of the connection.
    pub open spec fn closing(self, reason: CloseReason) -> ActionView {
        ActionView::Close(self.disconnected(), reason)
    }

    /// What an input leads to.
    pub open spec fn action(self, input: InputView) -> ActionView {
        match self.phase {
            Phase::AwaitingHello => match input {
                InputView::Frame(msg) => match crate::clipboard_net::hello_result(
                    msg,
                    self.tls_fingerprint,
                ) {
                    Ok(capabilities) => ActionView::Register(self.connected(capabilities)),
                    Err(e) => ActionView::Fail(e),
                },
                InputView::ReadFailed(e) | InputView::WriteFailed(e) => ActionView::Fail(
                    crate::clipboard_net::net_error_of(e)@,
                ),
                InputView::HelloTimedOut => ActionView::Fail(NetErrorView::HelloTimeout),
                InputView::Outgoing(_) | InputView::QueueClosed => ActionView::Ignore,
            },
            Phase::Up { capabilities } => match input {
                InputView::Frame(CapMsgView::Hello { .. }) => self.closing(
                    CloseReason::SecondHello,
                ),
                InputView::Frame(msg) => if msg->origin != self.tls_fingerprint {
                    self.closing(CloseReason::ForgedOrigin)
                } else if !shares_clipboard(capabilities) {
                    ActionView::Ignore
                } else {
                    ActionView::Deliver(self.received(msg))
                },
                InputView::ReadFailed(e) => self.closing(CloseReason::ReadFailed(e)),
                InputView::WriteFailed(e) => self.closing(CloseReason::WriteFailed(e)),
                InputView::QueueClosed => self.closing(CloseReason::Dropped),
                InputView::HelloTimedOut => ActionView::Ignore,
                InputView::Outgoing(msg) => if msg is Clipboard && !shares_clipboard(
                    capabilities,
                ) {
                    ActionView::Ignore
                } else {
                    ActionView::Send(msg)
                },
            },
            Phase::Closed => ActionView::Ignore,
        }
    }

    /// The state after an input.
    pub open spec fn after(self, input: InputView) -> SessionView {
        match self.action(input) {
            ActionView::Register(event) => SessionView {
                phase: Phase::Up { capabilities: event->capabilities },
                ..self
            },
            ActionView::Fail(_) | ActionView::Close(..) => SessionView {
                phase: Phase::Closed,
                ..self
            },
            _ => self,
        }
    }
}

impl View for PeerSession {
    type V = SessionView;

    closed spec fn view(&self) -> SessionView {
        SessionView {
            addr: self.addr,
            tls_fingerprint: self.tls_fingerprint@,
            phase: self.phase,
        }
    }
}

impl PeerSession {
    /// A connection whose TLS handshake is complete, and the `Hello` to open
    /// it with.
    pub fn start(addr: PeerAddr, local_fingerprint: &str, tls_fingerprint: String) -> (started: (
        PeerSession,
        CapMsg,
    ))
        ensures
            started.0@ == (SessionView {
                addr,
                tls_fingerprint: tls_fingerprint@,
                phase: Phase::AwaitingHello,
            }),
            started.1@ == crate::clipboard_net::hello_of(local_fingerprint@),
    {
        let session: PeerSession = PeerSession {
            addr,
            tls_fingerprint,
            phase: Phase::AwaitingHello,
        };
        (session, local_hello(local_fingerprint))
    }

    /// How far the connection has come.
    pub fn phase(&self) -> (phase: Phase)
        ensures
            phase == self@.phase,
    {
        self.phase
    }

    /// The fingerprint of the certificate that the peer has proved.
    pub fn fingerprint(&self) -> (fingerprint: &str)
        ensures
            fingerprint@ == self@.tls_fingerprint,
    {
        self.tls_fingerprint.as_str()
    }

    fn close(&mut self, reason: CloseReason) -> (action: SessionAction)
        ensures
            final(self)@ == (SessionView { phase: Phase::Closed, ..old(self)@ }),
            action@ == old(self)@.closing(reason),
    {
        self.phase = Phase::Closed;
        SessionAction::Close(
            ClipboardNetEvent::PeerDisconnected {
                addr: self.addr,
                fingerprint: self.tls_fingerprint.clone(),
            },
            reason,
        )
    }

    fn fail(&mut self, error: ClipboardNetError) -> (action: SessionAction)
        ensures
            final(self)@ == (SessionView { phase: Phase::Closed, ..old(self)@ }),
            action@ == ActionView::Fail(error@),
    {
        self.phase = Phase::Closed;
        SessionAction::Fail(error)
    }

    fn first_frame(&mut self, frame: CapMsg) -> (action: SessionAction)
        requires
            old(self)@.phase == Phase::AwaitingHello,
        ensures
            final(self)@ == old(self)@.after(InputView::Frame(frame@)),
            action@ == old(self)@.action(InputView::Frame(frame@)),
    {
        match accept_hello(frame, self.tls_fingerprint.as_str()) {
            Ok(capabilities) => {
                self.phase = Phase::Up { capabilities };
                SessionAction::Register(
                    ClipboardNetEvent::PeerConnected {
                        addr: self.addr,
                        fingerprint: self.tls_fingerprint.clone(),
                        capabilities,
                    },
                )
            },
            Err(e) => self.fail(e),
        }
    }

    fn later_frame(&mut self, frame: CapMsg, capabilities: u32) -> (action: SessionAction)
        requires
            old(self)@.phase == (Phase::Up { capabilities }),
        ensures
            final(self)@ == old(self)@.after(InputView::Frame(frame@)),
            action@ == old(self)@.action(InputView::Frame(frame@)),
    {
        let own_name: bool = match &frame {
            CapMsg::Hello { .. } => return self.close(CloseReason::SecondHello),
            CapMsg::Clipboard { origin, .. } => text_equal(
                origin.as_str(),
                self.tls_fingerprint.as_str(),
            ),
        };
        if !own_name {
            return self.close(CloseReason::ForgedOrigin);
        }
        if capabilities & CAP_CLIPBOARD == 0 {
            return SessionAction::Ignore;
        }
        SessionAction::Deliver(
            ClipboardNetEvent::Message {
                addr: self.addr,
                fingerprint: self.tls_fingerprint.clone(),
                msg: frame,
            },
        )
    }

    /// Takes an input and says what is to be done about it.
    ///
    /// Before the peer's `Hello` every failure ends the connection with an
    /// error. Afterwards a second `Hello`, a message that claims another
    /// origin than the peer itself, a failed read or write, and the local end
    /// of the connection all close it. Clipboard messages to and from a peer
    /// without [`CAP_CLIPBOARD`] are left out.
    pub fn step(&mut self, input: SessionInput) -> (action: SessionAction)
        ensures
            final(self)@ == old(self)@.after(input@),
            action@ == old(self)@.action(input@),
    {
        match self.phase {
            Phase::AwaitingHello => match input {
                SessionInput::Frame(msg) => self.first_frame(msg),
                SessionInput::ReadFailed(e) => self.fail(ClipboardNetError::from(e)),
                SessionInput::WriteFailed(e) => self.fail(ClipboardNetError::from(e)),
                SessionInput::HelloTimedOut => self.fail(ClipboardNetError::HelloTimeout),
                SessionInput::Outgoing(_) => SessionAction::Ignore,
                SessionInput::QueueClosed => SessionAction::Ignore,
            },
            Phase::Up { capabilities } => match input {
                SessionInput::Frame(msg) => self.later_frame(msg, capabilities),
                SessionInput::ReadFailed(e) => self.close(CloseReason::ReadFailed(e)),
                SessionInput::WriteFailed(e) => self.close(CloseReason::WriteFailed(e)),
                SessionInput::QueueClosed => self.close(CloseReason::Dropped),
                SessionInput::HelloTimedOut => SessionAction::Ignore,
                SessionInput::Outgoing(msg) => {
                    let withheld: bool = match &msg {
                        CapMsg::Clipboard { .. } => capabilities & CAP_CLIPBOARD == 0,
                        CapMsg::Hello { .. } => false,
                    };
                    if withheld {
                        SessionAction::Ignore
                    } else {
                        SessionAction::Send(msg)
                    }
                },
            },
            Phase::Closed => SessionAction::Ignore,
        }
    }
}

/// The event that an action reports.
pub open spec fn reported(action: ActionView) -> Seq<NetEventView> {
    match action {
        ActionView::Register(event)
        | ActionView::Deliver(event)
        | ActionView::Close(event, _) => seq![event],
        _ => Seq::empty(),
    }
}

/// The state after several inputs.
pub open spec fn after_all(session: SessionView, inputs: Seq<InputView>) -> SessionView
    decreases inputs.len(),
{
    if inputs.len() == 0 {
        session
    } else {
        after_all(session, inputs.drop_last()).after(inputs.last())
    }
}

/// The events that several inputs lead to, in order.
pub open spec fn events_of(session: SessionView, inputs: Seq<InputView>) -> Seq<NetEventView>
    decreases inputs.len(),
{
    if inputs.len() == 0 {
        Seq::empty()
    } else {
        events_of(session, inputs.drop_last()) + reported(
            after_all(session, inputs.drop_last()).action(inputs.last()),
        )
    }
}

/// A connection that has not heard from its peer.
pub open spec fn fresh(addr: PeerAddr, tls_fingerprint: Seq<char>) -> SessionView {
    SessionView { addr, tls_fingerprint, phase: Phase::AwaitingHello }
}

/// Whatever happens on a connection, its reports are well ordered: the peer
/// connects before anything else is reported, it connects once, and nothing
/// follows the report that it is gone. Exactly where the connection has ended
/// after the peer was let in, the last report says so.
pub proof fn law_reports_are_well_ordered(
    addr: PeerAddr,
    tls_fingerprint: Seq<char>,
    inputs: Seq<InputView>,
)
    ensures
        ({
            let events = events_of(fresh(addr, tls_fingerprint), inputs);
            let last = after_all(fresh(addr, tls_fingerprint), inputs);
            &&& forall|i: int|
                0 <= i < events.len() ==> ((#[trigger] events[i]) is PeerConnected <==> i == 0)
            &&& forall|i: int|
                0 <= i < events.len() - 1 ==> (#[trigger] events[i]) !is PeerDisconnected
            &&& last.phase is AwaitingHello ==> events.len() == 0
            &&& last.phase is Up ==> events.len() > 0 && events.last() !is PeerDisconnected
            &&& last.phase is Closed && events.len() > 0 ==> events.last() is PeerDisconnected
        }),
    decreases inputs.len(),
{
    if inputs.len() > 0 {
        law_reports_are_well_ordered(addr, tls_fingerprint, inputs.drop_last());
    }
}

/// A report of a connection to `addr` whose peer has proved `tls_fingerprint`:
/// it names both, and a message in it was received from that peer under its own
/// name, after `first` has told that the peer shares its clipboard.
pub open spec fn is_true_report(
    event: NetEventView,
    first: NetEventView,
    addr: PeerAddr,
    tls_fingerprint: Seq<char>,
    inputs: Seq<InputView>,
) -> bool {
    match event {
        NetEventView::PeerConnected { addr: a, fingerprint, .. } => a == addr && fingerprint
            == tls_fingerprint,
        NetEventView::PeerDisconnected { addr: a, fingerprint } => a == addr && fingerprint
            == tls_fingerprint,
        NetEventView::Message { addr: a, fingerprint, msg } => {
            &&& a == addr
            &&& fingerprint == tls_fingerprint
            &&& msg is Clipboard
            &&& msg->origin == tls_fingerprint
            &&& inputs.contains(InputView::Frame(msg))
            &&& tells_of_sharing(first)
        },
    }
}

/// The report that a peer is there which shares its clipboard.
pub open spec fn tells_of_sharing(event: NetEventView) -> bool {
    event is PeerConnected && shares_clipboard(event->capabilities)
}

/// Every report of a connection names its address and the fingerprint that its
/// peer has proved, and every reported message was sent by that peer under its
/// own name, after it was reported as one that shares its clipboard.
pub proof fn law_reports_name_the_proved_peer(
    addr: PeerAddr,
    tls_fingerprint: Seq<char>,
    inputs: Seq<InputView>,
)
    ensures
        ({
            let events = events_of(fresh(addr, tls_fingerprint), inputs);
            let last = after_all(fresh(addr, tls_fingerprint), inputs);
            &&& last.addr == addr
            &&& last.tls_fingerprint == tls_fingerprint
            &&& last.phase matches Phase::Up { capabilities } ==> events.len() > 0 && events[0]
                == last.connected(capabilities)
            &&& forall|i: int|
                0 <= i < events.len() ==> is_true_report(
                    #[trigger] events[i],
                    events[0],
                    addr,
                    tls_fingerprint,
                    inputs,
                )
        }),
    decreases inputs.len(),
{
    if inputs.len() > 0 {
        let before = inputs.drop_last();
        law_reports_name_the_proved_peer(addr, tls_fingerprint, before);
        law_reports_are_well_ordered(addr, tls_fingerprint, before);
        assert forall|input: InputView| #[trigger] before.contains(input) implies inputs.contains(
            input,
        ) by {
            let k = choose|k: int| 0 <= k < before.len() && before[k] == input;
            assert(inputs[k] == input);
        }
        assert(inputs.contains(inputs.last()));
        let earlier = events_of(fresh(addr, tls_fingerprint), before);
        let all = events_of(fresh(addr, tls_fingerprint), inputs);
        assert forall|i: int| 0 <= i < all.len() implies is_true_report(
            #[trigger] all[i],
            all[0],
            addr,
            tls_fingerprint,
            inputs,
        ) by {
            if i < earlier.len() {
                assert(is_true_report(earlier[i], earlier[0], addr, tls_fingerprint, before));
            }
        }
    }
}

/// In the whole life of a connection no clipboard message is sent or reported
/// unless the peer has been reported as one that shares its clipboard.
pub proof fn law_clipboard_traffic_needs_a_sharing_peer(
    addr: PeerAddr,
    tls_fingerprint: Seq<char>,
    inputs: Seq<InputView>,
    next: InputView,
)
    ensures
        ({
            let events = events_of(fresh(addr, tls_fingerprint), inputs);
            let action = after_all(fresh(addr, tls_fingerprint), inputs).action(next);
            action is Deliver || (action matches ActionView::Send(msg) && msg is Clipboard)
                ==> events.len() > 0 && tells_of_sharing(events[0])
        }),
{
    law_reports_name_the_proved_peer(addr, tls_fingerprint, inputs);
}

/// Nothing but the opening `Hello` is sent, and nothing is taken from the
/// peer, before the peer's own `Hello` has been accepted.
pub proof fn law_hello_comes_first(session: SessionView, input: InputView)
    requires
        session.phase is AwaitingHello,
    ensures
        session.action(input) !is Send,
        session.action(input) !is Deliver,
        session.after(input).phase is Up ==> {
            &&& input is Frame
            &&& input->Frame_0 is Hello
            &&& input->Frame_0->peer_id == session.tls_fingerprint
            &&& input->Frame_0->protocol_version == crate::proto::PROTOCOL_VERSION
        },
{
}

/// A peer that does not share its clipboard is neither sent clipboard messages
/// nor listened to, and the connection stays up.
pub proof fn law_no_clipboard_traffic_without_the_capability(
    session: SessionView,
    capabilities: u32,
    msg: CapMsgView,
)
    requires
        session.phase == (Phase::Up { capabilities }),
        !shares_clipboard(capabilities),
        msg is Clipboard,
    ensures
        session.action(InputView::Outgoing(msg)) == ActionView::Ignore,
        session.after(InputView::Outgoing(msg)) == session,
        session.action(InputView::Frame(msg)) !is Deliver,
        msg->origin == session.tls_fingerprint ==> {
            &&& session.action(InputView::Frame(msg)) == ActionView::Ignore
            &&& session.after(InputView::Frame(msg)) == session
        },
{
}

/// A message that claims another origin than the peer that sent it is not
/// reported, and ends the connection, whatever the peer shares.
pub proof fn law_a_forged_origin_ends_the_connection(session: SessionView, msg: CapMsgView)
    requires
        session.phase is Up,
        msg is Clipboard,
        msg->origin != session.tls_fingerprint,
    ensures
        session.action(InputView::Frame(msg)) == session.closing(CloseReason::ForgedOrigin),
        session.after(InputView::Frame(msg)).phase is Closed,
{
}

/// What this peer opens a connection with is accepted by every peer that knows
/// it under the same fingerprint, and lets it share its clipboard.
pub proof fn law_the_local_hello_is_accepted(session: SessionView)
    requires
        session.phase is AwaitingHello,
    ensures
        session.action(
            InputView::Frame(crate::clipboard_net::hello_of(session.tls_fingerprint)),
        ) == ActionView::Register(session.connected(CAP_CLIPBOARD)),
        shares_clipboard(CAP_CLIPBOARD),
{
    assert(1u32 & 1u32 != 0) by (bit_vector);
}

} // verus!
