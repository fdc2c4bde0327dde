//! The open peer connections and what is done about them on command.

use vstd::prelude::*;

use crate::peer_addr::{AddrSet, PeerAddr};
use crate::proto::CapMsg;
use crate::text;

verus! {

/// One open connection. `T` is the sending end of its outgoing queue.
#[derive(Debug)]
pub struct PeerHandle<T> {
    pub addr: PeerAddr,
    /// Where messages for this peer are put.
    pub link: T,
    /// Certificate fingerprint that the peer has proved and announced.
    pub fingerprint: String,
}

/// The mathematical value of a [`PeerHandle`], apart from its address.
#[verifier::ext_equal]
pub struct HandleView<T> {
    pub link: T,
    pub fingerprint: Seq<char>,
}

/// The open connections, at most one for each address, the addresses that are
/// being dialled, and those of them that are not wanted any more.
pub struct PeerTable<T> {
    peers: Vec<PeerHandle<T>>,
    dialing: AddrSet,
    cancelled: AddrSet,
}

/// The mathematical value of a [`PeerTable`].
#[verifier::ext_equal]
pub struct TableView<T> {
    pub peers: Map<PeerAddr, HandleView<T>>,
    pub dialing: Set<PeerAddr>,
    /// The dials under way whose connection is to be dropped at once.
    pub cancelled: Set<PeerAddr>,
}

/// What became of a connection that was to be listed.
#[derive(Debug, PartialEq, Eq)]
pub enum Registered<T> {
    /// It is listed.
    Listed,
    /// It is listed in place of an older one, whose link this is.
    Replaced(T),
    /// It is not wanted any more; this is its own link.
    Refused(T),
}

/// Commands that are accepted while connections are served.
#[derive(Debug)]
pub enum Command {
    /// Open an outbound connection to this peer (idempotent).
    Connect(PeerAddr),
    /// Drop any connection to this peer, also one that is being dialled
    /// (idempotent).
    Disconnect(PeerAddr),
    /// Rebind the listener to a new port.
    ChangePort { port: u16 },
    /// Send a message to every connected peer, skipping all connections whose
    /// peer fingerprint matches `except_fingerprint` (used when relaying, to
    /// avoid echoing back to the source: a peer pair may hold two connections,
    /// one initiated by each side, so exclusion is by fingerprint rather than
    /// address).
    Broadcast { msg: CapMsg, except_fingerprint: Option<String> },
}

/// What is to be done about a [`Command`].
#[derive(Debug)]
pub enum CommandAction<T> {
    /// Nothing.
    Skip,
    /// Dial this address.
    Dial(PeerAddr),
    /// Let go of this link. Its queue is then closed, which ends the
    /// connection.
    Drop(T),
    /// Listen on this port instead.
    Rebind(u16),
    /// Put the message on the link of each of these.
    Send { msg: CapMsg, to: Vec<PeerAddr> },
}

/// No two connections have the same address.
pub open spec fn distinct<T>(peers: Seq<PeerHandle<T>>) -> bool {
    forall|i: int, j: int|
        0 <= i < j < peers.len() ==> (#[trigger] peers[i]).addr != (#[trigger] peers[j]).addr
}

/// Some connection has address `addr`.
pub open spec fn listed<T>(peers: Seq<PeerHandle<T>>, addr: PeerAddr) -> bool {
    exists|i: int| 0 <= i < peers.len() && (#[trigger] peers[i]).addr == addr
}

/// The connections by address.
pub open spec fn by_addr<T>(peers: Seq<PeerHandle<T>>) -> Map<PeerAddr, HandleView<T>> {
    Map::new(
        |addr: PeerAddr| listed(peers, addr),
        |addr: PeerAddr|
            {
                let i = choose|i: int| 0 <= i < peers.len() && (#[trigger] peers[i]).addr == addr;
                HandleView { link: peers[i].link, fingerprint: peers[i].fingerprint@ }
            },
    )
}

proof fn lemma_by_addr<T>(peers: Seq<PeerHandle<T>>, i: int)
    requires
        distinct(peers),
        0 <= i < peers.len(),
    ensures
        by_addr(peers).contains_key(peers[i].addr),
        by_addr(peers)[peers[i].addr] == (HandleView {
            link: peers[i].link,
            fingerprint: peers[i].fingerprint@,
        }),
{
    let addr = peers[i].addr;
    assert(listed(peers, addr));
    let k = choose|k: int| 0 <= k < peers.len() && (#[trigger] peers[k]).addr == addr;
    assert(k == i) by {
        if k < i {
            assert(peers[k].addr != peers[i].addr);
        } else if i < k {
            assert(peers[i].addr != peers[k].addr);
        }
    }
}

proof fn lemma_by_addr_push<T>(peers: Seq<PeerHandle<T>>, handle: PeerHandle<T>)
    requires
        distinct(peers),
        !listed(peers, handle.addr),
    ensures
        distinct(peers.push(handle)),
        by_addr(peers.push(handle)) == by_addr(peers).insert(
            handle.addr,
            HandleView { link: handle.link, fingerprint: handle.fingerprint@ },
        ),
{
    let after = peers.push(handle);
    assert forall|i: int, j: int| 0 <= i < j < after.len() implies (#[trigger] after[i]).addr != (
    #[trigger] after[j]).addr by {
        if j == peers.len() {
            assert(peers[i].addr != handle.addr);
        } else {
            assert(peers[i].addr != peers[j].addr);
        }
    }
    let expected = by_addr(peers).insert(
        handle.addr,
        HandleView { link: handle.link, fingerprint: handle.fingerprint@ },
    );
    assert forall|addr: PeerAddr| #[trigger]
        by_addr(after).contains_key(addr) <==> expected.contains_key(addr) by {
        if listed(after, addr) {
            let i = choose|i: int| 0 <= i < after.len() && (#[trigger] after[i]).addr == addr;
            if i < peers.len() {
                assert(peers[i].addr == addr);
            }
        }
        if listed(peers, addr) {
            let i = choose|i: int| 0 <= i < peers.len() && (#[trigger] peers[i]).addr == addr;
            assert(after[i].addr == addr);
        }
        if addr == handle.addr {
            assert(after[peers.len() as int].addr == addr);
        }
    }
    assert forall|addr: PeerAddr| #[trigger] by_addr(after).contains_key(addr) implies by_addr(
        after,
    )[addr] == expected[addr] by {
        let i = choose|i: int| 0 <= i < after.len() && (#[trigger] after[i]).addr == addr;
        lemma_by_addr(after, i);
        if i < peers.len() {
            lemma_by_addr(peers, i);
            assert(after[i] == peers[i]);
        }
    }
    assert(by_addr(after) =~= expected);
}

proof fn lemma_by_addr_remove<T>(peers: Seq<PeerHandle<T>>, at: int)
    requires
        distinct(peers),
        0 <= at < peers.len(),
    ensures
        distinct(peers.remove(at)),
        by_addr(peers.remove(at)) == by_addr(peers).remove(peers[at].addr),
        !listed(peers.remove(at), peers[at].addr),
{
    let after = peers.remove(at);
    let gone = peers[at].addr;
    assert forall|i: int, j: int| 0 <= i < j < after.len() implies (#[trigger] after[i]).addr != (
    #[trigger] after[j]).addr by {
        let p = if i < at {
            i
        } else {
            i + 1
        };
        let q = if j < at {
            j
        } else {
            j + 1
        };
        assert(after[i] == peers[p] && after[j] == peers[q]);
    }
    assert forall|i: int| 0 <= i < after.len() implies (#[trigger] after[i]).addr != gone by {
        let p = if i < at {
            i
        } else {
            i + 1
        };
        assert(after[i] == peers[p]);
        if p < at {
            assert(peers[p].addr != peers[at].addr);
        } else {
            assert(peers[at].addr != peers[p].addr);
        }
    }
    let expected = by_addr(peers).remove(gone);
    assert forall|addr: PeerAddr| #[trigger]
        by_addr(after).contains_key(addr) <==> expected.contains_key(addr) by {
        if listed(after, addr) {
            let i = choose|i: int| 0 <= i < after.len() && (#[trigger] after[i]).addr == addr;
            let p = if i < at {
                i
            } else {
                i + 1
            };
            assert(after[i] == peers[p]);
            assert(listed(peers, addr));
        }
        if listed(peers, addr) && addr != gone {
            let p = choose|p: int| 0 <= p < peers.len() && (#[trigger] peers[p]).addr == addr;
            let i = if p < at {
                p
            } else {
                p - 1
            };
            assert(after[i] == peers[p]);
            assert(listed(after, addr));
        }
    }
    assert forall|addr: PeerAddr| #[trigger] by_addr(after).contains_key(addr) implies by_addr(
        after,
    )[addr] == expected[addr] by {
        let i = choose|i: int| 0 <= i < after.len() && (#[trigger] after[i]).addr == addr;
        let p = if i < at {
            i
        } else {
            i + 1
        };
        assert(after[i] == peers[p]);
        lemma_by_addr(after, i);
        lemma_by_addr(peers, p);
    }
    assert(by_addr(after) =~= expected);
}

impl<T> View for PeerTable<T> {
    type V = TableView<T>;

    closed spec fn view(&self) -> TableView<T> {
        TableView {
            peers: by_addr(self.peers@),
            dialing: self.dialing@,
            cancelled: self.cancelled@,
        }
    }
}

impl<T> TableView<T> {
    /// The connections that a broadcast reaches.
    pub open spec fn targets(self, except: Option<Seq<char>>) -> Set<PeerAddr> {
        Set::new(
            |addr: PeerAddr|
                self.peers.contains_key(addr) && Some(self.peers[addr].fingerprint) != except,
        )
    }

    /// Whether `addr` is connected or being dialled.
    pub open spec fn is_known(self, addr: PeerAddr) -> bool {
        self.peers.contains_key(addr) || self.dialing.contains(addr)
    }

    /// The table after a connection to `addr` was asked for. A dial that is
    /// under way is wanted again.
    pub open spec fn after_connect(self, addr: PeerAddr) -> TableView<T> {
        if self.peers.contains_key(addr) {
            self
        } else {
            TableView {
                dialing: self.dialing.insert(addr),
                cancelled: self.cancelled.remove(addr),
                ..self
            }
        }
    }

    /// The table after every connection to `addr` was dropped. A dial that is
    /// under way is not wanted any more.
    pub open spec fn after_disconnect(self, addr: PeerAddr) -> TableView<T> {
        TableView {
            peers: self.peers.remove(addr),
            cancelled: if self.dialing.contains(addr) {
                self.cancelled.insert(addr)
            } else {
                self.cancelled
            },
            ..self
        }
    }

    /// The table without a dial to `addr`.
    pub open spec fn without_dial(self, addr: PeerAddr) -> TableView<T> {
        TableView {
            dialing: self.dialing.remove(addr),
            cancelled: self.cancelled.remove(addr),
            ..self
        }
    }

    /// The table after the handshake with `addr` was completed.
    pub open spec fn after_register(self, addr: PeerAddr, handle: HandleView<T>) -> TableView<T> {
        if self.cancelled.contains(addr) {
            self.without_dial(addr)
        } else {
            TableView { peers: self.peers.insert(addr, handle), ..self.without_dial(addr) }
        }
    }

    /// What becomes of a connection to `addr` whose handshake was completed.
    pub open spec fn registered(self, addr: PeerAddr, link: T) -> Registered<T> {
        if self.cancelled.contains(addr) {
            Registered::Refused(link)
        } else if self.peers.contains_key(addr) {
            Registered::Replaced(self.peers[addr].link)
        } else {
            Registered::Listed
        }
    }

    /// The table after a connection of the peer `fingerprint` to `addr` has
    /// ended.
    pub open spec fn after_release(self, addr: PeerAddr, fingerprint: Seq<char>) -> TableView<T> {
        if self.peers.contains_key(addr) && self.peers[addr].fingerprint == fingerprint {
            TableView { peers: self.peers.remove(addr), ..self }
        } else {
            self
        }
    }

    /// The table after a command.
    pub open spec fn after(self, command: Command) -> TableView<T> {
        match command {
            Command::Connect(addr) => self.after_connect(addr),
            Command::Disconnect(addr) => self.after_disconnect(addr),
            Command::ChangePort { .. } | Command::Broadcast { .. } => self,
        }
    }

    /// `action` is what a command leads to.
    pub open spec fn answers(self, command: Command, action: CommandAction<T>) -> bool {
        match command {
            Command::Connect(addr) => action == if self.is_known(addr) {
                CommandAction::<T>::Skip
            } else {
                CommandAction::Dial(addr)
            },
            Command::Disconnect(addr) => action == if self.peers.contains_key(addr) {
                CommandAction::Drop(self.peers[addr].link)
            } else {
                CommandAction::<T>::Skip
            },
            Command::ChangePort { port } => action == CommandAction::<T>::Rebind(port),
            Command::Broadcast { msg, except_fingerprint } => {
                &&& action matches CommandAction::Send { msg: sent, to }
                &&& sent == msg
                &&& to@.no_duplicates()
                &&& to@.to_set() == self.targets(text::text_of(except_fingerprint))
            },
        }
    }
}

impl<T> PeerTable<T> {
    #[verifier::type_invariant]
    spec fn one_per_address(self) -> bool {
        distinct(self.peers@)
    }

    /// No connection, and none on the way.
    pub fn new() -> (table: PeerTable<T>)
        ensures
            table@ == (TableView::<T> {
                peers: Map::empty(),
                dialing: Set::empty(),
                cancelled: Set::empty(),
            }),
    {
        let table: PeerTable<T> = PeerTable {
            peers: Vec::new(),
            dialing: AddrSet::new(),
            cancelled: AddrSet::new(),
        };
        assert(by_addr(table.peers@) =~= Map::<PeerAddr, HandleView<T>>::empty());
        table
    }

    /// Where the connection to `addr` is listed.
    fn find(&self, addr: PeerAddr) -> (index: Option<usize>)
        ensures
            match index {
                Some(i) => i < self.peers@.len() && self.peers@[i as int].addr == addr,
                None => !listed(self.peers@, addr),
            },
    {
        let mut i: usize = 0;
        while i < self.peers.len()
            invariant
                i <= self.peers@.len(),
                forall|j: int| 0 <= j < i ==> (#[trigger] self.peers@[j]).addr != addr,
            decreases self.peers@.len() - i,
        {
            if self.peers[i].addr == addr {
                return Some(i);
            }
            i = i + 1;
        }
        None
    }

    /// The link of the connection to `addr`.
    pub fn link(&self, addr: PeerAddr) -> (link: Option<&T>)
        ensures
            match link {
                Some(l) => self@.peers.contains_key(addr) && *l == self@.peers[addr].link,
                None => !self@.peers.contains_key(addr),
            },
    {
        proof {
            use_type_invariant(self);
        }
        match self.find(addr) {
            Some(i) => {
                proof {
                    lemma_by_addr(self.peers@, i as int);
                }
                Some(&self.peers[i].link)
            },
            None => None,
        }
    }

    /// Notes whether the dial to `addr` is under way.
    fn set_dialing(&mut self, addr: PeerAddr, under_way: bool)
        ensures
            final(self)@ == (TableView {
                dialing: if under_way {
                    old(self)@.dialing.insert(addr)
                } else {
                    old(self)@.dialing.remove(addr)
                },
                ..old(self)@
            }),
    {
        proof {
            use_type_invariant(&*self);
        }
        let mut dialing: AddrSet = AddrSet::new();
        std::mem::swap(&mut dialing, &mut self.dialing);
        if under_way {
            dialing.insert(addr);
        } else {
            dialing.remove(addr);
        }
        self.dialing = dialing;
    }

    /// Notes whether the dial to `addr` is not wanted any more.
    fn set_cancelled(&mut self, addr: PeerAddr, unwanted: bool)
        ensures
            final(self)@ == (TableView {
                cancelled: if unwanted {
                    old(self)@.cancelled.insert(addr)
                } else {
                    old(self)@.cancelled.remove(addr)
                },
                ..old(self)@
            }),
    {
        proof {
            use_type_invariant(&*self);
        }
        let mut cancelled: AddrSet = AddrSet::new();
        std::mem::swap(&mut cancelled, &mut self.cancelled);
        if unwanted {
            cancelled.insert(addr);
        } else {
            cancelled.remove(addr);
        }
        self.cancelled = cancelled;
    }

    /// Notes that a connection to `addr` is wanted. Returns whether to dial,
    /// which is not so where `addr` is connected or being dialled already.
    pub fn start_dial(&mut self, addr: PeerAddr) -> (dial: bool)
        ensures
            dial == !old(self)@.is_known(addr),
            final(self)@ == old(self)@.after_connect(addr),
    {
        proof {
            use_type_invariant(&*self);
        }
        if let Some(i) = self.find(addr) {
            proof {
                lemma_by_addr(self.peers@, i as int);
            }
            return false;
        }
        let under_way: bool = self.dialing.contains(addr);
        self.set_dialing(addr, true);
        self.set_cancelled(addr, false);
        !under_way
    }

    /// Notes that dialling `addr` came to nothing.
    pub fn dial_failed(&mut self, addr: PeerAddr)
        ensures
            final(self)@ == old(self)@.without_dial(addr),
    {
        self.set_dialing(addr, false);
        self.set_cancelled(addr, false);
    }

    /// Takes the connection to `addr` out of the list.
    fn take(&mut self, addr: PeerAddr) -> (taken: Option<PeerHandle<T>>)
        ensures
            final(self)@ == (TableView { peers: old(self)@.peers.remove(addr), ..old(self)@ }),
            !listed(final(self).peers@, addr),
            match taken {
                Some(handle) => {
                    &&& old(self)@.peers.contains_key(addr)
                    &&& old(self)@.peers[addr] == (HandleView {
                        link: handle.link,
                        fingerprint: handle.fingerprint@,
                    })
                },
                None => !old(self)@.peers.contains_key(addr),
            },
    {
        proof {
            use_type_invariant(&*self);
        }
        match self.find(addr) {
            Some(i) => {
                let ghost before = self.peers@;
                proof {
                    lemma_by_addr(before, i as int);
                    lemma_by_addr_remove(before, i as int);
                }
                let mut peers: Vec<PeerHandle<T>> = Vec::new();
                std::mem::swap(&mut peers, &mut self.peers);
                let handle: PeerHandle<T> = peers.remove(i);
                self.peers = peers;
                Some(handle)
            },
            None => {
                assert(self@.peers.remove(addr) =~= self@.peers);
                None
            },
        }
    }

    /// Lists a connection whose handshake is complete. An older connection to
    /// the same address is replaced, and its link returned. Where the dial is
    /// not wanted any more, nothing is listed and the link is handed back.
    pub fn register(&mut self, addr: PeerAddr, link: T, fingerprint: String) -> (outcome:
        Registered<T>)
        ensures
            final(self)@ == old(self)@.after_register(
                addr,
                (HandleView { link, fingerprint: fingerprint@ }),
            ),
            outcome == old(self)@.registered(addr, link),
    {
        let unwanted: bool = self.cancelled.contains(addr);
        self.dial_failed(addr);
        if unwanted {
            return Registered::Refused(link);
        }
        let replaced: Option<PeerHandle<T>> = self.take(addr);
        proof {
            use_type_invariant(&*self);
            lemma_by_addr_push(self.peers@, PeerHandle { addr, link, fingerprint });
        }
        let mut peers: Vec<PeerHandle<T>> = Vec::new();
        std::mem::swap(&mut peers, &mut self.peers);
        peers.push(PeerHandle { addr, link, fingerprint });
        self.peers = peers;
        assert(self@.peers =~= old(self)@.peers.insert(
            addr,
            HandleView { link, fingerprint: fingerprint@ },
        ));
        match replaced {
            Some(handle) => Registered::Replaced(handle.link),
            None => Registered::Listed,
        }
    }

    /// Drops the connection to `addr`, if there is one, and returns its link.
    /// One that is being dialled will not be listed.
    pub fn disconnect(&mut self, addr: PeerAddr) -> (dropped: Option<T>)
        ensures
            final(self)@ == old(self)@.after_disconnect(addr),
            match dropped {
                Some(l) => old(self)@.peers.contains_key(addr) && l == old(self)@.peers[addr].link,
                None => !old(self)@.peers.contains_key(addr),
            },
    {
        if self.dialing.contains(addr) {
            self.set_cancelled(addr, true);
        }
        match self.take(addr) {
            Some(handle) => Some(handle.link),
            None => None,
        }
    }

    /// Takes a connection that has ended out of the list, unless the address
    /// now belongs to another peer.
    pub fn release(&mut self, addr: PeerAddr, fingerprint: &str)
        ensures
            final(self)@ == old(self)@.after_release(addr, fingerprint@),
            old(self)@.peers.contains_key(addr) && old(self)@.peers[addr].fingerprint
                == fingerprint@ ==> final(self)@ == (TableView {
                peers: old(self)@.peers.remove(addr),
                ..old(self)@
            }),
            !(old(self)@.peers.contains_key(addr) && old(self)@.peers[addr].fingerprint
                == fingerprint@) ==> final(self)@ == old(self)@,
    {
        proof {
            use_type_invariant(&*self);
        }
        if let Some(i) = self.find(addr) {
            proof {
                lemma_by_addr(self.peers@, i as int);
            }
            if text::text_equal(self.peers[i].fingerprint.as_str(), fingerprint) {
                let _ = self.take(addr);
            }
        }
    }

    /// The addresses of all connections but those whose peer fingerprint is
    /// `except`.
    pub fn broadcast_targets(&self, except: &Option<String>) -> (to: Vec<PeerAddr>)
        ensures
            to@.no_duplicates(),
            to@.to_set() == self@.targets(text::text_of(*except)),
    {
        proof {
            use_type_invariant(self);
        }
        let mut to: Vec<PeerAddr> = Vec::new();
        let mut i: usize = 0;
        while i < self.peers.len()
            invariant
                i <= self.peers@.len(),
                distinct(self.peers@),
                to@.no_duplicates(),
                forall|k: int|
                    0 <= k < to@.len() ==> exists|j: int|
                        0 <= j < i && (#[trigger] self.peers@[j]).addr == #[trigger] to@[k] && Some(
                            self.peers@[j].fingerprint@,
                        ) != text::text_of(*except),
                forall|j: int|
                    0 <= j < i && Some((#[trigger] self.peers@[j]).fingerprint@) != text::text_of(
                        *except,
                    ) ==> to@.contains(self.peers@[j].addr),
            decreases self.peers@.len() - i,
        {
            let skipped: bool = match except {
                Some(fingerprint) => self.peers[i].fingerprint == *fingerprint,
                None => false,
            };
            let ghost before = to@;
            if !skipped {
                let addr: PeerAddr = self.peers[i].addr;
                assert forall|k: int| 0 <= k < before.len() implies before[k] != addr by {
                    let j = choose|j: int|
                        0 <= j < i && (#[trigger] self.peers@[j]).addr == before[k] && Some(
                            self.peers@[j].fingerprint@,
                        ) != text::text_of(*except);
                    assert(self.peers@[j].addr != self.peers@[i as int].addr);
                }
                to.push(addr);
                assert(to@[before.len() as int] == addr);
                assert forall|a: PeerAddr| #[trigger] before.contains(a) implies to@.contains(
                    a,
                ) by {
                    let k = choose|k: int| 0 <= k < before.len() && before[k] == a;
                    assert(to@[k] == a);
                }
                assert forall|k: int| 0 <= k < to@.len() implies exists|j: int|
                    0 <= j < i + 1 && (#[trigger] self.peers@[j]).addr == #[trigger] to@[k] && Some(
                        self.peers@[j].fingerprint@,
                    ) != text::text_of(*except) by {
                    if k < before.len() {
                        assert(to@[k] == before[k]);
                    } else {
                        assert(self.peers@[i as int].addr == to@[k]);
                    }
                }
            }
            i = i + 1;
        }
        assert forall|addr: PeerAddr|
            to@.to_set().contains(addr) <==> self@.targets(text::text_of(*except)).contains(
                addr,
            ) by {
            if to@.contains(addr) {
                let k = choose|k: int| 0 <= k < to@.len() && to@[k] == addr;
                let j = choose|j: int|
                    0 <= j < i && (#[trigger] self.peers@[j]).addr == to@[k] && Some(
                        self.peers@[j].fingerprint@,
                    ) != text::text_of(*except);
                lemma_by_addr(self.peers@, j);
            }
            if self@.targets(text::text_of(*except)).contains(addr) {
                let j = choose|j: int|
                    0 <= j < self.peers@.len() && (#[trigger] self.peers@[j]).addr == addr;
                lemma_by_addr(self.peers@, j);
            }
        }
        assert(to@.to_set() =~= self@.targets(text::text_of(*except)));
        to
    }

    /// Decides what a command leads to.
    pub fn handle_command(&mut self, command: Command) -> (action: CommandAction<T>)
        ensures
            final(self)@ == old(self)@.after(command),
            old(self)@.answers(command, action),
    {
        match command {
            Command::Connect(addr) => if self.start_dial(addr) {
                CommandAction::Dial(addr)
            } else {
                CommandAction::Skip
            },
            Command::Disconnect(addr) => match self.disconnect(addr) {
                Some(link) => CommandAction::Drop(link),
                None => CommandAction::Skip,
            },
            Command::ChangePort { port } => CommandAction::Rebind(port),
            Command::Broadcast { msg, except_fingerprint } => {
                let to: Vec<PeerAddr> = self.broadcast_targets(&except_fingerprint);
                CommandAction::Send { msg, to }
            },
        }
    }
}

/// To ask for a connection again changes nothing and dials nobody, whether the
/// first attempt is still under way or has led to a connection.
pub proof fn law_connect_is_idempotent<T>(
    table: TableView<T>,
    addr: PeerAddr,
    handle: HandleView<T>,
    again: CommandAction<T>,
)
    ensures
        ({
            let dialed = table.after(Command::Connect(addr));
            &&& dialed.after(Command::Connect(addr)) == dialed
            &&& dialed.answers(Command::Connect(addr), again) ==> again == CommandAction::<T>::Skip
        }),
        ({
            let up = table.after(Command::Connect(addr)).after_register(addr, handle);
            &&& up.after(Command::Connect(addr)) == up
            &&& up.answers(Command::Connect(addr), again) ==> again == CommandAction::<T>::Skip
        }),
{
}

/// To drop a connection again changes nothing.
pub proof fn law_disconnect_is_idempotent<T>(
    table: TableView<T>,
    addr: PeerAddr,
    again: CommandAction<T>,
)
    ensures
        ({
            let dropped = table.after(Command::Disconnect(addr));
            &&& dropped.after(Command::Disconnect(addr)) == dropped
            &&& dropped.answers(Command::Disconnect(addr), again) ==> again == CommandAction::<
                T,
            >::Skip
        }),
{
    let dropped = table.after(Command::Disconnect(addr));
    assert(dropped.after(Command::Disconnect(addr)) =~= dropped);
}

/// A dial that was cancelled leads to no connection: what it brings is handed
/// back and not listed, whether or not `addr` was connected before.
pub proof fn law_a_cancelled_dial_is_refused<T>(
    table: TableView<T>,
    addr: PeerAddr,
    handle: HandleView<T>,
)
    requires
        table.dialing.contains(addr),
    ensures
        ({
            let dropped = table.after(Command::Disconnect(addr));
            let done = dropped.after_register(addr, handle);
            &&& dropped.registered(addr, handle.link) == Registered::Refused(handle.link)
            &&& !done.is_known(addr)
            &&& !done.cancelled.contains(addr)
        }),
{
}

/// A connection that is asked for again is wanted again: the dial under way is
/// listed when it is done, and no second one is started.
pub proof fn law_connect_lifts_a_cancellation<T>(
    table: TableView<T>,
    addr: PeerAddr,
    handle: HandleView<T>,
    again: CommandAction<T>,
)
    requires
        table.dialing.contains(addr),
    ensures
        ({
            let dropped = table.after(Command::Disconnect(addr));
            let wanted = dropped.after(Command::Connect(addr));
            let done = wanted.after_register(addr, handle);
            &&& dropped.answers(Command::Connect(addr), again) ==> again == CommandAction::<T>::Skip
            &&& wanted.registered(addr, handle.link) !is Refused
            &&& done.peers.contains_key(addr)
            &&& done.peers[addr] == handle
        }),
{
}

/// A broadcast reaches every connection; a relay reaches every connection
/// except all those of its source, which may hold two.
pub proof fn law_a_relay_spares_all_connections_of_its_source<T>(
    table: TableView<T>,
    source: Seq<char>,
    addr: PeerAddr,
)
    ensures
        table.targets(None).contains(addr) <==> table.peers.contains_key(addr),
        table.targets(Some(source)).contains(addr) <==> table.peers.contains_key(addr)
            && table.peers[addr].fingerprint != source,
{
}

} // verus!
