//! Addresses of peer connections, and sets of them.

use vstd::prelude::*;

verus! {

/// The remote end of a connection: an IP address in host byte order, and a
/// port.
#[derive(Debug, Clone, Copy, PartialEq, Eq, Structural)]
pub enum PeerAddr {
    V4 { ip: u32, port: u16 },
    V6 { ip: u128, port: u16, flowinfo: u32, scope_id: u32 },
}

/// A set of addresses.
#[derive(Debug)]
pub struct AddrSet {
    addrs: Vec<PeerAddr>,
}

impl View for AddrSet {
    type V = Set<PeerAddr>;

    closed spec fn view(&self) -> Set<PeerAddr> {
        self.addrs@.to_set()
    }
}

impl AddrSet {
    pub fn new() -> (set: AddrSet)
        ensures
            set@ == Set::<PeerAddr>::empty(),
    {
        let set: AddrSet = AddrSet { addrs: Vec::new() };
        assert(set@ =~= Set::<PeerAddr>::empty());
        set
    }

    pub fn contains(&self, addr: PeerAddr) -> (found: bool)
        ensures
            found == self@.contains(addr),
    {
        let mut i: usize = 0;
        while i < self.addrs.len()
            invariant
                i <= self.addrs@.len(),
                forall|j: int| 0 <= j < i ==> self.addrs@[j] != addr,
            decreases self.addrs@.len() - i,
        {
            if self.addrs[i] == addr {
                return true;
            }
            i = i + 1;
        }
        false
    }

    pub fn insert(&mut self, addr: PeerAddr)
        ensures
            final(self)@ == old(self)@.insert(addr),
    {
        let ghost before = self.addrs@;
        if !self.contains(addr) {
            self.addrs.push(addr);
            assert(self.addrs@[before.len() as int] == addr);
            assert forall|a: PeerAddr| #[trigger] before.contains(a) implies self.addrs@.contains(
                a,
            ) by {
                let j = choose|j: int| 0 <= j < before.len() && before[j] == a;
                assert(self.addrs@[j] == a);
            }
        }
        assert(self@ =~= before.to_set().insert(addr));
    }

    pub fn remove(&mut self, addr: PeerAddr)
        ensures
            final(self)@ == old(self)@.remove(addr),
    {
        let mut kept: Vec<PeerAddr> = Vec::new();
        let mut i: usize = 0;
        while i < self.addrs.len()
            invariant
                i <= self.addrs@.len(),
                forall|a: PeerAddr| #[trigger]
                    kept@.contains(a) <==> a != addr && self.addrs@.take(i as int).contains(a),
            decreases self.addrs@.len() - i,
        {
            let next: PeerAddr = self.addrs[i];
            let ghost kept_before = kept@;
            let ghost done = self.addrs@.take(i as int);
            assert(self.addrs@.take(i + 1) =~= done.push(next));
            assert forall|a: PeerAddr| #[trigger]
                done.push(next).contains(a) <==> done.contains(a) || a == next by {
                vstd::seq_lib::lemma_seq_contains_after_push(done, next, a);
            }
            if next != addr {
                kept.push(next);
                assert forall|a: PeerAddr| #[trigger]
                    kept@.contains(a) <==> kept_before.contains(a) || a == next by {
                    vstd::seq_lib::lemma_seq_contains_after_push(kept_before, next, a);
                }
            }
            i = i + 1;
        }
        assert(self.addrs@.take(i as int) =~= self.addrs@);
        self.addrs = kept;
        assert(self@ =~= old(self)@.remove(addr));
    }
}

} // verus!
