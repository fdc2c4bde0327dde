//! What the commands on the connections do, address by address.

use vstd::prelude::*;

use crate::peer_addr::PeerAddr;
use crate::peer_table::{Command, CommandAction, HandleView, PeerHandle, Registered, TableView};
use crate::proto::CapMsg;

verus! {

/// Two tables know the same of an address.
pub open spec fn agree<T>(a: TableView<T>, b: TableView<T>, addr: PeerAddr) -> bool {
    &&& a.peers.contains_key(addr) == b.peers.contains_key(addr)
    &&& a.peers.contains_key(addr) ==> a.peers[addr] == b.peers[addr]
    &&& a.dialing.contains(addr) == b.dialing.contains(addr)
    &&& a.cancelled.contains(addr) == b.cancelled.contains(addr)
}

/// The address that a command is about, if it is about one.
pub open spec fn subject(command: Command) -> Option<PeerAddr> {
    match command {
        Command::Connect(addr) => Some(addr),
        Command::Disconnect(addr) => Some(addr),
        _ => None,
    }
}

/// A command changes nothing about any address but its own.
pub proof fn law_commands_concern_one_address<T>(
    table: TableView<T>,
    command: Command,
    other: PeerAddr,
)
    requires
        subject(command) != Some(other),
    ensures
        agree(table.after(command), table, other),
{
}

/// What becomes of a connection changes nothing about any other address.
pub proof fn law_connections_concern_one_address<T>(
    table: TableView<T>,
    addr: PeerAddr,
    handle: HandleView<T>,
    other: PeerAddr,
)
    requires
        other != addr,
    ensures
        agree(table.after_register(addr, handle), table, other),
        agree(table.without_dial(addr), table, other),
{
}

/// Asking for a connection leads to a dial of that very address exactly where
/// it is neither connected nor being dialled, whatever other connections and
/// dials there are, and to nothing everywhere else. An address is noted as
/// being dialled only where a dial was started or is under way.
pub proof fn law_every_wanted_address_is_dialled<T>(
    table: TableView<T>,
    addr: PeerAddr,
    action: CommandAction<T>,
)
    requires
        table.answers(Command::Connect(addr), action),
    ensures
        ({
            let connected = table.peers.contains_key(addr);
            let dialing = table.dialing.contains(addr);
            let after = table.after(Command::Connect(addr));
            &&& !connected && !dialing ==> action == CommandAction::<T>::Dial(addr)
            &&& connected || dialing ==> action == CommandAction::<T>::Skip
            &&& after.dialing.contains(addr) && !dialing ==> action == CommandAction::<T>::Dial(
                addr,
            )
            &&& action == CommandAction::<T>::Dial(addr) ==> after.dialing.contains(addr)
            &&& dialing ==> after.dialing.contains(addr)
            &&& after.peers == table.peers
            &&& !connected ==> !after.cancelled.contains(addr)
            &&& connected ==> after == table
            &&& table.is_known(addr) <==> connected || dialing
        }),
{
}

/// Of two tables that know the same of an address, a connection to it is asked
/// for and dropped with the same answer and the same effect.
pub proof fn law_other_addresses_do_not_matter<T>(
    a: TableView<T>,
    b: TableView<T>,
    addr: PeerAddr,
    action: CommandAction<T>,
)
    requires
        agree(a, b, addr),
    ensures
        a.answers(Command::Connect(addr), action) == b.answers(Command::Connect(addr), action),
        a.answers(Command::Disconnect(addr), action) == b.answers(
            Command::Disconnect(addr),
            action,
        ),
        agree(a.after(Command::Connect(addr)), b.after(Command::Connect(addr)), addr),
        agree(a.after(Command::Disconnect(addr)), b.after(Command::Disconnect(addr)), addr),
{
}

/// Dropping hands out the link of that very connection, where there is one,
/// and afterwards there is none. A dial under way stays under way, and is not
/// wanted any more.
pub proof fn law_what_is_dropped_is_gone<T>(
    table: TableView<T>,
    addr: PeerAddr,
    action: CommandAction<T>,
)
    requires
        table.answers(Command::Disconnect(addr), action),
    ensures
        ({
            let after = table.after(Command::Disconnect(addr));
            &&& table.peers.contains_key(addr) ==> action == CommandAction::Drop(
                table.peers[addr].link,
            )
            &&& !table.peers.contains_key(addr) ==> action == CommandAction::<T>::Skip
            &&& !after.peers.contains_key(addr)
            &&& after.dialing == table.dialing
            &&& table.dialing.contains(addr) ==> after.cancelled.contains(addr)
            &&& !table.dialing.contains(addr) ==> after.cancelled.contains(addr)
                == table.cancelled.contains(addr)
        }),
{
}

/// A broadcast hands the very message to each connection once, but to none of
/// the peer to be spared, and changes nothing.
pub proof fn law_a_broadcast_reaches_exactly_its_targets<T>(
    table: TableView<T>,
    msg: CapMsg,
    except_fingerprint: Option<String>,
    action: CommandAction<T>,
    addr: PeerAddr,
)
    requires
        table.answers(Command::Broadcast { msg, except_fingerprint }, action),
    ensures
        ({
            let spared = except_fingerprint is Some && table.peers.contains_key(addr)
                && table.peers[addr].fingerprint == except_fingerprint->0@;
            &&& table.after(Command::Broadcast { msg, except_fingerprint }) == table
            &&& action is Send
            &&& action->msg == msg
            &&& action->to@.no_duplicates()
            &&& action->to@.contains(addr) <==> table.peers.contains_key(addr) && !spared
        }),
{
    assert(action->to@.to_set().contains(addr) == action->to@.contains(addr));
}

/// A change of port is passed on, and changes nothing.
pub proof fn law_a_port_change_is_passed_on<T>(
    table: TableView<T>,
    port: u16,
    action: CommandAction<T>,
)
    requires
        table.answers(Command::ChangePort { port }, action),
    ensures
        action == CommandAction::<T>::Rebind(port),
        table.after(Command::ChangePort { port }) == table,
{
}

/// A connection whose handshake is complete is listed with its own link and
/// fingerprint, unless its dial was cancelled; the link that it replaces is
/// handed out. Either way no dial is under way any more.
pub proof fn law_a_wanted_connection_is_listed<T>(
    table: TableView<T>,
    addr: PeerAddr,
    handle: HandleView<T>,
)
    ensures
        ({
            let after = table.after_register(addr, handle);
            let outcome = table.registered(addr, handle.link);
            &&& !after.dialing.contains(addr)
            &&& !after.cancelled.contains(addr)
            &&& table.cancelled.contains(addr) ==> {
                &&& outcome == Registered::Refused(handle.link)
                &&& after.peers == table.peers
            }
            &&& !table.cancelled.contains(addr) ==> {
                &&& after.peers.contains_key(addr)
                &&& after.peers[addr] == handle
                &&& outcome == if table.peers.contains_key(addr) {
                    Registered::Replaced(table.peers[addr].link)
                } else {
                    Registered::Listed
                }
            }
        }),
{
}

/// A dial that came to nothing is forgotten, and the connections stay.
pub proof fn law_a_failed_dial_is_forgotten<T>(table: TableView<T>, addr: PeerAddr)
    ensures
        ({
            let after = table.without_dial(addr);
            &&& after.peers == table.peers
            &&& !after.dialing.contains(addr)
            &&& !after.cancelled.contains(addr)
        }),
{
}

/// A connection that has ended is taken off the list where the address still
/// belongs to its peer, and nowhere else; nothing else changes.
pub proof fn law_only_the_ended_connection_is_released<T>(
    table: TableView<T>,
    addr: PeerAddr,
    fingerprint: Seq<char>,
    other: PeerAddr,
)
    ensures
        ({
            let after = table.after_release(addr, fingerprint);
            let ours = table.peers.contains_key(addr) && table.peers[addr].fingerprint
                == fingerprint;
            &&& after.dialing == table.dialing
            &&& after.cancelled == table.cancelled
            &&& ours ==> !after.peers.contains_key(addr)
            &&& !ours ==> after.peers == table.peers
            &&& other != addr ==> agree(after, table, other)
        }),
{
}

/// The first dial of an address leads to a connection, over which messages are
/// then sent, and which can be dropped: whatever else is connected.
pub proof fn law_from_connect_to_disconnect<T>(
    table: TableView<T>,
    addr: PeerAddr,
    handle: HandleView<T>,
    msg: CapMsg,
    broadcast: CommandAction<T>,
    dropped: CommandAction<T>,
)
    requires
        !table.peers.contains_key(addr),
    ensures
        ({
            let up = table.after(Command::Connect(addr)).after_register(addr, handle);
            let all = Command::Broadcast { msg, except_fingerprint: None };
            let down = up.after(Command::Disconnect(addr));
            &&& up.answers(all, broadcast) ==> broadcast is Send && broadcast->to@.contains(addr)
            &&& up.answers(Command::Disconnect(addr), dropped) ==> dropped == CommandAction::Drop(
                handle.link,
            )
            &&& down.answers(all, broadcast) ==> broadcast is Send && !broadcast->to@.contains(addr)
            &&& !down.peers.contains_key(addr) && !down.dialing.contains(addr)
        }),
{
    let up = table.after(Command::Connect(addr)).after_register(addr, handle);
    let all = Command::Broadcast { msg, except_fingerprint: None };
    let down = up.after(Command::Disconnect(addr));
    if up.answers(all, broadcast) {
        law_a_broadcast_reaches_exactly_its_targets(up, msg, None, broadcast, addr);
    }
    if down.answers(all, broadcast) {
        law_a_broadcast_reaches_exactly_its_targets(down, msg, None, broadcast, addr);
    }
}

/// Every listed connection is found by its address, with its own link and
/// fingerprint, and nothing else is.
pub proof fn law_listed_connections_are_found<T>(peers: Seq<PeerHandle<T>>, addr: PeerAddr)
    requires
        forall|i: int, j: int|
            0 <= i < j < peers.len() ==> (#[trigger] peers[i]).addr != (#[trigger] peers[j]).addr,
    ensures
        ({
            let map = crate::peer_table::by_addr(peers);
            &&& map.contains_key(addr) <==> exists|i: int|
                0 <= i < peers.len() && (#[trigger] peers[i]).addr == addr
            &&& forall|i: int|
                0 <= i < peers.len() && (#[trigger] peers[i]).addr == addr ==> map[addr].link
                    == peers[i].link && map[addr].fingerprint == peers[i].fingerprint@
        }),
{
    assert forall|i: int|
        0 <= i < peers.len() && (#[trigger] peers[i]).addr
            == addr implies crate::peer_table::by_addr(peers)[addr].link == peers[i].link
        && crate::peer_table::by_addr(peers)[addr].fingerprint == peers[i].fingerprint@ by {
        assert(crate::peer_table::listed(peers, addr));
        let k = choose|k: int| 0 <= k < peers.len() && (#[trigger] peers[k]).addr == addr;
        if k < i {
            assert(peers[k].addr != peers[i].addr);
        } else if i < k {
            assert(peers[i].addr != peers[k].addr);
        }
    }
}

} // verus!
