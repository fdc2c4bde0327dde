//! The list of connections and the commands on it.

use lan_mouse_clipboard::peer_addr::{AddrSet, PeerAddr};
use lan_mouse_clipboard::peer_table::{Command, CommandAction, PeerTable, Registered};
use lan_mouse_clipboard::CapMsg;

fn addr(port: u16) -> PeerAddr {
    PeerAddr::V4 {
        ip: 0x7f00_0001,
        port,
    }
}

fn msg() -> CapMsg {
    CapMsg::Clipboard {
        origin: "aa:aa".into(),
        serial: 1,
        mime: "text/plain".into(),
        data: b"x".to_vec(),
    }
}

fn sent_to(table: &mut PeerTable<u32>, except: Option<&str>) -> Vec<PeerAddr> {
    let command = Command::Broadcast {
        msg: msg(),
        except_fingerprint: except.map(|e| e.to_owned()),
    };
    match table.handle_command(command) {
        CommandAction::Send { msg: sent, to } => {
            assert_eq!(sent, msg());
            to
        }
        other => panic!("unexpected {other:?}"),
    }
}

#[test]
fn addr_set_holds_what_was_inserted() {
    let mut set = AddrSet::new();
    set.insert(addr(1));
    set.insert(addr(2));
    set.insert(addr(1));
    assert!(set.contains(addr(1)));
    set.remove(addr(1));
    assert!(!set.contains(addr(1)));
    assert!(set.contains(addr(2)));
    let v6 = PeerAddr::V6 {
        ip: 1,
        port: 2,
        flowinfo: 0,
        scope_id: 0,
    };
    assert!(!set.contains(v6));
}

#[test]
fn connect_dials_once() {
    let mut table: PeerTable<u32> = PeerTable::new();
    assert!(matches!(
        table.handle_command(Command::Connect(addr(1))),
        CommandAction::Dial(a) if a == addr(1)
    ));
    // Still under way.
    assert!(matches!(
        table.handle_command(Command::Connect(addr(1))),
        CommandAction::Skip
    ));
    // Up.
    assert_eq!(
        table.register(addr(1), 7, "bb:bb".into()),
        Registered::Listed
    );
    assert!(matches!(
        table.handle_command(Command::Connect(addr(1))),
        CommandAction::Skip
    ));
}

#[test]
fn failed_dials_can_be_repeated() {
    let mut table: PeerTable<u32> = PeerTable::new();
    assert!(table.start_dial(addr(1)));
    assert!(!table.start_dial(addr(1)));
    table.dial_failed(addr(1));
    assert!(table.start_dial(addr(1)));
}

#[test]
fn disconnect_hands_the_link_out_once() {
    let mut table: PeerTable<u32> = PeerTable::new();
    table.register(addr(1), 7, "bb:bb".into());
    assert!(matches!(
        table.handle_command(Command::Disconnect(addr(1))),
        CommandAction::Drop(7)
    ));
    assert!(matches!(
        table.handle_command(Command::Disconnect(addr(1))),
        CommandAction::Skip
    ));
    assert!(table.link(addr(1)).is_none());
}

#[test]
fn cancelled_dial_is_refused() {
    let mut table: PeerTable<u32> = PeerTable::new();
    assert!(table.start_dial(addr(1)));
    assert!(matches!(
        table.handle_command(Command::Disconnect(addr(1))),
        CommandAction::Skip
    ));
    assert_eq!(
        table.register(addr(1), 7, "bb:bb".into()),
        Registered::Refused(7)
    );
    assert_eq!(table.link(addr(1)), None);
    // Nothing is left of it: the next dial is a new one.
    assert!(table.start_dial(addr(1)));
    assert_eq!(
        table.register(addr(1), 8, "bb:bb".into()),
        Registered::Listed
    );
}

#[test]
fn connect_lifts_a_cancellation() {
    let mut table: PeerTable<u32> = PeerTable::new();
    assert!(table.start_dial(addr(1)));
    assert_eq!(table.disconnect(addr(1)), None);
    // The dial is still under way.
    assert!(matches!(
        table.handle_command(Command::Connect(addr(1))),
        CommandAction::Skip
    ));
    assert_eq!(
        table.register(addr(1), 7, "bb:bb".into()),
        Registered::Listed
    );
}

#[test]
fn cancelled_dial_that_fails_leaves_nothing() {
    let mut table: PeerTable<u32> = PeerTable::new();
    assert!(table.start_dial(addr(1)));
    assert_eq!(table.disconnect(addr(1)), None);
    table.dial_failed(addr(1));
    assert_eq!(
        table.register(addr(1), 7, "bb:bb".into()),
        Registered::Listed
    );
}

#[test]
fn newer_connection_replaces_the_older() {
    let mut table: PeerTable<u32> = PeerTable::new();
    assert_eq!(
        table.register(addr(1), 7, "bb:bb".into()),
        Registered::Listed
    );
    assert_eq!(
        table.register(addr(1), 8, "cc:cc".into()),
        Registered::Replaced(7)
    );
    assert_eq!(table.link(addr(1)), Some(&8));
}

#[test]
fn release_spares_other_peers() {
    let mut table: PeerTable<u32> = PeerTable::new();
    table.register(addr(1), 8, "cc:cc".into());
    table.release(addr(1), "bb:bb");
    assert_eq!(table.link(addr(1)), Some(&8));
    table.release(addr(2), "cc:cc");
    assert_eq!(table.link(addr(1)), Some(&8));
    table.release(addr(1), "cc:cc");
    assert_eq!(table.link(addr(1)), None);
}

#[test]
fn broadcast_reaches_everyone() {
    let mut table: PeerTable<u32> = PeerTable::new();
    assert!(sent_to(&mut table, None).is_empty());
    table.register(addr(1), 1, "bb:bb".into());
    table.register(addr(2), 2, "cc:cc".into());
    table.register(addr(3), 3, "bb:bb".into());
    let to = sent_to(&mut table, None);
    assert_eq!(to.len(), 3);
    for port in 1..=3 {
        assert!(to.contains(&addr(port)));
    }
}

#[test]
fn relay_spares_both_connections_of_its_source() {
    let mut table: PeerTable<u32> = PeerTable::new();
    table.register(addr(1), 1, "bb:bb".into());
    table.register(addr(2), 2, "cc:cc".into());
    table.register(addr(3), 3, "bb:bb".into());
    assert_eq!(sent_to(&mut table, Some("bb:bb")), vec![addr(2)]);
    assert_eq!(sent_to(&mut table, Some("dd:dd")).len(), 3);
}

#[test]
fn port_change_is_passed_on() {
    let mut table: PeerTable<u32> = PeerTable::new();
    assert!(matches!(
        table.handle_command(Command::ChangePort { port: 4243 }),
        CommandAction::Rebind(4243)
    ));
}
