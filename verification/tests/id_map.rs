use virtual_tcp::address::{to_ipv6, IpAddress};
use virtual_tcp::error::LayerError;
use virtual_tcp::id_map::IdMap;
use virtual_tcp::node::{NodeEntry, NodeId, SessionId};

fn entry(n: u8, session: u8, slot: u32) -> NodeEntry {
    NodeEntry { id: NodeId { inner: [n; 20] }, session: SessionId { id: [session; 16] }, slot }
}

#[test]
fn unknown_node_does_not_resolve() {
    let m = IdMap::new();
    assert_eq!(m.resolve_by_node(&NodeId { inner: [1; 20] }), Err(LayerError::UnknownNode));
    assert_eq!(m.resolve_by_ip(&[1; 16]), Err(LayerError::UnknownAddress));
}

#[test]
fn added_node_resolves_both_ways() {
    let mut m = IdMap::new();
    let e = entry(5, 1, 7);
    let row = m.add(e);
    assert_eq!(row.id, e.id);
    assert_eq!(row.endpoint.addr, IpAddress::Ipv6(to_ipv6(&e.id.inner)));
    assert_eq!(row.endpoint.port, 1);
    assert_eq!(m.resolve_by_node(&e.id), Ok(row));
    assert_eq!(m.resolve_by_ip(&[5; 16]), Ok(row));
    assert_eq!(m.resolve_by_ip(row.endpoint.addr.as_bytes()), Ok(row));
}

#[test]
fn both_directions_agree_after_adds_and_removes() {
    let mut m = IdMap::new();
    let entries = [entry(1, 1, 1), entry(2, 1, 2), entry(3, 2, 3), entry(4, 2, 4)];
    for e in entries {
        m.add(e);
    }
    m.remove(&entries[1].id);
    m.add(entry(3, 9, 9));
    m.remove(&entries[3].id);
    m.remove(&entries[3].id);
    for e in [entries[0], entry(3, 9, 9)] {
        let by_node = m.resolve_by_node(&e.id).unwrap();
        assert_eq!(by_node.id, e.id);
        let by_ip = m.resolve_by_ip(by_node.endpoint.addr.as_bytes()).unwrap();
        assert_eq!(by_ip, by_node);
    }
    for gone in [entries[1], entries[3]] {
        assert_eq!(m.resolve_by_node(&gone.id), Err(LayerError::UnknownNode));
        assert_eq!(
            m.resolve_by_ip(&to_ipv6(&gone.id.inner).octets),
            Err(LayerError::UnknownAddress)
        );
    }
}

#[test]
fn adding_twice_leaves_one_row() {
    let mut m = IdMap::new();
    let first = entry(8, 1, 7);
    let second = entry(8, 2, 9);
    m.add(first);
    let row = m.add(second);
    assert_eq!(row.session, second.session);
    assert_eq!(row.session_slot, 9);
    assert_eq!(m.resolve_by_node(&first.id), Ok(row));
    assert_eq!(m.resolve_by_ip(&[8; 16]), Ok(row));
    // One removal takes the peer out of both indices: there was one row.
    m.remove(&first.id);
    assert_eq!(m.resolve_by_node(&first.id), Err(LayerError::UnknownNode));
    assert_eq!(m.resolve_by_ip(&[8; 16]), Err(LayerError::UnknownAddress));
}

#[test]
fn adding_the_same_entry_twice_changes_nothing() {
    let mut once = IdMap::new();
    let mut twice = IdMap::new();
    let e = entry(8, 1, 7);
    let other = entry(9, 1, 8);
    once.add(other);
    once.add(e);
    twice.add(other);
    twice.add(e);
    twice.add(e);
    for id in [e.id, other.id] {
        assert_eq!(once.resolve_by_node(&id), twice.resolve_by_node(&id));
    }
}

#[test]
fn remove_of_unknown_is_a_no_op() {
    let mut m = IdMap::new();
    let e = entry(1, 1, 1);
    let row = m.add(e);
    m.remove(&NodeId { inner: [2; 20] });
    assert_eq!(m.resolve_by_node(&e.id), Ok(row));
}

#[test]
fn address_of_wrong_length_is_unknown() {
    let mut m = IdMap::new();
    m.add(entry(5, 1, 7));
    assert_eq!(m.resolve_by_ip(&[5; 4]), Err(LayerError::UnknownAddress));
    assert_eq!(m.resolve_by_ip(&[5; 15]), Err(LayerError::UnknownAddress));
    assert_eq!(m.resolve_by_ip(&[5; 17]), Err(LayerError::UnknownAddress));
    assert_eq!(m.resolve_by_ip(&[]), Err(LayerError::UnknownAddress));
}

#[test]
fn identifiers_that_share_an_address_share_a_row() {
    // The identifiers differ only past the sixteen bytes that the address
    // is derived from.
    let mut a = [6u8; 20];
    let mut b = [6u8; 20];
    a[17] = 1;
    b[17] = 2;
    let first = NodeEntry { id: NodeId { inner: a }, session: SessionId { id: [1; 16] }, slot: 1 };
    let second = NodeEntry { id: NodeId { inner: b }, session: SessionId { id: [2; 16] }, slot: 2 };
    let mut m = IdMap::new();
    m.add(first);
    let row = m.add(second);
    // The address now holds the second peer's row, for both identifiers.
    assert_eq!(m.resolve_by_ip(&[6; 16]), Ok(row));
    assert_eq!(m.resolve_by_node(&second.id), Ok(row));
    assert_eq!(m.resolve_by_node(&first.id), Ok(row));
    // Removing the first takes the shared row away.
    m.remove(&first.id);
    assert_eq!(m.resolve_by_node(&first.id), Err(LayerError::UnknownNode));
    assert_eq!(m.resolve_by_node(&second.id), Err(LayerError::UnknownNode));
    assert_eq!(m.resolve_by_ip(&[6; 16]), Err(LayerError::UnknownAddress));
}
