use virtual_tcp::address::{to_ipv6, IpAddress, IpEndpoint};
use virtual_tcp::error::LayerError;
use virtual_tcp::node::{NodeEntry, NodeId, SessionId};
use virtual_tcp::virtual_layer::{
    EgressEvent, Forward, Forwarded, Ingress, IngressEvent, Protocol, Received, SocketDesc,
    SocketEndpoint, TcpLayer, VirtNode,
};

const A: [u8; 20] = [0xa1; 20];
const B: [u8; 20] = [0xb2; 20];

fn entry(id: [u8; 20], session: u8, slot: u32) -> NodeEntry {
    NodeEntry { id: NodeId { inner: id }, session: SessionId { id: [session; 16] }, slot }
}

fn endpoint_of(id: [u8; 20]) -> IpEndpoint {
    IpEndpoint { addr: IpAddress::Ipv6(to_ipv6(&id)), port: 1 }
}

fn tcp_packet(from: [u8; 20], to: [u8; 20], payload: Vec<u8>) -> IngressEvent {
    IngressEvent::Packet {
        desc: SocketDesc {
            protocol: Protocol::Tcp,
            local: SocketEndpoint::Ip(endpoint_of(to)),
            remote: SocketEndpoint::Ip(endpoint_of(from)),
        },
        payload,
    }
}

#[test]
fn two_peer_echo() {
    let mut a: TcpLayer<u32> = TcpLayer::new(&A);
    let mut b: TcpLayer<u32> = TcpLayer::new(&B);
    assert_eq!(a.spawn(NodeId { inner: A }), endpoint_of(A));
    assert_eq!(b.spawn(NodeId { inner: B }), endpoint_of(B));

    // A connects to B.
    let row = a.connect(entry(B, 1, 3)).unwrap();
    assert_eq!(row.endpoint, endpoint_of(B));
    let dialled: Result<u8, ()> = Ok(17);
    assert_eq!(a.connected(row.id, dialled, 100), Ok(17));

    // A's engine emits a frame for B; it leaves through B's session.
    let frame = vec![0xee; 60];
    let (to, forward) = a
        .egress_router(EgressEvent { remote: to_ipv6(&B).octets.to_vec(), payload: frame.clone() })
        .unwrap();
    assert_eq!(to, row);
    assert_eq!(
        forward,
        Forward { session_id: SessionId { id: [1; 16] }, slot: 3, payload: frame.clone() }
    );

    // B gets the frame from A, whom it did not know.
    let received = b.receive(entry(A, 2, 4), forward.payload);
    assert_eq!(received, Received { registered: true, frame });
    assert_eq!(b.resolve_node(NodeId { inner: A }).unwrap().session_slot, 4);

    // B's engine reports the payload; it goes to B's application as A's.
    assert_eq!(
        b.ingress_router(tcp_packet(A, B, vec![0x01])),
        Ingress::Deliver(Forwarded {
            reliable: true,
            node_id: NodeId { inner: A },
            payload: vec![0x01]
        })
    );

    // And back: B answers over the row that the first frame registered.
    let (to, forward) = b
        .egress_router(EgressEvent { remote: to_ipv6(&A).octets.to_vec(), payload: vec![9] })
        .unwrap();
    assert_eq!(to.id, NodeId { inner: A });
    assert_eq!(
        forward,
        Forward { session_id: SessionId { id: [2; 16] }, slot: 4, payload: vec![9] }
    );
    let received = a.receive(entry(B, 1, 3), vec![9]);
    assert!(!received.registered);
    assert_eq!(
        a.ingress_router(tcp_packet(B, A, vec![0x02])),
        Ingress::Deliver(Forwarded {
            reliable: true,
            node_id: NodeId { inner: B },
            payload: vec![0x02]
        })
    );
}

#[test]
fn unknown_node_drop() {
    let mut layer: TcpLayer<u32> = TcpLayer::new(&A);
    let _ = layer.add_virt_node(entry(B, 1, 1));
    let stranger = [0x33; 20];
    assert_eq!(
        layer.ingress_router(tcp_packet(stranger, A, vec![1, 2, 3])),
        Ingress::UnknownAddress
    );
}

#[test]
fn ingress_after_removal_is_dropped() {
    let mut layer: TcpLayer<u32> = TcpLayer::new(&A);
    let _ = layer.add_virt_node(entry(B, 1, 1));
    assert!(matches!(layer.ingress_router(tcp_packet(B, A, vec![1])), Ingress::Deliver(_)));
    layer.remove_node(NodeId { inner: B });
    assert_eq!(layer.ingress_router(tcp_packet(B, A, vec![1])), Ingress::UnknownAddress);
}

#[test]
fn ingress_connection_events_deliver_nothing() {
    let mut layer: TcpLayer<u32> = TcpLayer::new(&A);
    let _ = layer.add_virt_node(entry(B, 1, 1));
    let desc = SocketDesc {
        protocol: Protocol::Tcp,
        local: SocketEndpoint::Ip(endpoint_of(A)),
        remote: SocketEndpoint::Ip(endpoint_of(B)),
    };
    assert_eq!(
        layer.ingress_router(IngressEvent::InboundConnection { desc }),
        Ingress::InboundConnection
    );
    assert_eq!(layer.ingress_router(IngressEvent::Disconnected { desc }), Ingress::Disconnected);
    // A disconnect event tears nothing down.
    assert!(layer.resolve_node(NodeId { inner: B }).is_ok());
}

#[test]
fn ingress_drops_what_is_not_tcp() {
    let mut layer: TcpLayer<u32> = TcpLayer::new(&A);
    let _ = layer.add_virt_node(entry(B, 1, 1));
    for protocol in [Protocol::Udp, Protocol::Icmp, Protocol::Ipv6Icmp] {
        let event = IngressEvent::Packet {
            desc: SocketDesc {
                protocol,
                local: SocketEndpoint::Ip(endpoint_of(A)),
                remote: SocketEndpoint::Ip(endpoint_of(B)),
            },
            payload: vec![1],
        };
        assert_eq!(layer.ingress_router(event), Ingress::NotTcp);
    }
}

#[test]
fn ingress_drops_remote_without_address() {
    let mut layer: TcpLayer<u32> = TcpLayer::new(&A);
    let _ = layer.add_virt_node(entry(B, 1, 1));
    for remote in [SocketEndpoint::Icmp, SocketEndpoint::Other] {
        let event = IngressEvent::Packet {
            desc: SocketDesc {
                protocol: Protocol::Tcp,
                local: SocketEndpoint::Ip(endpoint_of(A)),
                remote,
            },
            payload: vec![1],
        };
        assert_eq!(layer.ingress_router(event), Ingress::UnsupportedEndpoint);
    }
}

#[test]
fn ingress_drops_addresses_of_other_families() {
    let mut layer: TcpLayer<u32> = TcpLayer::new(&A);
    let _ = layer.add_virt_node(entry(B, 1, 1));
    for addr in [IpAddress::Unspecified, IpAddress::Ipv4([0xb2; 4])] {
        let event = IngressEvent::Packet {
            desc: SocketDesc {
                protocol: Protocol::Tcp,
                local: SocketEndpoint::Ip(endpoint_of(A)),
                remote: SocketEndpoint::Ip(IpEndpoint { addr, port: 1 }),
            },
            payload: vec![1],
        };
        assert_eq!(layer.ingress_router(event), Ingress::UnknownAddress);
    }
}

#[test]
fn ingress_keeps_the_order_of_packets() {
    let mut layer: TcpLayer<u32> = TcpLayer::new(&A);
    let _ = layer.add_virt_node(entry(B, 1, 1));
    let mut delivered = Vec::new();
    for n in 0..5u8 {
        if let Ingress::Deliver(f) = layer.ingress_router(tcp_packet(B, A, vec![n])) {
            delivered.push(f.payload[0]);
        }
    }
    assert_eq!(delivered, vec![0, 1, 2, 3, 4]);
}

#[test]
fn egress_to_unknown_address_is_dropped() {
    let mut layer: TcpLayer<u32> = TcpLayer::new(&A);
    let _ = layer.add_virt_node(entry(B, 1, 1));
    let event = EgressEvent { remote: vec![0x44; 16], payload: vec![1] };
    assert_eq!(layer.egress_router(event), Err(LayerError::UnknownAddress));
    let event = EgressEvent { remote: vec![0xb2; 4], payload: vec![1] };
    assert_eq!(layer.egress_router(event), Err(LayerError::UnknownAddress));
    // The peer is still there.
    assert!(layer.resolve_node(NodeId { inner: B }).is_ok());
}

#[test]
fn readd_replaces_session() {
    let mut layer: TcpLayer<u32> = TcpLayer::new(&A);
    let n = NodeId { inner: B };
    let _ = layer.add_virt_node(entry(B, 1, 7));
    layer.register_sender(n, 55);
    let second = layer.add_virt_node(entry(B, 2, 9)).unwrap();
    let row = layer.resolve_node(n).unwrap();
    assert_eq!(row, second);
    assert_eq!(row.session, SessionId { id: [2; 16] });
    assert_eq!(row.session_slot, 9);
    // The sender was left untouched.
    assert_eq!(layer.shutdown(), vec![(n, 55)]);
}

#[test]
fn forward_sender_drop_tears_down() {
    let mut layer: TcpLayer<u32> = TcpLayer::new(&A);
    let n = NodeId { inner: B };
    let row = layer.connect(entry(B, 1, 7)).unwrap();
    let dialled: Result<&str, ()> = Ok("connection");
    let connection = layer.connected(row.id, dialled, 55).unwrap();
    assert_eq!(connection, "connection");
    // The channel closed: the task removes the peer and gets the sender to
    // close.
    assert_eq!(layer.remove_node(n), Some(55));
    assert_eq!(layer.resolve_node(n), Err(LayerError::UnknownNode));
    assert_eq!(layer.remove_node(n), None);
    assert_eq!(layer.shutdown(), vec![]);
    let event = EgressEvent { remote: to_ipv6(&B).octets.to_vec(), payload: vec![1] };
    assert_eq!(layer.egress_router(event), Err(LayerError::UnknownAddress));
}

#[test]
fn failed_connect_keeps_no_sender() {
    let mut layer: TcpLayer<u32> = TcpLayer::new(&A);
    let n = NodeId { inner: B };
    let row = layer.connect(entry(B, 1, 7)).unwrap();
    let dialled: Result<u8, &str> = Err("timed out");
    assert_eq!(layer.connected(row.id, dialled, 55), Err(LayerError::ConnectFailed));
    // The peer stays registered; the caller may remove it.
    assert_eq!(layer.resolve_node(n), Ok(row));
    assert_eq!(layer.remove_node(n), None);
}

#[test]
fn connect_overrides_previous_row() {
    let mut layer: TcpLayer<u32> = TcpLayer::new(&A);
    let _ = layer.add_virt_node(entry(B, 1, 7));
    let row = layer.connect(entry(B, 3, 8)).unwrap();
    assert_eq!(row, VirtNode::try_new(&B, SessionId { id: [3; 16] }, 8).unwrap());
    assert_eq!(layer.resolve_node(NodeId { inner: B }), Ok(row));
}

#[test]
fn second_connection_replaces_the_sender() {
    let mut layer: TcpLayer<u32> = TcpLayer::new(&A);
    let n = NodeId { inner: B };
    layer.register_sender(n, 1);
    layer.register_sender(n, 2);
    assert_eq!(layer.remove_node(n), Some(2));
}

#[test]
fn shutdown_gives_every_sender_back() {
    let mut layer: TcpLayer<u32> = TcpLayer::new(&A);
    let ids = [[1u8; 20], [2; 20], [3; 20]];
    for (i, id) in ids.iter().enumerate() {
        let row = layer.connect(entry(*id, 1, i as u32)).unwrap();
        let dialled: Result<(), ()> = Ok(());
        layer.connected(row.id, dialled, 10 + i as u32).unwrap();
    }
    let senders = layer.shutdown();
    assert_eq!(
        senders,
        vec![
            (NodeId { inner: ids[0] }, 10),
            (NodeId { inner: ids[1] }, 11),
            (NodeId { inner: ids[2] }, 12)
        ]
    );
    assert_eq!(layer.shutdown(), vec![]);
    // Each forwarding task then removes its peer; no sender is left to close.
    for id in ids {
        assert!(layer.resolve_node(NodeId { inner: id }).is_ok());
        assert_eq!(layer.remove_node(NodeId { inner: id }), None);
        assert_eq!(layer.resolve_node(NodeId { inner: id }), Err(LayerError::UnknownNode));
    }
}

#[test]
fn receive_registers_only_unknown_senders() {
    let mut layer: TcpLayer<u32> = TcpLayer::new(&A);
    let n = NodeId { inner: B };
    let first = layer.receive(entry(B, 1, 7), vec![1, 2]);
    assert_eq!(first, Received { registered: true, frame: vec![1, 2] });
    // A known sender keeps its row, whatever the entry says now.
    let second = layer.receive(entry(B, 2, 9), vec![3]);
    assert_eq!(second, Received { registered: false, frame: vec![3] });
    let row = layer.resolve_node(n).unwrap();
    assert_eq!(row.session, SessionId { id: [1; 16] });
    assert_eq!(row.session_slot, 7);
}

#[test]
fn resolve_of_unknown_node_fails() {
    let layer: TcpLayer<u32> = TcpLayer::new(&A);
    assert_eq!(layer.resolve_node(NodeId { inner: B }), Err(LayerError::UnknownNode));
}

#[test]
fn routers_start_once() {
    assert_eq!(TcpLayer::<u32>::spawn_ingress_router(Some("ingress")), Ok("ingress"));
    assert_eq!(TcpLayer::<u32>::spawn_egress_router(Some("egress")), Ok("egress"));
    let taken: Option<&str> = None;
    assert_eq!(TcpLayer::<u32>::spawn_ingress_router(taken), Err(LayerError::AlreadySpawned));
    assert_eq!(TcpLayer::<u32>::spawn_egress_router(taken), Err(LayerError::AlreadySpawned));
}

#[test]
fn layer_network_is_named_by_the_key() {
    let mut address = [0u8; 20];
    address[..4].copy_from_slice(&[0x01, 0x23, 0x45, 0x67]);
    let layer: TcpLayer<u32> = TcpLayer::new(&address);
    assert_eq!(layer.net_id(), "01234567");
    assert_eq!(layer.network().name, "01234567");
}

#[test]
fn error_descriptions() {
    assert_eq!(LayerError::UnknownNode.as_str(), "virtual node not found");
    assert_eq!(LayerError::UnknownAddress.as_str(), "virtual address not found");
    assert_eq!(LayerError::ConnectFailed.as_str(), "virtual connection failed");
    assert_eq!(LayerError::AlreadySpawned.as_str(), "traffic routers already spawned");
}
