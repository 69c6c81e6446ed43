//! The virtual TCP layer over the datagram sessions: the rows that route a
//! peer, and the decisions of the layer between the sessions, the TCP engine
//! and the application.

use crate::address::{to_ipv6, virtual_ip, IpAddress, IpEndpoint, Ipv6Address, TCP_BIND_PORT};
use crate::assoc::{distinct_keys, entries_map, AssocMap};
use crate::error::LayerError;
use crate::id_map::{IdMap, IdMapView};
use crate::interface::{
    add_iface_address, add_iface_route, default_iface, ip_to_mac, CaptureInterface, IpCidr, Route,
};
use crate::node::{NodeEntry, NodeId, SessionId, SlotId, NODE_ID_LEN};
use crate::pause::{pause_plan, plan_pause, PausePlan, Timestamp};
use vstd::prelude::*;

verus! {

/// Information about a virtual node in the TCP network built over the
/// datagram sessions.
#[derive(Clone, Copy, Debug, PartialEq, Eq)]
pub struct VirtNode {
    /// Who the peer is.
    pub id: NodeId,
    /// Where the peer's TCP engine listens on the overlay.
    pub endpoint: IpEndpoint,
    /// The session through which frames for the peer leave.
    pub session: SessionId,
    /// The session's forwarding slot for the peer.
    pub session_slot: SlotId,
}

impl VirtNode {
    /// The row of a peer: its endpoint is its derived address and the
    /// overlay's one port.
    pub open spec fn of(id: NodeId, session: SessionId, session_slot: SlotId) -> VirtNode {
        VirtNode {
            id,
            endpoint: IpEndpoint::virtual_endpoint(virtual_ip(id@)),
            session,
            session_slot,
        }
    }

    /// The row that registers a peer known to the session layer.
    pub open spec fn of_entry(entry: NodeEntry) -> VirtNode {
        VirtNode::of(entry.id, entry.session, entry.slot)
    }

    /// Builds the row of the peer whose identifier is the twenty bytes `id`.
    pub fn try_new(id: &[u8], session: SessionId, session_slot: SlotId) -> (r: Result<
        VirtNode,
        LayerError,
    >)
        requires
            id@.len() == NODE_ID_LEN,
        ensures
            r is Ok,
            r->Ok_0.id@ == id@,
            r->Ok_0 == VirtNode::of(r->Ok_0.id, session, session_slot),
    {
        let id = NodeId::from_slice(id);
        let ip = IpAddress::Ipv6(to_ipv6(&id.inner));
        let endpoint = IpEndpoint { addr: ip, port: TCP_BIND_PORT };
        Ok(VirtNode { id, endpoint, session, session_slot })
    }
}

/// The prefix length of the block that the node's own address is given to
/// the interface with: the whole overlay is on the link.
pub const IPV6_DEFAULT_CIDR: u8 = 0;

/// The transport protocol of a socket of the TCP engine.
#[derive(Clone, Copy, Debug, PartialEq, Eq, Structural)]
pub enum Protocol {
    Icmp,
    Tcp,
    Udp,
    Ipv6Icmp,
}

/// One end of a socket of the TCP engine.
#[derive(Clone, Copy, Debug, PartialEq, Eq)]
pub enum SocketEndpoint {
    /// An address and a port.
    Ip(IpEndpoint),
    /// An ICMP identifier.
    Icmp,
    /// Anything else.
    Other,
}

/// What identifies a socket of the TCP engine.
#[derive(Clone, Copy, Debug, PartialEq, Eq)]
pub struct SocketDesc {
    pub protocol: Protocol,
    pub local: SocketEndpoint,
    pub remote: SocketEndpoint,
}

/// What the TCP engine reports of the traffic that reached it.
#[derive(Debug, PartialEq, Eq)]
pub enum IngressEvent {
    /// A peer opened a connection to this node.
    InboundConnection { desc: SocketDesc },
    /// A connection ended.
    Disconnected { desc: SocketDesc },
    /// A socket received payload.
    Packet { desc: SocketDesc, payload: Vec<u8> },
}

/// A link-layer frame that the TCP engine wants on the wire.
#[derive(Debug, PartialEq, Eq)]
pub struct EgressEvent {
    /// The octets of the address that the frame is for.
    pub remote: Vec<u8>,
    /// The frame.
    pub payload: Vec<u8>,
}

/// Payload that a peer sent to this node's application.
#[derive(Debug, PartialEq, Eq)]
pub struct Forwarded {
    /// Whether the payload came over the reliable transport.
    pub reliable: bool,
    /// The peer that sent it.
    pub node_id: NodeId,
    pub payload: Vec<u8>,
}

/// The session layer's unit for a frame that leaves through a session.
#[derive(Debug, PartialEq, Eq)]
pub struct Forward {
    pub session_id: SessionId,
    pub slot: SlotId,
    pub payload: Vec<u8>,
}

/// What becomes of an event of the TCP engine's ingress stream.
#[derive(Debug, PartialEq, Eq)]
pub enum Ingress {
    /// A peer connected: nothing is delivered, every connection to the
    /// overlay's port is accepted.
    InboundConnection,
    /// A connection ended: nothing is delivered, and nothing is torn down
    /// on this account.
    Disconnected,
    /// A packet of another protocol than TCP: dropped.
    NotTcp,
    /// A packet whose remote end is no address and port: dropped.
    UnsupportedEndpoint,
    /// A packet from an address that no peer is registered under: dropped.
    UnknownAddress,
    /// A packet of a registered peer: deliver this to the application.
    Deliver(Forwarded),
}

/// What the layer does when the session layer hands it a frame.
#[derive(Debug, PartialEq, Eq)]
pub struct Received {
    /// Whether the sender was unknown until now and has been registered.
    pub registered: bool,
    /// The frame to inject into the TCP engine, which is then polled.
    pub frame: Vec<u8>,
}

/// The name of a network and what its TCP engine's interface is made of.
pub struct Network {
    pub name: String,
    pub iface: CaptureInterface,
}

/// The lower-case hexadecimal digit of a value below sixteen.
pub open spec fn hex_digit(value: int) -> char {
    "0123456789abcdef"@[value]
}

/// The octets written as two lower-case hexadecimal digits each.
pub open spec fn hex_string(octets: Seq<u8>) -> Seq<char> {
    Seq::new(
        2 * octets.len(),
        |i: int|
            if i % 2 == 0 {
                hex_digit(octets[i / 2] as int / 16)
            } else {
                hex_digit(octets[i / 2] as int % 16)
            },
    )
}

/// Writes four octets as eight lower-case hexadecimal digits, with
/// `format!` and the `{:02x}` format of `u8`.
#[verifier::external_body]
fn hex_name(a: u8, b: u8, c: u8, d: u8) -> (name: String)
    ensures
        name@ == hex_string(seq![a, b, c, d]),
{
    format!("{:02x}{:02x}{:02x}{:02x}", a, b, c, d)
}

/// Whether `net` is a network of the node with the given key address:
/// named by the address's first four octets; its device under a hardware
/// address that names a single station; with the node's derived address as
/// its only address, and one route for everything, through that address.
pub open spec fn is_default_network(net: Network, address: Seq<u8>) -> bool {
    let ip = virtual_ip(address);
    let cidr = IpCidr::of(IpAddress::Ipv6(ip), IPV6_DEFAULT_CIDR);
    &&& net.name@ == hex_string(address.subrange(0, 4))
    &&& net.iface.wf()
    &&& net.iface.spec_hardware_addr().is_unicast()
    &&& net.iface.spec_ip_addrs() == seq![cidr]
    &&& net.iface.spec_routes() == Map::<IpCidr, Route>::empty().insert(
        cidr,
        Route::ipv6_gateway(ip),
    )
}

/// Describes the network of the node whose public key has the given
/// address. The hardware address of its device is drawn at random.
pub fn default_network(address: &[u8; 20]) -> (net: Network)
    ensures
        is_default_network(net, address@),
{
    let ipv6_addr = to_ipv6(address.as_slice());
    let ipv6_cidr = IpCidr::new(IpAddress::Ipv6(ipv6_addr), IPV6_DEFAULT_CIDR);
    let mut iface = default_iface(ip_to_mac(IpAddress::Ipv6(ipv6_addr)));
    let name = hex_name(address[0], address[1], address[2], address[3]);
    add_iface_address(&mut iface, ipv6_cidr);
    add_iface_route(&mut iface, ipv6_cidr, Route::new_ipv6_gateway(ipv6_addr));
    proof {
        assert(seq![address[0], address[1], address[2], address[3]] =~= address@.subrange(0, 4));
        assert(iface.spec_ip_addrs() =~= seq![ipv6_cidr]);
    }
    Network { name, iface }
}

/// The state of the layer, as maps.
pub struct TcpLayerView<T> {
    /// The registry of peers.
    pub nodes: IdMapView,
    /// The writing end of the channel of each peer that this node has a
    /// connection to.
    pub forward_senders: Map<NodeId, T>,
}

impl<T> TcpLayerView<T> {
    /// What becomes of an event of the ingress stream.
    pub open spec fn ingress(self, event: IngressEvent) -> Ingress {
        match event {
            IngressEvent::InboundConnection { desc } => Ingress::InboundConnection,
            IngressEvent::Disconnected { desc } => Ingress::Disconnected,
            IngressEvent::Packet { desc, payload } => {
                if desc.protocol != Protocol::Tcp {
                    Ingress::NotTcp
                } else {
                    match desc.remote {
                        SocketEndpoint::Ip(endpoint) => match self.nodes.resolve_by_ip(
                            endpoint.addr.octets(),
                        ) {
                            Ok(node) => Ingress::Deliver(
                                Forwarded { reliable: true, node_id: node.id, payload },
                            ),
                            Err(_) => Ingress::UnknownAddress,
                        },
                        _ => Ingress::UnsupportedEndpoint,
                    }
                }
            },
        }
    }

    /// Where a frame of the egress stream goes: to the peer registered
    /// under the frame's address, through that peer's session and slot.
    pub open spec fn egress(self, event: EgressEvent) -> Result<(VirtNode, Forward), LayerError> {
        match self.nodes.resolve_by_ip(event.remote@) {
            Ok(node) => Ok(
                (
                    node,
                    Forward {
                        session_id: node.session,
                        slot: node.session_slot,
                        payload: event.payload,
                    },
                ),
            ),
            Err(_) => Err(LayerError::UnknownAddress),
        }
    }

    /// The state after the session layer handed over a frame of `node`: a
    /// sender that does not resolve is registered.
    pub open spec fn receive(self, node: NodeEntry) -> TcpLayerView<T> {
        if self.nodes.resolve_by_node(node.id) is Err {
            TcpLayerView { nodes: self.nodes.add(node), forward_senders: self.forward_senders }
        } else {
            self
        }
    }

    /// The state after a peer is removed: the registry forgets it, and so
    /// does the map of senders.
    pub open spec fn remove_node(self, node_id: NodeId) -> TcpLayerView<T> {
        TcpLayerView {
            nodes: self.nodes.remove(node_id),
            forward_senders: self.forward_senders.remove(node_id),
        }
    }
}

/// The virtual TCP layer: TCP over the datagram sessions. Nodes appear to
/// the TCP engine under virtual addresses; this type maps node
/// identifiers to those addresses and decides where traffic goes. `T` is
/// the writing end of a peer's outbound channel, which the layer keeps only
/// to hand it back for closing.
pub struct TcpLayer<T> {
    net: Network,
    nodes: IdMap,
    forward_senders: AssocMap<NodeId, T>,
}

impl<T> View for TcpLayer<T> {
    type V = TcpLayerView<T>;

    closed spec fn view(&self) -> TcpLayerView<T> {
        TcpLayerView { nodes: self.nodes@, forward_senders: self.forward_senders@ }
    }
}

impl<T> TcpLayer<T> {
    /// The representation invariant. It implies `self@.nodes.wf()`.
    pub closed spec fn wf(&self) -> bool {
        &&& self.nodes.wf()
        &&& self.forward_senders.wf()
        &&& self.net.iface.wf()
    }

    /// The network that the layer was made for.
    pub closed spec fn spec_network(&self) -> Network {
        self.net
    }

    /// The registry of a well-formed layer is one of which `wf` holds.
    pub proof fn lemma_wf_view(&self)
        requires
            self.wf(),
        ensures
            self@.nodes.wf(),
    {
        self.nodes.lemma_wf_view();
    }

    /// The layer of the node whose public key has the given address, with
    /// no peers and no connections.
    pub fn new(address: &[u8; 20]) -> (layer: TcpLayer<T>)
        ensures
            layer.wf(),
            is_default_network(layer.spec_network(), address@),
            layer@.nodes == IdMapView::empty(),
            layer@.nodes.consistent(),
            layer@.forward_senders == Map::<NodeId, T>::empty(),
    {
        let net = default_network(address);
        TcpLayer { net, nodes: IdMap::new(), forward_senders: AssocMap::new() }
    }

    /// The network that the layer was made for.
    pub fn network(&self) -> (net: &Network)
        ensures
            *net == self.spec_network(),
    {
        &self.net
    }

    /// The name of the layer's network.
    pub fn net_id(&self) -> (name: &String)
        ensures
            *name == self.spec_network().name,
    {
        &self.net.name
    }

    /// The endpoint that the TCP engine of the node `our_id` is bound to:
    /// its derived address and the overlay's port.
    pub fn spawn(&self, our_id: NodeId) -> (endpoint: IpEndpoint)
        ensures
            endpoint == IpEndpoint::virtual_endpoint(virtual_ip(our_id@)),
    {
        IpEndpoint { addr: IpAddress::Ipv6(to_ipv6(our_id.inner.as_slice())), port: TCP_BIND_PORT }
    }

    /// Takes what the engine gave as its ingress stream. The engine gives
    /// the stream out once; without it the router cannot be started again.
    pub fn spawn_ingress_router<R>(ingress_rx: Option<R>) -> (r: Result<R, LayerError>)
        ensures
            r == match ingress_rx {
                Some(rx) => Ok::<R, LayerError>(rx),
                None => Err::<R, LayerError>(LayerError::AlreadySpawned),
            },
    {
        match ingress_rx {
            Some(rx) => Ok(rx),
            None => Err(LayerError::AlreadySpawned),
        }
    }

    /// Takes what the engine gave as its egress stream. The engine gives
    /// the stream out once; without it the router cannot be started again.
    pub fn spawn_egress_router<R>(egress_rx: Option<R>) -> (r: Result<R, LayerError>)
        ensures
            r == match egress_rx {
                Some(rx) => Ok::<R, LayerError>(rx),
                None => Err::<R, LayerError>(LayerError::AlreadySpawned),
            },
    {
        match egress_rx {
            Some(rx) => Ok(rx),
            None => Err(LayerError::AlreadySpawned),
        }
    }

    /// The row of a peer.
    pub fn resolve_node(&self, node: NodeId) -> (r: Result<VirtNode, LayerError>)
        requires
            self.wf(),
        ensures
            r == self@.nodes.resolve_by_node(node),
            self@.nodes.consistent() ==> (r is Ok <==> self@.nodes.ip_by_node.contains_key(node)),
            self@.nodes.consistent() && r is Ok ==> r->Ok_0.id == node,
    {
        self.nodes.resolve_by_node(&node)
    }

    /// Registers a peer, in place of the row that its identifier had, and
    /// returns the new row. The senders are left as they are.
    pub fn add_virt_node(&mut self, node: NodeEntry) -> (r: Result<VirtNode, LayerError>)
        requires
            old(self).wf(),
        ensures
            final(self).wf(),
            r == Ok::<VirtNode, LayerError>(VirtNode::of_entry(node)),
            final(self)@.nodes == old(self)@.nodes.add(node),
            final(self)@.forward_senders == old(self)@.forward_senders,
            final(self).spec_network() == old(self).spec_network(),
            old(self)@.nodes.consistent() && !old(self)@.nodes.collides(node.id)
                ==> final(self)@.nodes.consistent(),
    {
        let row = self.nodes.add(node);
        Ok(row)
    }

    /// Removes a peer from the registry and from the senders, and returns
    /// the peer's sender, if it had one, for the caller to close.
    pub fn remove_node(&mut self, node_id: NodeId) -> (sender: Option<T>)
        requires
            old(self).wf(),
        ensures
            final(self).wf(),
            final(self)@ == old(self)@.remove_node(node_id),
            final(self).spec_network() == old(self).spec_network(),
            sender == if old(self)@.forward_senders.contains_key(node_id) {
                Some(old(self)@.forward_senders[node_id])
            } else {
                None
            },
            !final(self)@.nodes.ip_by_node.contains_key(node_id),
            final(self)@.nodes.rows_of(node_id) == Set::<Ipv6Address>::empty(),
            !final(self)@.forward_senders.contains_key(node_id),
            old(self)@.nodes.consistent() ==> final(self)@.nodes.consistent(),
    {
        proof {
            old(self).nodes.lemma_wf_view();
            old(self)@.nodes.lemma_remove_forgets(node_id);
        }
        self.nodes.remove(&node_id);
        self.forward_senders.remove(&node_id)
    }

    /// Starts a connection to a peer: registers the peer, in place of the
    /// row that its identifier had, and returns the row, to whose endpoint
    /// the TCP engine is to connect.
    pub fn connect(&mut self, node: NodeEntry) -> (r: Result<VirtNode, LayerError>)
        requires
            old(self).wf(),
        ensures
            final(self).wf(),
            r == Ok::<VirtNode, LayerError>(VirtNode::of_entry(node)),
            final(self)@.nodes == old(self)@.nodes.add(node),
            final(self)@.forward_senders == old(self)@.forward_senders,
            final(self).spec_network() == old(self).spec_network(),
            old(self)@.nodes.consistent() && !old(self)@.nodes.collides(node.id)
                ==> final(self)@.nodes.consistent(),
    {
        self.add_virt_node(node)
    }

    /// Takes the TCP engine's answer to a connection attempt. Where the
    /// engine connected, the sender of the peer's channel is kept, in place
    /// of the one that the peer had, and the connection is handed back.
    /// Where it did not, nothing changes: the peer stays registered and no
    /// sender is kept.
    pub fn connected<C, E>(&mut self, node_id: NodeId, dialled: Result<C, E>, sender: T) -> (r:
        Result<C, LayerError>)
        requires
            old(self).wf(),
        ensures
            final(self).wf(),
            final(self)@.nodes == old(self)@.nodes,
            final(self).spec_network() == old(self).spec_network(),
            match dialled {
                Ok(connection) => {
                    &&& r == Ok::<C, LayerError>(connection)
                    &&& final(self)@.forward_senders == old(self)@.forward_senders.insert(
                        node_id,
                        sender,
                    )
                },
                Err(_) => {
                    &&& r == Err::<C, LayerError>(LayerError::ConnectFailed)
                    &&& final(self)@.forward_senders == old(self)@.forward_senders
                },
            },
    {
        match dialled {
            Ok(connection) => {
                self.register_sender(node_id, sender);
                Ok(connection)
            },
            Err(_) => Err(LayerError::ConnectFailed),
        }
    }

    /// Keeps the sender of a peer's channel, in place of the one that the
    /// peer had, so that removing the peer or shutting down can close it.
    pub fn register_sender(&mut self, node_id: NodeId, sender: T)
        requires
            old(self).wf(),
        ensures
            final(self).wf(),
            final(self)@.nodes == old(self)@.nodes,
            final(self)@.forward_senders == old(self)@.forward_senders.insert(node_id, sender),
            final(self).spec_network() == old(self).spec_network(),
    {
        self.forward_senders.insert(node_id, sender);
    }

    /// Decides what a forwarding task does before it waits for its next
    /// payload: with a pause set, it sleeps what is left of the pause and
    /// then clears it.
    pub fn get_next_fwd_payload(
        &self,
        forward_paused_till: Option<Timestamp>,
        now: Timestamp,
    ) -> (plan: PausePlan)
        ensures
            plan == pause_plan(forward_paused_till, now),
    {
        plan_pause(forward_paused_till, now)
    }

    /// Takes a frame that the session layer received from `node`. A sender
    /// that does not resolve is registered first, so that the ingress
    /// router knows it when the engine reports the payload.
    pub fn receive(&mut self, node: NodeEntry, payload: Vec<u8>) -> (received: Received)
        requires
            old(self).wf(),
        ensures
            final(self).wf(),
            final(self)@ == old(self)@.receive(node),
            final(self).spec_network() == old(self).spec_network(),
            received.registered == (old(self)@.nodes.resolve_by_node(node.id) is Err),
            received.frame == payload,
            final(self)@.nodes.ip_by_node.contains_key(node.id),
            old(self)@.nodes.consistent() && !old(self)@.nodes.collides(node.id)
                ==> final(self)@.nodes.consistent(),
    {
        let registered = self.resolve_node(node.id).is_err();
        if registered {
            let _ = self.add_virt_node(node);
        }
        Received { registered, frame: payload }
    }

    /// Forgets every sender and returns them, each with its peer, for the
    /// caller to close. The registry is left as it is.
    pub fn shutdown(&mut self) -> (senders: Vec<(NodeId, T)>)
        requires
            old(self).wf(),
        ensures
            final(self).wf(),
            final(self)@.forward_senders == Map::<NodeId, T>::empty(),
            final(self)@.nodes == old(self)@.nodes,
            final(self).spec_network() == old(self).spec_network(),
            distinct_keys(senders@),
            entries_map(senders@) == old(self)@.forward_senders,
    {
        self.forward_senders.drain()
    }

    /// Decides what becomes of an event of the TCP engine's ingress
    /// stream.
    pub fn ingress_router(&self, event: IngressEvent) -> (outcome: Ingress)
        requires
            self.wf(),
        ensures
            outcome == self@.ingress(event),
    {
        let (desc, payload) = match event {
            IngressEvent::InboundConnection { desc } => {
                return Ingress::InboundConnection;
            },
            IngressEvent::Disconnected { desc } => {
                return Ingress::Disconnected;
            },
            IngressEvent::Packet { desc, payload } => (desc, payload),
        };
        if desc.protocol != Protocol::Tcp {
            return Ingress::NotTcp;
        }
        let remote_address = match desc.remote {
            SocketEndpoint::Ip(endpoint) => endpoint.addr,
            _ => {
                return Ingress::UnsupportedEndpoint;
            },
        };
        match self.nodes.resolve_by_ip(remote_address.as_bytes()) {
            Ok(node) => Ingress::Deliver(Forwarded { reliable: true, node_id: node.id, payload }),
            Err(_) => Ingress::UnknownAddress,
        }
    }

    /// Decides where a frame of the TCP engine's egress stream goes.
    pub fn egress_router(&self, event: EgressEvent) -> (r: Result<(VirtNode, Forward), LayerError>)
        requires
            self.wf(),
        ensures
            r == self@.egress(event),
    {
        match self.nodes.resolve_by_ip(event.remote.as_slice()) {
            Ok(node) => {
                let forward = Forward {
                    session_id: node.session,
                    slot: node.session_slot,
                    payload: event.payload,
                };
                Ok((node, forward))
            },
            Err(_) => Err(LayerError::UnknownAddress),
        }
    }
}

} // verus!
