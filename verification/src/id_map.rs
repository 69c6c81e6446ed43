//! The registry of known peers: from a node identifier to its virtual
//! address, and from a virtual address to the peer's row.

use crate::address::{to_ipv6, virtual_ip, IpAddress, IpEndpoint, Ipv6Address, TCP_BIND_PORT};
use crate::bytes::{padded_array, padded_byte};
use crate::assoc::AssocMap;
use crate::error::LayerError;
use crate::node::{NodeEntry, NodeId};
use crate::virtual_layer::VirtNode;
use vstd::prelude::*;

verus! {

/// The two indices of the registry, as maps.
pub struct IdMapView {
    /// The virtual address of each registered identifier.
    pub ip_by_node: Map<NodeId, Ipv6Address>,
    /// The row registered under each virtual address.
    pub node_by_ip: Map<Ipv6Address, VirtNode>,
}

impl IdMapView {
    /// The registry without peers.
    pub open spec fn empty() -> IdMapView {
        IdMapView { ip_by_node: Map::empty(), node_by_ip: Map::empty() }
    }

    /// The registry after a peer is added: both indices get the peer's
    /// entry, in place of whatever stood under the same key.
    pub open spec fn add(self, entry: NodeEntry) -> IdMapView {
        let ip = virtual_ip(entry.id@);
        IdMapView {
            ip_by_node: self.ip_by_node.insert(entry.id, ip),
            node_by_ip: self.node_by_ip.insert(ip, VirtNode::of_entry(entry)),
        }
    }

    /// The registry after an identifier is removed: its address leaves the
    /// first index, and the row under that address the second. Nothing
    /// changes when the identifier is not registered.
    pub open spec fn remove(self, id: NodeId) -> IdMapView {
        if self.ip_by_node.contains_key(id) {
            IdMapView {
                ip_by_node: self.ip_by_node.remove(id),
                node_by_ip: self.node_by_ip.remove(self.ip_by_node[id]),
            }
        } else {
            self
        }
    }

    /// The row that an address resolves to.
    pub open spec fn resolve_by_ip(self, octets: Seq<u8>) -> Result<VirtNode, LayerError> {
        if exists|ip: Ipv6Address| self.node_by_ip.contains_key(ip) && ip@ == octets {
            let ip = choose|ip: Ipv6Address| self.node_by_ip.contains_key(ip) && ip@ == octets;
            Ok(self.node_by_ip[ip])
        } else {
            Err(LayerError::UnknownAddress)
        }
    }

    /// The row that an identifier resolves to: the row under the
    /// identifier's address, where the identifier is indexed and its
    /// address holds a row.
    pub open spec fn resolve_by_node(self, id: NodeId) -> Result<VirtNode, LayerError> {
        if self.ip_by_node.contains_key(id) && self.node_by_ip.contains_key(self.ip_by_node[id]) {
            Ok(self.node_by_ip[self.ip_by_node[id]])
        } else {
            Err(LayerError::UnknownNode)
        }
    }

    /// What holds of every registry, whatever was added and removed: each
    /// identifier is indexed under its derived address, and each row stands
    /// under the address of its own identifier, which is indexed.
    pub open spec fn wf(self) -> bool {
        &&& forall|id: NodeId| #[trigger]
            self.ip_by_node.contains_key(id) ==> self.ip_by_node[id] == virtual_ip(id@)
        &&& forall|ip: Ipv6Address| #[trigger]
            self.node_by_ip.contains_key(ip) ==> {
                let row = self.node_by_ip[ip];
                &&& ip == virtual_ip(row.id@)
                &&& row.endpoint == IpEndpoint::virtual_endpoint(ip)
                &&& self.ip_by_node.contains_key(row.id)
            }
    }

    /// Whether the two indices agree in both directions: besides what `wf`
    /// says of the rows, the address of every indexed identifier holds that
    /// identifier's own row.
    pub open spec fn consistent(self) -> bool {
        &&& self.wf()
        &&& forall|id: NodeId| #[trigger]
            self.ip_by_node.contains_key(id) ==> self.node_by_ip.contains_key(self.ip_by_node[id])
                && self.node_by_ip[self.ip_by_node[id]].id == id
    }

    /// Whether another registered identifier has the same virtual address
    /// as `id`. Identifiers share an address when they agree in what the
    /// derivation reads of them.
    pub open spec fn collides(self, id: NodeId) -> bool {
        exists|other: NodeId| #[trigger]
            self.ip_by_node.contains_key(other) && other != id && virtual_ip(other@) == virtual_ip(
                id@,
            )
    }

    /// The rows registered for an identifier.
    pub open spec fn rows_of(self, id: NodeId) -> Set<Ipv6Address> {
        Set::new(|ip: Ipv6Address| self.node_by_ip.contains_key(ip) && self.node_by_ip[ip].id == id)
    }

    /// The empty registry is consistent.
    pub proof fn lemma_empty_consistent()
        ensures
            IdMapView::empty().consistent(),
    {
    }

    /// Adding a peer keeps what holds of every registry.
    pub proof fn lemma_add_wf(self, entry: NodeEntry)
        requires
            self.wf(),
        ensures
            self.add(entry).wf(),
    {
        let after = self.add(entry);
        assert forall|ip: Ipv6Address| #[trigger] after.node_by_ip.contains_key(ip) implies {
            let row = after.node_by_ip[ip];
            &&& ip == virtual_ip(row.id@)
            &&& row.endpoint == IpEndpoint::virtual_endpoint(ip)
            &&& after.ip_by_node.contains_key(row.id)
        } by {
            if ip != virtual_ip(entry.id@) {
                assert(self.node_by_ip.contains_key(ip));
            }
        }
    }

    /// Removing an identifier keeps what holds of every registry.
    pub proof fn lemma_remove_wf(self, id: NodeId)
        requires
            self.wf(),
        ensures
            self.remove(id).wf(),
    {
        let after = self.remove(id);
        if self.ip_by_node.contains_key(id) {
            assert forall|ip: Ipv6Address| #[trigger] after.node_by_ip.contains_key(ip) implies {
                let row = after.node_by_ip[ip];
                &&& ip == virtual_ip(row.id@)
                &&& row.endpoint == IpEndpoint::virtual_endpoint(ip)
                &&& after.ip_by_node.contains_key(row.id)
            } by {
                assert(self.node_by_ip.contains_key(ip));
            }
        }
    }

    /// The two indices stay in agreement when a peer is added whose address
    /// no other registered identifier shares.
    pub proof fn lemma_add_consistent(self, entry: NodeEntry)
        requires
            self.consistent(),
            !self.collides(entry.id),
        ensures
            self.add(entry).consistent(),
    {
        self.lemma_add_wf(entry);
        let after = self.add(entry);
        assert forall|id: NodeId| #[trigger] after.ip_by_node.contains_key(id) implies
            after.node_by_ip.contains_key(after.ip_by_node[id])
                && after.node_by_ip[after.ip_by_node[id]].id == id by {
            if id != entry.id {
                assert(self.ip_by_node.contains_key(id));
            }
        }
    }

    /// The two indices stay in agreement when an identifier is removed.
    pub proof fn lemma_remove_consistent(self, id: NodeId)
        requires
            self.consistent(),
        ensures
            self.remove(id).consistent(),
    {
        self.lemma_remove_wf(id);
        let after = self.remove(id);
        if self.ip_by_node.contains_key(id) {
            assert forall|other: NodeId| #[trigger] after.ip_by_node.contains_key(other) implies
                after.node_by_ip.contains_key(after.ip_by_node[other])
                    && after.node_by_ip[after.ip_by_node[other]].id == other by {
                assert(self.ip_by_node.contains_key(other));
            }
        }
    }

    /// After removal neither index knows the identifier: it has no address
    /// and no row, and it does not resolve.
    pub proof fn lemma_remove_forgets(self, id: NodeId)
        requires
            self.wf(),
        ensures
            !self.remove(id).ip_by_node.contains_key(id),
            self.remove(id).rows_of(id) == Set::<Ipv6Address>::empty(),
            self.remove(id).resolve_by_node(id) == Err::<VirtNode, LayerError>(
                LayerError::UnknownNode,
            ),
    {
        self.lemma_remove_wf(id);
        assert(self.remove(id).rows_of(id) =~= Set::<Ipv6Address>::empty());
    }

    /// A peer that was just added resolves to the row that it was added
    /// with.
    pub proof fn lemma_add_resolves(self, entry: NodeEntry)
        ensures
            self.add(entry).resolve_by_node(entry.id) == Ok::<VirtNode, LayerError>(
                VirtNode::of_entry(entry),
            ),
    {
    }

    /// Adding a peer twice is adding it once, with what the second call
    /// gave: the first row is replaced and neither index grows.
    pub proof fn lemma_add_twice(self, first: NodeEntry, second: NodeEntry)
        requires
            first.id == second.id,
        ensures
            self.add(first).add(second) == self.add(second),
            self.add(first).add(second).ip_by_node.dom() == self.add(first).ip_by_node.dom(),
            self.add(first).add(second).node_by_ip.dom() == self.add(first).node_by_ip.dom(),
            self.add(first).add(second).resolve_by_node(second.id) == Ok::<VirtNode, LayerError>(
                VirtNode::of_entry(second),
            ),
    {
        let once = self.add(first);
        let twice = once.add(second);
        let direct = self.add(second);
        assert(twice.ip_by_node =~= direct.ip_by_node);
        assert(twice.node_by_ip =~= direct.node_by_ip);
        assert(twice.ip_by_node.dom() =~= once.ip_by_node.dom());
        assert(twice.node_by_ip.dom() =~= once.node_by_ip.dom());
    }

    /// An identifier has at most one row: a row of it stands under its
    /// derived address and nowhere else.
    pub proof fn lemma_at_most_one_row(self, id: NodeId)
        requires
            self.wf(),
        ensures
            self.rows_of(id).subset_of(set![virtual_ip(id@)]),
    {
    }

    /// In a registry of which `wf` holds, a peer that was just added has
    /// exactly one row: the one under its derived address.
    pub proof fn lemma_add_one_row(self, entry: NodeEntry)
        requires
            self.wf(),
        ensures
            self.add(entry).rows_of(entry.id) == set![virtual_ip(entry.id@)],
    {
        self.lemma_add_wf(entry);
        assert(self.add(entry).rows_of(entry.id) =~= set![virtual_ip(entry.id@)]);
    }
}

/// One change to the registry.
pub enum RegistryOp {
    /// A peer is added.
    Add(NodeEntry),
    /// An identifier is removed.
    Remove(NodeId),
    /// The layer shuts down, which leaves the registry as it is.
    Shutdown,
}

impl IdMapView {
    /// The registry after one change.
    pub open spec fn apply(self, op: RegistryOp) -> IdMapView {
        match op {
            RegistryOp::Add(entry) => self.add(entry),
            RegistryOp::Remove(id) => self.remove(id),
            RegistryOp::Shutdown => self,
        }
    }

    /// The registry that a sequence of changes leaves, starting from the
    /// empty one.
    pub open spec fn after(ops: Seq<RegistryOp>) -> IdMapView
        decreases ops.len(),
    {
        if ops.len() == 0 {
            IdMapView::empty()
        } else {
            IdMapView::after(ops.drop_last()).apply(ops.last())
        }
    }

    /// Whether `id` is the identifier of a peer that the sequence adds.
    pub open spec fn adds(ops: Seq<RegistryOp>, id: NodeId) -> bool {
        exists|i: int| 0 <= i < ops.len() && #[trigger] ops[i] is Add && ops[i]->Add_0.id == id
    }

    /// Whether any two different peers that the sequence adds have
    /// different virtual addresses.
    pub open spec fn collision_free(ops: Seq<RegistryOp>) -> bool {
        forall|a: NodeId, b: NodeId|
            #![trigger IdMapView::adds(ops, a), IdMapView::adds(ops, b)]
            IdMapView::adds(ops, a) && IdMapView::adds(ops, b) && a != b ==> virtual_ip(a@)
                != virtual_ip(b@)
    }

    /// After any sequence of additions, removals and shutdowns in which no
    /// two peers share an address, the two indices agree: every indexed
    /// identifier has its own row under its address, and every row stands
    /// under the address of its identifier, which is indexed.
    pub proof fn lemma_consistent_after(ops: Seq<RegistryOp>)
        requires
            IdMapView::collision_free(ops),
        ensures
            IdMapView::after(ops).consistent(),
            forall|id: NodeId| #[trigger]
                IdMapView::after(ops).ip_by_node.contains_key(id) ==> IdMapView::adds(ops, id),
        decreases ops.len(),
    {
        if ops.len() > 0 {
            let earlier = ops.drop_last();
            assert forall|id: NodeId| IdMapView::adds(earlier, id) implies IdMapView::adds(
                ops,
                id,
            ) by {
                let i = choose|i: int|
                    0 <= i < earlier.len() && #[trigger] earlier[i] is Add && earlier[i]->Add_0.id
                        == id;
                assert(ops[i] is Add && ops[i]->Add_0.id == id);
            }
            assert(IdMapView::collision_free(earlier));
            IdMapView::lemma_consistent_after(earlier);
            let before = IdMapView::after(earlier);
            match ops.last() {
                RegistryOp::Add(entry) => {
                    assert(ops[ops.len() - 1] is Add);
                    assert(IdMapView::adds(ops, entry.id));
                    assert(!before.collides(entry.id)) by {
                        if before.collides(entry.id) {
                            let other = choose|other: NodeId| #[trigger]
                                before.ip_by_node.contains_key(other) && other != entry.id
                                    && virtual_ip(other@) == virtual_ip(entry.id@);
                            assert(IdMapView::adds(earlier, other));
                            assert(IdMapView::adds(ops, other));
                        }
                    }
                    before.lemma_add_consistent(entry);
                    assert forall|id: NodeId| #[trigger]
                        before.add(entry).ip_by_node.contains_key(id) implies IdMapView::adds(
                        ops,
                        id,
                    ) by {
                        if id != entry.id {
                            assert(before.ip_by_node.contains_key(id));
                            assert(IdMapView::adds(earlier, id));
                        }
                    }
                },
                RegistryOp::Remove(id) => {
                    before.lemma_remove_consistent(id);
                    assert forall|other: NodeId| #[trigger]
                        before.remove(id).ip_by_node.contains_key(other) implies IdMapView::adds(
                        ops,
                        other,
                    ) by {
                        assert(before.ip_by_node.contains_key(other));
                        assert(IdMapView::adds(earlier, other));
                    }
                },
                RegistryOp::Shutdown => {
                    assert forall|other: NodeId| #[trigger]
                        before.ip_by_node.contains_key(other) implies IdMapView::adds(
                        ops,
                        other,
                    ) by {
                        assert(IdMapView::adds(earlier, other));
                    }
                },
            }
        }
    }
}

/// The registry of known peers.
pub struct IdMap {
    ips: AssocMap<NodeId, Ipv6Address>,
    nodes: AssocMap<Ipv6Address, VirtNode>,
}

impl View for IdMap {
    type V = IdMapView;

    closed spec fn view(&self) -> IdMapView {
        IdMapView { ip_by_node: self.ips@, node_by_ip: self.nodes@ }
    }
}

impl IdMap {
    /// The representation invariant. It implies `self@.wf()`.
    pub closed spec fn wf(&self) -> bool {
        &&& self.ips.wf()
        &&& self.nodes.wf()
        &&& self@.wf()
    }

    /// A registry of which `wf` holds has a view of which it holds.
    pub proof fn lemma_wf_view(&self)
        requires
            self.wf(),
        ensures
            self@.wf(),
    {
    }

    /// A registry without peers.
    pub fn new() -> (m: IdMap)
        ensures
            m.wf(),
            m@ == IdMapView::empty(),
            m@.consistent(),
    {
        IdMap { ips: AssocMap::new(), nodes: AssocMap::new() }
    }

    /// Registers a peer under its derived address and returns its row. A
    /// row registered before for the same identifier is replaced.
    pub fn add(&mut self, entry: NodeEntry) -> (row: VirtNode)
        requires
            old(self).wf(),
        ensures
            final(self).wf(),
            final(self)@ == old(self)@.add(entry),
            row == VirtNode::of_entry(entry),
            old(self)@.consistent() && !old(self)@.collides(entry.id)
                ==> final(self)@.consistent(),
    {
        let ip = to_ipv6(&entry.id.inner);
        let row = VirtNode {
            id: entry.id,
            endpoint: IpEndpoint { addr: IpAddress::Ipv6(ip), port: TCP_BIND_PORT },
            session: entry.session,
            session_slot: entry.slot,
        };
        proof {
            old(self)@.lemma_add_wf(entry);
            if old(self)@.consistent() && !old(self)@.collides(entry.id) {
                old(self)@.lemma_add_consistent(entry);
            }
        }
        self.nodes.insert(ip, row);
        self.ips.insert(entry.id, ip);
        row
    }

    /// Removes an identifier from both indices. Nothing happens when it is
    /// not registered.
    pub fn remove(&mut self, id: &NodeId)
        requires
            old(self).wf(),
        ensures
            final(self).wf(),
            final(self)@ == old(self)@.remove(*id),
            !final(self)@.ip_by_node.contains_key(*id),
            old(self)@.consistent() ==> final(self)@.consistent(),
    {
        proof {
            old(self)@.lemma_remove_wf(*id);
            if old(self)@.consistent() {
                old(self)@.lemma_remove_consistent(*id);
            }
        }
        match self.ips.remove(id) {
            Some(ip) => {
                self.nodes.remove(&ip);
            },
            None => {},
        }
        assert(self@.ip_by_node == old(self)@.remove(*id).ip_by_node);
        assert(self@.node_by_ip == old(self)@.remove(*id).node_by_ip);
    }

    /// The row of an identifier.
    pub fn resolve_by_node(&self, id: &NodeId) -> (r: Result<VirtNode, LayerError>)
        requires
            self.wf(),
        ensures
            r == self@.resolve_by_node(*id),
            self@.consistent() ==> (r is Ok <==> self@.ip_by_node.contains_key(*id)),
            self@.consistent() && r is Ok ==> r->Ok_0.id == *id,
    {
        match self.ips.get(id) {
            Some(ip) => match self.nodes.get(ip) {
                Some(row) => Ok(*row),
                None => Err(LayerError::UnknownNode),
            },
            None => Err(LayerError::UnknownNode),
        }
    }

    /// The row registered under an address, given as its octets.
    pub fn resolve_by_ip(&self, octets: &[u8]) -> (r: Result<VirtNode, LayerError>)
        requires
            self.wf(),
        ensures
            r == self@.resolve_by_ip(octets@),
            r is Ok ==> r->Ok_0.endpoint.addr.octets() == octets@,
    {
        if octets.len() != 16 {
            return Err(LayerError::UnknownAddress);
        }
        let ip = Ipv6Address { octets: padded_array(octets) };
        assert(ip@ =~= octets@) by {
            assert forall|i: int| 0 <= i < 16 implies ip@[i] == octets@[i] by {
                assert(ip.octets@[i] == padded_byte(octets@, i));
            }
        }
        proof {
            assert forall|other: Ipv6Address|
                self@.node_by_ip.contains_key(other) && other@ == octets@ implies other == ip by {
                Ipv6Address::lemma_view_injective(other, ip);
            }
        }
        match self.nodes.get(&ip) {
            Some(row) => Ok(*row),
            None => Err(LayerError::UnknownAddress),
        }
    }
}

} // verus!
