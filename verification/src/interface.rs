//! The description of the network interface that the TCP engine runs on: a
//! synthetic Ethernet device with a hardware address, the node's addresses
//! and its routes.

use crate::address::{IpAddress, Ipv6Address};
use crate::assoc::{distinct_keys, entries_map, AssocMap, Key};
use crate::bytes::array_eq;
use vstd::prelude::*;

verus! {

/// An Ethernet address, as its six octets.
#[derive(Clone, Copy, Debug, PartialEq, Eq, Hash)]
pub struct EthernetAddress(pub [u8; 6]);

impl EthernetAddress {
    /// Whether the address names one station: the group bit of the first
    /// octet is clear.
    pub open spec fn is_unicast(&self) -> bool {
        self.0@[0] & 0x01 == 0
    }

    /// The same address with the group bit cleared.
    pub open spec fn to_unicast(&self) -> Seq<u8> {
        self.0@.update(0, self.0@[0] & 0xfe)
    }
}

/// The address of a device on its link.
#[derive(Clone, Copy, Debug, PartialEq, Eq)]
pub enum HardwareAddress {
    /// An Ethernet address.
    Ethernet(EthernetAddress),
}

impl HardwareAddress {
    /// The octets of the address.
    pub open spec fn octets(&self) -> Seq<u8> {
        match self {
            HardwareAddress::Ethernet(a) => a.0@,
        }
    }

    /// Whether the address names one station.
    pub open spec fn is_unicast(&self) -> bool {
        match self {
            HardwareAddress::Ethernet(a) => a.is_unicast(),
        }
    }
}

/// Whether an interface takes the address as one of its own: it must name
/// one node, or no node at all.
pub open spec fn assignable(address: IpAddress) -> bool {
    match address {
        IpAddress::Unspecified => true,
        IpAddress::Ipv4(a) => {
            &&& !(a@[0] == 255 && a@[1] == 255 && a@[2] == 255 && a@[3] == 255)
            &&& a@[0] & 0xf0 != 224
        },
        IpAddress::Ipv6(a) => !a.is_multicast(),
    }
}

/// The longest prefix that a block of the address's family can have.
pub open spec fn max_prefix_len(address: IpAddress) -> int {
    match address {
        IpAddress::Unspecified => -1,
        IpAddress::Ipv4(_) => 32,
        IpAddress::Ipv6(_) => 128,
    }
}

/// A block of addresses: an address and the length of the prefix that the
/// block shares with it.
#[derive(Clone, Copy, Debug, PartialEq, Eq, Hash)]
pub struct IpCidr {
    address: IpAddress,
    prefix_len: u8,
}

impl IpCidr {
    /// A block is based on an IPv4 or IPv6 address and has a prefix no
    /// longer than the address.
    pub closed spec fn wf(&self) -> bool {
        0 <= self.prefix_len <= max_prefix_len(self.address)
    }

    /// The address that the block is based on.
    pub closed spec fn spec_address(&self) -> IpAddress {
        self.address
    }

    /// The length of the block's prefix, in bits.
    pub closed spec fn spec_prefix_len(&self) -> u8 {
        self.prefix_len
    }

    /// The block of the address with the given prefix length.
    pub closed spec fn of(address: IpAddress, prefix_len: u8) -> IpCidr {
        IpCidr { address, prefix_len }
    }

    /// The block of the address with the given prefix length.
    pub fn new(address: IpAddress, prefix_len: u8) -> (cidr: IpCidr)
        requires
            prefix_len <= max_prefix_len(address),
        ensures
            cidr == IpCidr::of(address, prefix_len),
            cidr.wf(),
            cidr.spec_address() == address,
            cidr.spec_prefix_len() == prefix_len,
    {
        IpCidr { address, prefix_len }
    }

    /// The address that the block is based on.
    #[verifier::when_used_as_spec(spec_address)]
    pub fn address(&self) -> (address: IpAddress)
        ensures
            address == self.spec_address(),
    {
        self.address
    }

    /// The length of the block's prefix, in bits.
    #[verifier::when_used_as_spec(spec_prefix_len)]
    pub fn prefix_len(&self) -> (len: u8)
        ensures
            len == self.spec_prefix_len(),
    {
        self.prefix_len
    }
}

impl Key for IpCidr {
    fn same(&self, other: &IpCidr) -> (r: bool) {
        if self.prefix_len != other.prefix_len {
            return false;
        }
        match (self.address, other.address) {
            (IpAddress::Unspecified, IpAddress::Unspecified) => true,
            (IpAddress::Ipv4(a), IpAddress::Ipv4(b)) => array_eq(&a, &b),
            (IpAddress::Ipv6(a), IpAddress::Ipv6(b)) => array_eq(&a.octets, &b.octets),
            _ => false,
        }
    }
}

/// A way out of the node's own network: the router that takes what is sent
/// to a block of addresses.
#[derive(Clone, Copy, Debug, PartialEq, Eq)]
pub struct Route {
    /// The router.
    pub via_router: IpAddress,
    /// Until when the route is preferred, in microseconds of the engine's
    /// clock; `None` is for ever.
    pub preferred_until: Option<i64>,
    /// When the route expires, in microseconds of the engine's clock;
    /// `None` is never.
    pub expires_at: Option<i64>,
}

impl Route {
    /// The route through an IPv6 gateway that never expires.
    pub open spec fn ipv6_gateway(gateway: Ipv6Address) -> Route {
        Route { via_router: IpAddress::Ipv6(gateway), preferred_until: None, expires_at: None }
    }

    /// A route through the IPv6 gateway, with no expiry.
    pub fn new_ipv6_gateway(gateway: Ipv6Address) -> (route: Route)
        ensures
            route == Route::ipv6_gateway(gateway),
    {
        Route { via_router: IpAddress::Ipv6(gateway), preferred_until: None, expires_at: None }
    }
}

/// What the TCP engine's interface is made of.
pub struct CaptureInterface {
    hardware_addr: HardwareAddress,
    ip_addrs: Vec<IpCidr>,
    routes: AssocMap<IpCidr, Route>,
}

impl CaptureInterface {
    /// The representation invariant: the interface can take each of its
    /// addresses.
    pub closed spec fn wf(&self) -> bool {
        &&& self.routes.wf()
        &&& forall|i: int|
            0 <= i < self.ip_addrs@.len() ==> assignable((#[trigger] self.ip_addrs@[i]).address)
    }

    /// The interface's hardware address.
    pub closed spec fn spec_hardware_addr(&self) -> HardwareAddress {
        self.hardware_addr
    }

    /// The addresses assigned to the interface, in the order in which they
    /// were assigned.
    pub closed spec fn spec_ip_addrs(&self) -> Seq<IpCidr> {
        self.ip_addrs@
    }

    /// The interface's routes: the route of each block that has one.
    pub closed spec fn spec_routes(&self) -> Map<IpCidr, Route> {
        self.routes@
    }

    /// Every address of a well-formed interface is one it can take.
    pub proof fn lemma_addresses_assignable(&self)
        requires
            self.wf(),
        ensures
            forall|i: int|
                0 <= i < self.spec_ip_addrs().len() ==> assignable(
                    (#[trigger] self.spec_ip_addrs()[i]).spec_address(),
                ),
    {
    }

    /// The interface's hardware address.
    #[verifier::when_used_as_spec(spec_hardware_addr)]
    pub fn hardware_addr(&self) -> (mac: HardwareAddress)
        ensures
            mac == self.spec_hardware_addr(),
    {
        self.hardware_addr
    }

    /// The addresses assigned to the interface.
    pub fn ip_addrs(&self) -> (addrs: &Vec<IpCidr>)
        ensures
            addrs@ == self.spec_ip_addrs(),
    {
        &self.ip_addrs
    }

    /// The interface's routes: every block that has a route once, with its
    /// route.
    pub fn routes(&self) -> (routes: &Vec<(IpCidr, Route)>)
        requires
            self.wf(),
        ensures
            distinct_keys(routes@),
            entries_map(routes@) == self.spec_routes(),
    {
        self.routes.entries()
    }

    /// The route of a block of addresses, if the interface has one.
    pub fn route(&self, net_ip: &IpCidr) -> (route: Option<Route>)
        requires
            self.wf(),
        ensures
            route == if self.spec_routes().contains_key(*net_ip) {
                Some(self.spec_routes()[*net_ip])
            } else {
                None
            },
    {
        match self.routes.get(net_ip) {
            Some(route) => Some(*route),
            None => None,
        }
    }
}

/// Creates a default network interface: the hardware address and nothing
/// else.
pub fn default_iface(mac: HardwareAddress) -> (iface: CaptureInterface)
    ensures
        iface.wf(),
        iface.spec_hardware_addr() == mac,
        iface.spec_ip_addrs() == Seq::<IpCidr>::empty(),
        iface.spec_routes() == Map::<IpCidr, Route>::empty(),
{
    CaptureInterface { hardware_addr: mac, ip_addrs: Vec::new(), routes: AssocMap::new() }
}

/// Assigns a new interface IP address, after those that the interface has.
pub fn add_iface_address(iface: &mut CaptureInterface, node_ip: IpCidr)
    requires
        old(iface).wf(),
        assignable(node_ip.spec_address()),
    ensures
        final(iface).wf(),
        final(iface).spec_ip_addrs() == old(iface).spec_ip_addrs().push(node_ip),
        final(iface).spec_hardware_addr() == old(iface).spec_hardware_addr(),
        final(iface).spec_routes() == old(iface).spec_routes(),
{
    iface.ip_addrs.push(node_ip);
}

/// Adds a new IP route, in place of the route that the block had.
pub fn add_iface_route(iface: &mut CaptureInterface, net_ip: IpCidr, route: Route)
    requires
        old(iface).wf(),
    ensures
        final(iface).wf(),
        final(iface).spec_routes() == old(iface).spec_routes().insert(net_ip, route),
        final(iface).spec_hardware_addr() == old(iface).spec_hardware_addr(),
        final(iface).spec_ip_addrs() == old(iface).spec_ip_addrs(),
{
    iface.routes.insert(net_ip, route);
}

/// Reads an Ethernet address from exactly six octets, through
/// `smoltcp::wire::EthernetAddress::from_bytes`, which copies them in order
/// and panics on any other length.
#[verifier::external_body]
fn ethernet_from_bytes(data: &[u8]) -> (mac: EthernetAddress)
    requires
        data@.len() == 6,
    ensures
        mac.0@ == data@,
{
    EthernetAddress(smoltcp::wire::EthernetAddress::from_bytes(data).0)
}

/// Asks `smoltcp::wire::EthernetAddress::is_unicast` whether the address
/// names one station. It answers that the address is neither the broadcast
/// address nor has the group bit set; the broadcast address has that bit
/// set, so the answer is whether the bit is clear.
#[verifier::external_body]
fn ethernet_is_unicast(mac: &EthernetAddress) -> (unicast: bool)
    ensures
        unicast == mac.is_unicast(),
{
    smoltcp::wire::EthernetAddress(mac.0).is_unicast()
}

/// Draws six octets from `rand::random`. Nothing is known of them.
#[verifier::external_body]
fn random_octets() -> (octets: [u8; 6]) {
    rand::random::<[u8; 6]>()
}

/// Makes an Ethernet address one that names a single station, by clearing
/// the group bit of its first octet where it is set.
pub fn unicast(ethernet: EthernetAddress) -> (mac: EthernetAddress)
    ensures
        mac.0@ == ethernet.to_unicast(),
        mac.is_unicast(),
        ethernet.is_unicast() ==> mac == ethernet,
{
    let mut mac = ethernet;
    let first: u8 = mac.0[0];
    assert((first & 0xfe) & 0x01 == 0) by (bit_vector);
    assert(first & 0x01 == 0 ==> first & 0xfe == first) by (bit_vector);
    if !ethernet_is_unicast(&mac) {
        mac.0[0] = first & 0xfe;
    }
    assert(mac.0@ =~= ethernet.to_unicast());
    assert(ethernet.is_unicast() ==> mac.0 =~= ethernet.0);
    mac
}

/// The hardware address for a device: the six octets given, or six random
/// octets where `mac` has another length; in both cases made to name a
/// single station.
pub fn to_mac(mac: &[u8]) -> (address: HardwareAddress)
    ensures
        address.is_unicast(),
        mac@.len() == 6 ==> address.octets() == mac@.update(0, mac@[0] & 0xfe),
{
    let ethernet = if mac.len() == 6 {
        ethernet_from_bytes(mac)
    } else {
        let octets = random_octets();
        ethernet_from_bytes(octets.as_slice())
    };
    HardwareAddress::Ethernet(unicast(ethernet))
}

/// A hardware address for the device that holds the IP address. No IP
/// address has six octets, so the address is drawn at random; it names a
/// single station.
pub fn ip_to_mac(ip: IpAddress) -> (address: HardwareAddress)
    ensures
        address.is_unicast(),
{
    match ip {
        IpAddress::Ipv4(a) => to_mac(a.as_slice()),
        IpAddress::Ipv6(a) => to_mac(a.octets.as_slice()),
        IpAddress::Unspecified => {
            let octets = random_octets();
            to_mac(octets.as_slice())
        },
    }
}

} // verus!
