//! Addresses of the overlay network: IPv6 addresses derived from node
//! identifiers, and the endpoints built on them.

use crate::assoc::Key;
use crate::bytes::{array_eq, padded_array, padded_byte};
use vstd::prelude::*;

verus! {

/// The one port on which the overlay's TCP engine listens and to which it
/// connects.
pub const TCP_BIND_PORT: u16 = 1;

/// An IPv6 address, as its sixteen octets in network order.
#[derive(Clone, Copy, Debug, PartialEq, Eq, Hash)]
pub struct Ipv6Address {
    pub octets: [u8; 16],
}

impl View for Ipv6Address {
    type V = Seq<u8>;

    open spec fn view(&self) -> Seq<u8> {
        self.octets@
    }
}

impl Key for Ipv6Address {
    fn same(&self, other: &Ipv6Address) -> (r: bool) {
        array_eq(&self.octets, &other.octets)
    }
}

impl Ipv6Address {
    /// Whether the address has the multicast prefix `ff00::/8`.
    pub open spec fn is_multicast(&self) -> bool {
        self@[0] == 0xff
    }

    /// Whether the address is `::`.
    pub open spec fn is_unspecified(&self) -> bool {
        forall|i: int| 0 <= i < 16 ==> self@[i] == 0
    }

    /// Whether the address is `::1`.
    pub open spec fn is_loopback(&self) -> bool {
        self@[15] == 1 && forall|i: int| 0 <= i < 15 ==> self@[i] == 0
    }

    /// Two addresses with the same octets are the same address.
    pub proof fn lemma_view_injective(a: Ipv6Address, b: Ipv6Address)
        requires
            a@ == b@,
        ensures
            a == b,
    {
        assert(a.octets =~= b.octets);
    }
}

/// An address of the internet layer.
#[derive(Clone, Copy, Debug, PartialEq, Eq, Hash)]
pub enum IpAddress {
    /// No address.
    Unspecified,
    /// An IPv4 address, as its four octets.
    Ipv4([u8; 4]),
    /// An IPv6 address.
    Ipv6(Ipv6Address),
}

impl IpAddress {
    /// The octets of the address: none, four or sixteen.
    pub open spec fn octets(&self) -> Seq<u8> {
        match self {
            IpAddress::Unspecified => Seq::empty(),
            IpAddress::Ipv4(a) => a@,
            IpAddress::Ipv6(a) => a@,
        }
    }

    /// The octets of the address, in network order.
    pub fn as_bytes(&self) -> (bytes: &[u8])
        ensures
            bytes@ == self.octets(),
    {
        match self {
            IpAddress::Unspecified => {
                let none: &[u8] = &[];
                assert(none@ =~= Seq::<u8>::empty());
                none
            },
            IpAddress::Ipv4(a) => a.as_slice(),
            IpAddress::Ipv6(a) => a.octets.as_slice(),
        }
    }
}

/// An address and a port.
#[derive(Clone, Copy, Debug, PartialEq, Eq, Hash)]
pub struct IpEndpoint {
    pub addr: IpAddress,
    pub port: u16,
}

impl IpEndpoint {
    /// The endpoint at which the node with this virtual address listens.
    pub open spec fn virtual_endpoint(ip: Ipv6Address) -> IpEndpoint {
        IpEndpoint { addr: IpAddress::Ipv6(ip), port: TCP_BIND_PORT }
    }
}

/// The source bytes cut or zero-padded to sixteen, with byte 0 reduced
/// modulo `0xff`.
pub open spec fn spec_folded(bytes: Seq<u8>) -> Seq<u8> {
    Seq::new(
        16,
        |i: int|
            if i == 0 {
                (padded_byte(bytes, 0) % 0xff) as u8
            } else {
                padded_byte(bytes, i)
            },
    )
}

/// Whether the first fifteen octets are zero.
pub open spec fn leading_zero(octets: Seq<u8>) -> bool {
    forall|i: int| 0 <= i < 15 ==> octets[i] == 0
}

/// The octets of the virtual address derived from an identifier's bytes:
/// the first sixteen bytes, zero-padded; byte 0 modulo `0xff`; and `::` and
/// `::1` moved to `::2`.
pub open spec fn spec_to_ipv6(bytes: Seq<u8>) -> Seq<u8> {
    let folded = spec_folded(bytes);
    if leading_zero(folded) && folded[15] < 2 {
        folded.update(15, 2u8)
    } else {
        folded
    }
}

/// The virtual address derived from an identifier's bytes.
pub open spec fn virtual_ip(bytes: Seq<u8>) -> Ipv6Address {
    let o = spec_to_ipv6(bytes);
    Ipv6Address {
        octets: [
            o[0],
            o[1],
            o[2],
            o[3],
            o[4],
            o[5],
            o[6],
            o[7],
            o[8],
            o[9],
            o[10],
            o[11],
            o[12],
            o[13],
            o[14],
            o[15],
        ],
    }
}

/// The octets of a derived address are those of the derivation rule.
pub proof fn lemma_virtual_ip_octets(bytes: Seq<u8>)
    ensures
        virtual_ip(bytes)@ == spec_to_ipv6(bytes),
{
    assert(virtual_ip(bytes)@ =~= spec_to_ipv6(bytes));
}

/// A derived address is never a multicast address, never `::` and never
/// `::1`, whatever bytes it is derived from.
pub proof fn lemma_virtual_ip_is_unicast(bytes: Seq<u8>)
    ensures
        !virtual_ip(bytes).is_multicast(),
        !virtual_ip(bytes).is_unspecified(),
        !virtual_ip(bytes).is_loopback(),
{
    lemma_virtual_ip_octets(bytes);
    let folded = spec_folded(bytes);
    let ip = virtual_ip(bytes);
    assert(folded[0] != 0xff);
    if leading_zero(folded) && folded[15] < 2 {
        assert(ip@[15] == 2);
    } else if leading_zero(folded) {
        assert(ip@[15] >= 2);
    } else {
        let i = choose|i: int| 0 <= i < 15 && folded[i] != 0;
        assert(ip@[i] != 0);
    }
}

/// Derives the virtual IPv6 address of a node from the bytes of its
/// identifier. Any two peers compute the same address from the same bytes.
pub fn to_ipv6(bytes: &[u8]) -> (addr: Ipv6Address)
    ensures
        addr == virtual_ip(bytes@),
        addr@ == spec_to_ipv6(bytes@),
        !addr.is_multicast(),
        !addr.is_unspecified(),
        !addr.is_loopback(),
{
    let mut octets: [u8; 16] = padded_array(bytes);
    octets[0] = octets[0] % 0xff;
    assert(octets@ =~= spec_folded(bytes@));
    let mut zero = true;
    let mut k: usize = 0;
    while k < 15
        invariant
            k <= 15,
            zero == (forall|j: int| 0 <= j < k ==> octets@[j] == 0),
        decreases 15 - k,
    {
        if octets[k] != 0 {
            zero = false;
        }
        k += 1;
    }
    if zero && octets[15] < 2 {
        octets[15] = 2;
    }
    let addr = Ipv6Address { octets };
    proof {
        lemma_virtual_ip_octets(bytes@);
        lemma_virtual_ip_is_unicast(bytes@);
        assert(addr@ =~= spec_to_ipv6(bytes@));
        Ipv6Address::lemma_view_injective(addr, virtual_ip(bytes@));
    }
    addr
}

} // verus!
