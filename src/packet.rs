//! Dissection of link-layer frames into flow descriptors.
//!
//! A frame is decoded layer by layer (Ethernet, an optional 802.1Q tag,
//! IPv4 or IPv6, then TCP or UDP). Every step may fail, and a failure at
//! any step means that no descriptor is produced.

use pnet::packet::ethernet::EthernetPacket;
use pnet::packet::ipv4::Ipv4Packet;
use pnet::packet::ipv6::Ipv6Packet;
use pnet::packet::tcp::TcpPacket;
use pnet::packet::udp::UdpPacket;
use pnet::packet::vlan::VlanPacket;
use pnet::packet::Packet;
use vstd::prelude::*;

verus! {

pub const ETHERTYPE_IPV4: u16 = 0x0800;

pub const ETHERTYPE_IPV6: u16 = 0x86dd;

pub const ETHERTYPE_VLAN: u16 = 0x8100;

pub const ETHERNET_HEADER_LEN: usize = 14;

pub const VLAN_TAG_LEN: usize = 4;

pub const IPV4_HEADER_LEN: usize = 20;

pub const IPV6_HEADER_LEN: usize = 40;

pub const TCP_HEADER_LEN: usize = 20;

pub const UDP_HEADER_LEN: usize = 8;

#[derive(Debug, Clone, Copy, PartialEq, Eq, Structural)]
pub enum IpVersion {
    V4,
    V6,
}

/// A destination address, as the big-endian number its octets spell.
#[derive(Debug, Clone, Copy, PartialEq, Eq, Structural)]
pub enum IpAddress {
    V4(u32),
    V6(u128),
}

#[derive(Debug, Clone, Copy, PartialEq, Eq, Structural)]
pub enum Transport {
    Tcp,
    Udp,
}

/// The destination of the flow that one frame belongs to.
#[derive(Debug, Clone, Copy, PartialEq, Eq, Structural)]
pub struct FlowDescriptor {
    pub network_version: IpVersion,
    pub destination_address: IpAddress,
    pub destination_port: u16,
    pub transport: Transport,
}

/// The big-endian 16-bit number at `s[i]`, `s[i + 1]`.
pub open spec fn be16(s: Seq<u8>, i: int) -> u16 {
    (s[i] as int * 256 + s[i + 1] as int) as u16
}

/// The big-endian number that the bytes of `s` spell.
pub open spec fn be_value(s: Seq<u8>) -> nat
    decreases s.len(),
{
    if s.len() == 0 {
        0
    } else {
        be_value(s.drop_last()) * 256 + s.last() as nat
    }
}

/// Bytes `start..` of `s`, cut at `start + len` where `s` goes on longer.
pub open spec fn bounded_payload(s: Seq<u8>, start: int, len: int) -> Seq<u8> {
    if s.len() <= start {
        Seq::empty()
    } else if start + len < s.len() {
        s.subrange(start, start + len)
    } else {
        s.subrange(start, s.len() as int)
    }
}

/// An Ethernet header: the EtherType and the bytes after the header.
pub open spec fn ethernet_spec(s: Seq<u8>) -> Option<(u16, Seq<u8>)> {
    if s.len() >= ETHERNET_HEADER_LEN {
        Some((be16(s, 12), s.subrange(ETHERNET_HEADER_LEN as int, s.len() as int)))
    } else {
        None
    }
}

/// An 802.1Q tag: the inner EtherType and the bytes after the tag.
pub open spec fn vlan_spec(s: Seq<u8>) -> Option<(u16, Seq<u8>)> {
    if s.len() >= VLAN_TAG_LEN {
        Some((be16(s, 2), s.subrange(VLAN_TAG_LEN as int, s.len() as int)))
    } else {
        None
    }
}

/// The header length of an IPv4 header in bytes, as its IHL field gives it.
pub open spec fn ipv4_ihl_bytes(s: Seq<u8>) -> int {
    4 * (s[0] % 16) as int
}

/// Where the payload of an IPv4 datagram starts: after the options, and
/// never inside the fixed header.
pub open spec fn ipv4_payload_start(s: Seq<u8>) -> int {
    if ipv4_ihl_bytes(s) < IPV4_HEADER_LEN {
        IPV4_HEADER_LEN as int
    } else {
        ipv4_ihl_bytes(s)
    }
}

/// The payload length that the total-length field leaves after the header.
pub open spec fn ipv4_payload_len(s: Seq<u8>) -> int {
    let l = be16(s, 2) as int - ipv4_ihl_bytes(s);
    if l < 0 {
        0
    } else {
        l
    }
}

/// An IPv4 header: the destination address and the payload.
pub open spec fn ipv4_spec(s: Seq<u8>) -> Option<(u32, Seq<u8>)> {
    if s.len() >= IPV4_HEADER_LEN {
        Some(
            (
                be_value(s.subrange(16, 20)) as u32,
                bounded_payload(s, ipv4_payload_start(s), ipv4_payload_len(s)),
            ),
        )
    } else {
        None
    }
}

/// An IPv6 header: the destination address and the payload.
pub open spec fn ipv6_spec(s: Seq<u8>) -> Option<(u128, Seq<u8>)> {
    if s.len() >= IPV6_HEADER_LEN {
        Some(
            (
                be_value(s.subrange(24, 40)) as u128,
                bounded_payload(s, IPV6_HEADER_LEN as int, be16(s, 4) as int),
            ),
        )
    } else {
        None
    }
}

/// The destination port of a TCP header, if `s` holds one.
pub open spec fn tcp_port_spec(s: Seq<u8>) -> Option<u16> {
    if s.len() >= TCP_HEADER_LEN {
        Some(be16(s, 2))
    } else {
        None
    }
}

/// The destination port of a UDP header, if `s` holds one.
pub open spec fn udp_port_spec(s: Seq<u8>) -> Option<u16> {
    if s.len() >= UDP_HEADER_LEN {
        Some(be16(s, 2))
    } else {
        None
    }
}

/// The transport's destination port: TCP is tried first, then UDP.
pub open spec fn transport_spec(s: Seq<u8>) -> Option<(u16, Transport)> {
    match tcp_port_spec(s) {
        Some(p) => Some((p, Transport::Tcp)),
        None => match udp_port_spec(s) {
            Some(p) => Some((p, Transport::Udp)),
            None => None,
        },
    }
}

pub open spec fn descriptor_of(
    version: IpVersion,
    address: IpAddress,
    transport: Option<(u16, Transport)>,
) -> Option<FlowDescriptor> {
    match transport {
        Some((port, t)) => Some(
            FlowDescriptor {
                network_version: version,
                destination_address: address,
                destination_port: port,
                transport: t,
            },
        ),
        None => None,
    }
}

/// The descriptor of an IP datagram `s` carried under `ethertype`.
pub open spec fn ip_spec(ethertype: u16, s: Seq<u8>) -> Option<FlowDescriptor> {
    if ethertype == ETHERTYPE_IPV4 {
        match ipv4_spec(s) {
            Some((a, p)) => descriptor_of(IpVersion::V4, IpAddress::V4(a), transport_spec(p)),
            None => None,
        }
    } else if ethertype == ETHERTYPE_IPV6 {
        match ipv6_spec(s) {
            Some((a, p)) => descriptor_of(IpVersion::V6, IpAddress::V6(a), transport_spec(p)),
            None => None,
        }
    } else {
        None
    }
}

/// The descriptor of a whole frame; one VLAN tag is looked through.
pub open spec fn dissect_spec(frame: Seq<u8>) -> Option<FlowDescriptor> {
    match ethernet_spec(frame) {
        Some((t, p)) => if t == ETHERTYPE_VLAN {
            match vlan_spec(p) {
                Some((t2, p2)) => ip_spec(t2, p2),
                None => None,
            }
        } else {
            ip_spec(t, p)
        },
        None => None,
    }
}

/// A socket address: an IP address and a port.
#[derive(Debug, Clone, Copy, PartialEq, Eq, Structural)]
pub struct Endpoint {
    pub address: IpAddress,
    pub port: u16,
}

/// The endpoint that a descriptor names.
pub open spec fn target_of(d: FlowDescriptor) -> Endpoint {
    Endpoint { address: d.destination_address, port: d.destination_port }
}

/// An IP datagram, borrowed from the frame it was found in.
pub enum SelfPacket<'a> {
    Ipv4(&'a [u8]),
    Ipv6(&'a [u8]),
}

impl<'a> SelfPacket<'a> {
    /// The EtherType that announces this datagram.
    pub open spec fn ethertype(&self) -> u16 {
        match self {
            SelfPacket::Ipv4(_) => ETHERTYPE_IPV4,
            SelfPacket::Ipv6(_) => ETHERTYPE_IPV6,
        }
    }

    pub open spec fn bytes(&self) -> Seq<u8> {
        match self {
            SelfPacket::Ipv4(p) => p@,
            SelfPacket::Ipv6(p) => p@,
        }
    }

    pub fn new_ipv4(packet: &'a [u8]) -> (r: Self)
        ensures
            r == SelfPacket::Ipv4(packet),
    {
        SelfPacket::Ipv4(packet)
    }

    pub fn new_ipv6(packet: &'a [u8]) -> (r: Self)
        ensures
            r == SelfPacket::Ipv6(packet),
    {
        SelfPacket::Ipv6(packet)
    }

    /// The bytes of the whole datagram.
    pub fn custom_packet(&self) -> (r: &[u8])
        ensures
            r@ == self.bytes(),
    {
        match self {
            SelfPacket::Ipv4(p) => p,
            SelfPacket::Ipv6(p) => p,
        }
    }

    /// The destination address and port of the datagram, where its header
    /// and a TCP or UDP header can be read.
    pub fn get_target_addr(&self) -> (r: Option<Endpoint>)
        ensures
            r == (match ip_spec(self.ethertype(), self.bytes()) {
                Some(d) => Some(target_of(d)),
                None => None,
            }),
    {
        match self {
            SelfPacket::Ipv4(packet) => match ipv4_fields(packet) {
                Some((a, p)) => match Self::get_transport_port(p.as_slice()) {
                    Some(port) => Some(Endpoint { address: IpAddress::V4(a), port }),
                    None => None,
                },
                None => None,
            },
            SelfPacket::Ipv6(packet) => match ipv6_fields(packet) {
                Some((a, p)) => match Self::get_transport_port(p.as_slice()) {
                    Some(port) => Some(Endpoint { address: IpAddress::V6(a), port }),
                    None => None,
                },
                None => None,
            },
        }
    }

    fn get_transport_port(payload: &[u8]) -> (r: Option<u16>)
        ensures
            r == (match transport_spec(payload@) {
                Some((port, _)) => Some(port),
                None => None,
            }),
    {
        match transport_port(payload) {
            Some((port, _)) => Some(port),
            None => None,
        }
    }
}

pub open spec fn layer_view<A>(r: Option<(A, Vec<u8>)>) -> Option<(A, Seq<u8>)> {
    match r {
        Some((a, v)) => Some((a, v@)),
        None => None,
    }
}

/// Relies on pnet's `EthernetPacket`: `new` accepts 14 bytes or more, the
/// EtherType is bytes 12..14 big-endian, and the payload is all that follows.
#[verifier::external_body]
fn ethernet_fields(s: &[u8]) -> (r: Option<(u16, Vec<u8>)>)
    ensures
        layer_view(r) == ethernet_spec(s@),
{
    match EthernetPacket::new(s) {
        Some(p) => Some((p.get_ethertype().0, p.payload().to_vec())),
        None => None,
    }
}

/// Relies on pnet's `VlanPacket`: `new` accepts 4 bytes or more, the inner
/// EtherType is bytes 2..4 big-endian, and the payload is all that follows.
#[verifier::external_body]
fn vlan_fields(s: &[u8]) -> (r: Option<(u16, Vec<u8>)>)
    ensures
        layer_view(r) == vlan_spec(s@),
{
    match VlanPacket::new(s) {
        Some(p) => Some((p.get_ethertype().0, p.payload().to_vec())),
        None => None,
    }
}

/// Relies on pnet's `Ipv4Packet`: `new` accepts 20 bytes or more, the
/// destination is bytes 16..20, and the payload starts after the options and
/// runs for the total length less the header, cut at the buffer's end.
#[verifier::external_body]
fn ipv4_fields(s: &[u8]) -> (r: Option<(u32, Vec<u8>)>)
    ensures
        layer_view(r) == ipv4_spec(s@),
{
    match Ipv4Packet::new(s) {
        Some(p) => Some((u32::from(p.get_destination()), p.payload().to_vec())),
        None => None,
    }
}

/// Relies on pnet's `Ipv6Packet`: `new` accepts 40 bytes or more, the
/// destination is bytes 24..40, and the payload starts at byte 40 and runs
/// for the payload-length field, cut at the buffer's end.
#[verifier::external_body]
fn ipv6_fields(s: &[u8]) -> (r: Option<(u128, Vec<u8>)>)
    ensures
        layer_view(r) == ipv6_spec(s@),
{
    match Ipv6Packet::new(s) {
        Some(p) => Some((u128::from(p.get_destination()), p.payload().to_vec())),
        None => None,
    }
}

/// Relies on pnet's `TcpPacket`: `new` accepts 20 bytes or more, and the
/// destination port is bytes 2..4 big-endian.
#[verifier::external_body]
fn tcp_destination(s: &[u8]) -> (r: Option<u16>)
    ensures
        r == tcp_port_spec(s@),
{
    match TcpPacket::new(s) {
        Some(p) => Some(p.get_destination()),
        None => None,
    }
}

/// Relies on pnet's `UdpPacket`: `new` accepts 8 bytes or more, and the
/// destination port is bytes 2..4 big-endian.
#[verifier::external_body]
fn udp_destination(s: &[u8]) -> (r: Option<u16>)
    ensures
        r == udp_port_spec(s@),
{
    match UdpPacket::new(s) {
        Some(p) => Some(p.get_destination()),
        None => None,
    }
}

/// The destination port of a transport header, trying TCP before UDP.
pub fn transport_port(payload: &[u8]) -> (r: Option<(u16, Transport)>)
    ensures
        r == transport_spec(payload@),
{
    match tcp_destination(payload) {
        Some(p) => Some((p, Transport::Tcp)),
        None => match udp_destination(payload) {
            Some(p) => Some((p, Transport::Udp)),
            None => None,
        },
    }
}

fn with_transport(version: IpVersion, address: IpAddress, payload: &[u8]) -> (r: Option<
    FlowDescriptor,
>)
    ensures
        r == descriptor_of(version, address, transport_spec(payload@)),
{
    match transport_port(payload) {
        Some((port, t)) => Some(
            FlowDescriptor {
                network_version: version,
                destination_address: address,
                destination_port: port,
                transport: t,
            },
        ),
        None => None,
    }
}

/// The descriptor of an IP datagram carried under `ethertype`; only IPv4 and
/// IPv6 are accepted.
pub fn dissect_ip(ethertype: u16, datagram: &[u8]) -> (r: Option<FlowDescriptor>)
    ensures
        r == ip_spec(ethertype, datagram@),
{
    if ethertype == ETHERTYPE_IPV4 {
        match ipv4_fields(datagram) {
            Some((a, p)) => with_transport(IpVersion::V4, IpAddress::V4(a), p.as_slice()),
            None => None,
        }
    } else if ethertype == ETHERTYPE_IPV6 {
        match ipv6_fields(datagram) {
            Some((a, p)) => with_transport(IpVersion::V6, IpAddress::V6(a), p.as_slice()),
            None => None,
        }
    } else {
        None
    }
}

/// The destination of the flow that `frame` belongs to, or `None` where any
/// layer of it is missing, truncated or of a kind that is not handled.
pub fn dissect(frame: &[u8]) -> (r: Option<FlowDescriptor>)
    ensures
        r == dissect_spec(frame@),
{
    match ethernet_fields(frame) {
        Some((t, p)) => {
            if t == ETHERTYPE_VLAN {
                match vlan_fields(p.as_slice()) {
                    Some((t2, p2)) => dissect_ip(t2, p2.as_slice()),
                    None => None,
                }
            } else {
                dissect_ip(t, p.as_slice())
            }
        },
        None => None,
    }
}

/// A frame that holds Ethernet, a full IPv4 header whose total length the
/// frame covers, and a TCP header inside that length.
pub open spec fn is_ipv4_tcp_frame(f: Seq<u8>) -> bool {
    &&& f.len() >= ETHERNET_HEADER_LEN + IPV4_HEADER_LEN
    &&& be16(f, 12) == ETHERTYPE_IPV4
    &&& ipv4_ihl_bytes(f.subrange(14, f.len() as int)) >= IPV4_HEADER_LEN
    &&& be16(f, 16) as int >= ipv4_ihl_bytes(f.subrange(14, f.len() as int)) + TCP_HEADER_LEN
    &&& f.len() >= ETHERNET_HEADER_LEN + be16(f, 16) as int
}

/// For every well-formed Ethernet + IPv4 + TCP frame the descriptor carries
/// the IPv4 destination field and the TCP destination-port field.
pub proof fn lemma_ipv4_tcp_destination(f: Seq<u8>)
    requires
        is_ipv4_tcp_frame(f),
    ensures
        ({
            let tcp_at = 14 + ipv4_ihl_bytes(f.subrange(14, f.len() as int));
            dissect_spec(f) == Some(
                FlowDescriptor {
                    network_version: IpVersion::V4,
                    destination_address: IpAddress::V4(be_value(f.subrange(30, 34)) as u32),
                    destination_port: be16(f, tcp_at + 2),
                    transport: Transport::Tcp,
                },
            )
        }),
{
    let ip = f.subrange(14, f.len() as int);
    let ihl = ipv4_ihl_bytes(ip);
    assert(be16(ip, 2) == be16(f, 16));
    assert(ip.subrange(16, 20) =~= f.subrange(30, 34));
    let pay = bounded_payload(ip, ipv4_payload_start(ip), ipv4_payload_len(ip));
    assert(pay.len() >= TCP_HEADER_LEN);
    assert(pay[2] == f[14 + ihl + 2] && pay[3] == f[14 + ihl + 3]);
}

/// Every frame that ends before the header of some layer it announces is
/// complete yields no descriptor: the Ethernet header, the VLAN tag, the IP
/// header, or the shortest transport header after it.
pub proof fn lemma_truncated_frame(f: Seq<u8>)
    requires
        f.len() < ETHERNET_HEADER_LEN || (be16(f, 12) == ETHERTYPE_IPV4 && f.len()
            < ETHERNET_HEADER_LEN + ipv4_payload_start(f.subrange(14, f.len() as int))
            + UDP_HEADER_LEN) || (be16(f, 12) == ETHERTYPE_IPV6 && f.len() < 62) || (be16(f, 12)
            == ETHERTYPE_VLAN && f.len() < 18) || (be16(f, 12) == ETHERTYPE_VLAN && be16(f, 16)
            == ETHERTYPE_IPV4 && f.len() < 18 + ipv4_payload_start(f.subrange(18, f.len() as int))
            + UDP_HEADER_LEN) || (be16(f, 12) == ETHERTYPE_VLAN && be16(f, 16) == ETHERTYPE_IPV6
            && f.len() < 66),
    ensures
        dissect_spec(f).is_none(),
{
    if f.len() >= ETHERNET_HEADER_LEN {
        let p = f.subrange(14, f.len() as int);
        if be16(f, 12) == ETHERTYPE_VLAN {
            if f.len() >= 18 {
                assert(be16(p, 2) == be16(f, 16));
                let q = p.subrange(4, p.len() as int);
                assert(q =~= f.subrange(18, f.len() as int));
                lemma_short_datagram(be16(f, 16), q);
            }
        } else {
            lemma_short_datagram(be16(f, 12), p);
        }
    }
}

/// An IP datagram that ends before its header and the shortest transport
/// header after it yields no descriptor.
pub proof fn lemma_short_datagram(ethertype: u16, s: Seq<u8>)
    requires
        ethertype == ETHERTYPE_IPV4 ==> s.len() < ipv4_payload_start(s) + UDP_HEADER_LEN,
        ethertype == ETHERTYPE_IPV6 ==> s.len() < IPV6_HEADER_LEN + UDP_HEADER_LEN,
    ensures
        ip_spec(ethertype, s).is_none(),
{
}

/// A transport payload shorter than either header gives no port.
pub proof fn lemma_short_transport(s: Seq<u8>)
    requires
        s.len() < UDP_HEADER_LEN,
    ensures
        transport_spec(s).is_none(),
{
}

/// A datagram whose transport payload is shorter than either header yields
/// no descriptor, whatever network layer carries it.
pub proof fn lemma_no_transport_no_descriptor(ethertype: u16, datagram: Seq<u8>)
    requires
        ethertype == ETHERTYPE_IPV4 ==> (ipv4_spec(datagram) matches Some((_, p)) && p.len()
            < UDP_HEADER_LEN),
        ethertype == ETHERTYPE_IPV6 ==> (ipv6_spec(datagram) matches Some((_, p)) && p.len()
            < UDP_HEADER_LEN),
    ensures
        ip_spec(ethertype, datagram).is_none(),
{
}

/// `f` with an 802.1Q tag (tag control `tci`) put in front of its EtherType.
pub open spec fn vlan_tagged(f: Seq<u8>, tci: u16) -> Seq<u8> {
    f.subrange(0, 12) + seq![0x81u8, 0x00u8, (tci / 256) as u8, (tci % 256) as u8]
        + f.subrange(12, f.len() as int)
}

/// A VLAN-tagged frame carrying IPv4 or IPv6 yields the descriptor of the
/// same frame untagged.
pub proof fn lemma_vlan_transparent(f: Seq<u8>, tci: u16)
    requires
        f.len() >= ETHERNET_HEADER_LEN,
        be16(f, 12) == ETHERTYPE_IPV4 || be16(f, 12) == ETHERTYPE_IPV6,
    ensures
        dissect_spec(vlan_tagged(f, tci)) == dissect_spec(f),
{
    let g = vlan_tagged(f, tci);
    assert(g.len() == f.len() + 4);
    assert(g[12] == 0x81u8 && g[13] == 0x00u8);
    assert(be16(g, 12) == ETHERTYPE_VLAN);
    let p = g.subrange(14, g.len() as int);
    assert(p[2] == f[12] && p[3] == f[13]);
    assert(be16(p, 2) == be16(f, 12));
    assert(p.subrange(4, p.len() as int) =~= f.subrange(14, f.len() as int));
}

} // verus!
