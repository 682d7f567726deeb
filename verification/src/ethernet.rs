//! Ethernet frames and the layer they carry.

use crate::frame::FrameTrait;
use crate::wire::be16;
use vstd::prelude::*;
use vstd::slice::slice_subrange;

verus! {

/// The length of the Ethernet header: destination, source and ethertype.
pub const ETHERNET_HEADER_LENGTH: usize = 14;

/// A six-byte hardware address.
#[derive(Debug, Clone, Copy, PartialEq, Eq)]
pub struct MacAddress {
    pub octets: [u8; 6],
}

/// The hardware address that lies in `s` at `at`.
pub open spec fn mac_at(s: Seq<u8>, at: int) -> MacAddress {
    MacAddress { octets: [s[at], s[at + 1], s[at + 2], s[at + 3], s[at + 4], s[at + 5]] }
}

/// The protocol that an Ethernet frame carries. A value without a name of
/// its own is kept as read.
#[derive(Debug, Clone, Copy, PartialEq, Eq)]
pub enum EtherType {
    IPv4,
    IPv6,
    Other(u16),
}

impl EtherType {
    /// The protocol that the ethertype `value` selects.
    pub open spec fn of(value: u16) -> EtherType {
        if value == 0x0800 {
            EtherType::IPv4
        } else if value == 0x86dd {
            EtherType::IPv6
        } else {
            EtherType::Other(value)
        }
    }

    pub fn from(value: u16) -> (ether_type: Self)
        ensures
            ether_type == Self::of(value),
    {
        if value == 0x0800 {
            EtherType::IPv4
        } else if value == 0x86dd {
            EtherType::IPv6
        } else {
            EtherType::Other(value)
        }
    }
}

/// The version that an IP packet declares in the high half of its first
/// byte; none where the packet is empty.
pub open spec fn ip_version_of(s: Seq<u8>) -> Option<u8> {
    if s.len() > 0 {
        Some((s[0] as int / 16) as u8)
    } else {
        None
    }
}

fn ip_version(bytes: &[u8]) -> (version: Option<u8>)
    ensures
        version == ip_version_of(bytes@),
{
    if bytes.len() > 0 {
        let first = bytes[0];
        assert(first >> 4 == first / 16) by (bit_vector);
        Some(first >> 4)
    } else {
        None
    }
}

/// A view over an IPv4 packet.
pub struct IPv4Frame<'a> {
    bytes: &'a [u8],
}

impl<'a> IPv4Frame<'a> {
    pub fn new(bytes: &'a [u8]) -> (frame: Self)
        ensures
            frame.raw() == bytes@,
    {
        IPv4Frame { bytes }
    }

    /// The version that the packet declares.
    pub fn version(&self) -> (version: Option<u8>)
        ensures
            version == ip_version_of(self.raw()),
    {
        ip_version(self.bytes)
    }
}

impl<'a> FrameTrait for IPv4Frame<'a> {
    closed spec fn raw(&self) -> Seq<u8> {
        self.bytes@
    }

    fn bytes(&self) -> (bytes: &[u8]) {
        self.bytes
    }
}

/// A view over an IPv6 packet.
pub struct IPv6Frame<'a> {
    bytes: &'a [u8],
}

impl<'a> IPv6Frame<'a> {
    pub fn new(bytes: &'a [u8]) -> (frame: Self)
        ensures
            frame.raw() == bytes@,
    {
        IPv6Frame { bytes }
    }

    /// The version that the packet declares.
    pub fn version(&self) -> (version: Option<u8>)
        ensures
            version == ip_version_of(self.raw()),
    {
        ip_version(self.bytes)
    }
}

impl<'a> FrameTrait for IPv6Frame<'a> {
    closed spec fn raw(&self) -> Seq<u8> {
        self.bytes@
    }

    fn bytes(&self) -> (bytes: &[u8]) {
        self.bytes
    }
}

/// The layer that an Ethernet frame carries.
pub enum EthernetLayer<'a> {
    IPv4(IPv4Frame<'a>),
    IPv6(IPv6Frame<'a>),
}

/// What lies in the Ethernet frame `raw` behind its header.
pub open spec fn ethernet_payload(raw: Seq<u8>) -> Seq<u8> {
    raw.subrange(ETHERNET_HEADER_LENGTH as int, raw.len() as int)
}

/// A view over an Ethernet frame. It exists only over a buffer that holds
/// the whole header.
pub struct EthernetFrame<'a> {
    bytes: &'a [u8],
}

impl<'a> EthernetFrame<'a> {
    #[verifier::type_invariant]
    spec fn holds_header(&self) -> bool {
        self.bytes@.len() >= ETHERNET_HEADER_LENGTH
    }

    /// A view over `bytes`; none where they end within the header.
    pub fn from(bytes: &'a [u8]) -> (frame: Option<Self>)
        ensures
            match frame {
                Some(frame) => frame.raw() == bytes@ && bytes@.len() >= ETHERNET_HEADER_LENGTH,
                None => bytes@.len() < ETHERNET_HEADER_LENGTH,
            },
    {
        if bytes.len() >= ETHERNET_HEADER_LENGTH {
            Some(EthernetFrame { bytes })
        } else {
            None
        }
    }

    fn address(bytes: &[u8], at: usize) -> (address: MacAddress)
        requires
            at + 6 <= bytes@.len(),
        ensures
            address == mac_at(bytes@, at as int),
    {
        MacAddress {
            octets: [
                bytes[at],
                bytes[at + 1],
                bytes[at + 2],
                bytes[at + 3],
                bytes[at + 4],
                bytes[at + 5],
            ],
        }
    }

    /// The address of the station that the frame is for: the first six
    /// bytes.
    pub fn destination(&self) -> (address: MacAddress)
        ensures
            self.raw().len() >= ETHERNET_HEADER_LENGTH,
            address == mac_at(self.raw(), 0),
    {
        proof {
            use_type_invariant(self);
        }
        Self::address(self.bytes, 0)
    }

    /// The address of the station that sent the frame: the six bytes
    /// behind the destination.
    pub fn source(&self) -> (address: MacAddress)
        ensures
            self.raw().len() >= ETHERNET_HEADER_LENGTH,
            address == mac_at(self.raw(), 6),
    {
        proof {
            use_type_invariant(self);
        }
        Self::address(self.bytes, 6)
    }

    /// The protocol that the frame carries: the big-endian ethertype
    /// behind the two addresses.
    pub fn type_(&self) -> (ether_type: EtherType)
        ensures
            self.raw().len() >= ETHERNET_HEADER_LENGTH,
            ether_type == EtherType::of(be16(self.raw(), 12) as u16),
    {
        proof {
            use_type_invariant(self);
        }
        let high = self.bytes[12] as u16;
        let low = self.bytes[13] as u16;
        EtherType::from(high * 256 + low)
    }

    /// The layer that the frame carries, as a view over what lies behind
    /// the header; none where the ethertype names neither IPv4 nor IPv6.
    pub fn next_layer(&self) -> (layer: Option<EthernetLayer<'a>>)
        ensures
            self.raw().len() >= ETHERNET_HEADER_LENGTH,
            match EtherType::of(be16(self.raw(), 12) as u16) {
                EtherType::IPv4 => layer matches Some(EthernetLayer::IPv4(packet))
                    && packet.raw() == ethernet_payload(self.raw()),
                EtherType::IPv6 => layer matches Some(EthernetLayer::IPv6(packet))
                    && packet.raw() == ethernet_payload(self.raw()),
                EtherType::Other(_) => layer is None,
            },
    {
        proof {
            use_type_invariant(self);
        }
        let payload = slice_subrange(self.bytes, ETHERNET_HEADER_LENGTH, self.bytes.len());
        match self.type_() {
            EtherType::IPv4 => Some(EthernetLayer::IPv4(IPv4Frame::new(payload))),
            EtherType::IPv6 => Some(EthernetLayer::IPv6(IPv6Frame::new(payload))),
            EtherType::Other(_) => None,
        }
    }
}

impl<'a> FrameTrait for EthernetFrame<'a> {
    closed spec fn raw(&self) -> Seq<u8> {
        self.bytes@
    }

    fn bytes(&self) -> (bytes: &[u8]) {
        self.bytes
    }
}

} // verus!
