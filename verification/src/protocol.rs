//! The two protocol dispatch tables of the pipeline.
//!
//! `Layer3` classifies a 16-bit ethertype, `Layer4Protocol` an 8-bit IP
//! protocol / next-header value.  Both mappings are total: every value that
//! is not recognised lands in an explicit `Unknown` variant, so callers must
//! handle it and nothing is ever rejected at dispatch time.

use vstd::prelude::*;
use vstd::string::StringExecFns;

verus! {

/// The network-layer protocol selected by an Ethernet frame's ethertype.
#[derive(Clone, Copy, Debug, PartialEq, Eq, Structural)]
pub enum Layer3 {
    IPv4,
    IPv6,
    ARP,
    /// An ethertype this pipeline does not decode; the raw value is kept for display.
    Unknown(u16),
}

/// The transport-layer protocol selected by an IP protocol / next-header byte.
///
/// `ARP` is assigned directly by the network-layer decoder on the ARP path;
/// the byte dispatch never produces it.
#[derive(Clone, Copy, Debug, PartialEq, Eq, Structural)]
pub enum Layer4Protocol {
    TCP,
    UDP,
    ICMP,
    ICMPv6,
    ARP,
    Unknown,
}

/// What a 16-bit ethertype dispatches to.
pub open spec fn spec_layer3_of(n: u16) -> Layer3 {
    if n == 0x0800 {
        Layer3::IPv4
    } else if n == 0x0806 {
        Layer3::ARP
    } else if n == 0x86dd {
        Layer3::IPv6
    } else {
        Layer3::Unknown(n)
    }
}

/// What an 8-bit protocol / next-header value dispatches to.
pub open spec fn spec_layer4_of(b: u8) -> Layer4Protocol {
    if b == 6 {
        Layer4Protocol::TCP
    } else if b == 17 {
        Layer4Protocol::UDP
    } else if b == 1 {
        Layer4Protocol::ICMP
    } else if b == 58 {
        Layer4Protocol::ICMPv6
    } else {
        Layer4Protocol::Unknown
    }
}

impl From<u16> for Layer3 {
    fn from(n: u16) -> (r: Self) {
        match n {
            0x0800 => Self::IPv4,
            0x0806 => Self::ARP,
            0x86dd => Self::IPv6,
            unknown => Self::Unknown(unknown),
        }
    }
}

impl vstd::std_specs::convert::FromSpecImpl<u16> for Layer3 {
    open spec fn obeys_from_spec() -> bool {
        true
    }

    open spec fn from_spec(n: u16) -> Self {
        spec_layer3_of(n)
    }
}

/// The display name of a `Layer3` variant.
pub open spec fn spec_layer3_name(p: Layer3) -> Seq<char> {
    match p {
        Layer3::IPv4 => "IPv4"@,
        Layer3::IPv6 => "IPv6"@,
        Layer3::ARP => "ARP"@,
        Layer3::Unknown(_) => "???"@,
    }
}

/// The display name of a `Layer4Protocol` variant.
pub open spec fn spec_layer4_name(p: Layer4Protocol) -> Seq<char> {
    match p {
        Layer4Protocol::TCP => "TCP"@,
        Layer4Protocol::UDP => "UDP"@,
        Layer4Protocol::ICMP => "ICMP"@,
        Layer4Protocol::ICMPv6 => "ICMPv6"@,
        Layer4Protocol::ARP => "ARP"@,
        Layer4Protocol::Unknown => "???"@,
    }
}

impl Layer3 {
    /// The variant's display name, `"???"` for `Unknown`.
    pub fn to_string(&self) -> (r: String)
        ensures
            r@ == spec_layer3_name(*self),
    {
        match self {
            Layer3::IPv4 => String::from_str("IPv4"),
            Layer3::IPv6 => String::from_str("IPv6"),
            Layer3::ARP => String::from_str("ARP"),
            Layer3::Unknown(_) => String::from_str("???"),
        }
    }
}

impl Layer4Protocol {
    /// The variant's display name, `"???"` for `Unknown`.
    pub fn to_string(&self) -> (r: String)
        ensures
            r@ == spec_layer4_name(*self),
    {
        match self {
            Layer4Protocol::TCP => String::from_str("TCP"),
            Layer4Protocol::UDP => String::from_str("UDP"),
            Layer4Protocol::ICMP => String::from_str("ICMP"),
            Layer4Protocol::ICMPv6 => String::from_str("ICMPv6"),
            Layer4Protocol::ARP => String::from_str("ARP"),
            Layer4Protocol::Unknown => String::from_str("???"),
        }
    }
}

/// The ethertype dispatch recognises exactly 0x0800, 0x0806 and 0x86dd, and
/// every other value is kept, unchanged, inside `Unknown`.
pub proof fn lemma_layer3_dispatch_total(n: u16)
    ensures
        spec_layer3_of(n) == Layer3::IPv4 <==> n == 0x0800,
        spec_layer3_of(n) == Layer3::ARP <==> n == 0x0806,
        spec_layer3_of(n) == Layer3::IPv6 <==> n == 0x86dd,
        n != 0x0800 && n != 0x0806 && n != 0x86dd <==> spec_layer3_of(n) == Layer3::Unknown(n),
        forall|m: u16| spec_layer3_of(n) == Layer3::Unknown(m) ==> m == n,
{
}

/// The protocol-byte dispatch is total: exactly 6, 17, 1 and 58 map to TCP,
/// UDP, ICMP and ICMPv6, every other byte maps to `Unknown`, and no byte
/// ever maps to `ARP`.
pub proof fn lemma_layer4_dispatch_total(b: u8)
    ensures
        spec_layer4_of(b) == Layer4Protocol::TCP <==> b == 6,
        spec_layer4_of(b) == Layer4Protocol::UDP <==> b == 17,
        spec_layer4_of(b) == Layer4Protocol::ICMP <==> b == 1,
        spec_layer4_of(b) == Layer4Protocol::ICMPv6 <==> b == 58,
        b != 6 && b != 17 && b != 1 && b != 58 <==> spec_layer4_of(b) == Layer4Protocol::Unknown,
        spec_layer4_of(b) != Layer4Protocol::ARP,
{
}

} // verus!
