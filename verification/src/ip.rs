//! Network-layer decoding: IPv4, IPv6 and ARP.
//!
//! The IPv4 path assumes a fixed 20-byte header and does not skip IP
//! options; the ARP path reads its addresses at the IPv4 header offsets
//! rather than the true ARP field offsets; and the IPv6 text below omits
//! zero-padding inside a group.  All three oddities are inherited wire-format
//! assumptions of this pipeline and are kept, and stated, as they are.

use vstd::prelude::*;
use vstd::slice::{slice_subrange, slice_to_vec};
use vstd::string::StringExecFns;

use crate::arp::ARP;
use crate::error::UnderflowError;
use crate::protocol::{spec_layer4_of, Layer3, Layer4Protocol};
use crate::text::{format_ipv4, hex_unpadded, ipv4_text, push_hex_unpadded};
use crate::wire::be16;

verus! {

/// The text of one two-byte IPv6 group: `"0:"` when both bytes are zero,
/// only the low byte's digits when the high byte is zero, and otherwise the
/// unpadded digits of both bytes run together, always ending in a colon.
pub open spec fn ipv6_group(a: u8, b: u8) -> Seq<char> {
    if a == 0 && b == 0 {
        seq!['0', ':']
    } else if a == 0 {
        hex_unpadded(b) + seq![':']
    } else {
        hex_unpadded(a) + hex_unpadded(b) + seq![':']
    }
}

/// The text of the first `groups` two-byte groups at `start`.
pub open spec fn ipv6_text_prefix(s: Seq<u8>, start: int, groups: int) -> Seq<char>
    decreases groups,
{
    if groups <= 0 {
        Seq::empty()
    } else {
        ipv6_text_prefix(s, start, groups - 1) + ipv6_group(
            s[start + 2 * (groups - 1)],
            s[start + 2 * (groups - 1) + 1],
        )
    }
}

/// The text of the 16-byte IPv6 address at `start`: eight groups, each
/// ending in a colon.
pub open spec fn ipv6_text(s: Seq<u8>, start: int) -> Seq<char> {
    ipv6_text_prefix(s, start, 8)
}

/// A decoded network-layer record.
pub struct IP {
    pub src: String,
    pub dst: String,
    pub protocol: Layer4Protocol,
    pub arp: Option<ARP>,
    pub payload: Vec<u8>,
}

impl IP {
    /// Dispatches an IP protocol / next-header byte to its transport protocol.
    pub fn get_protocol(byte: &u8) -> (r: Layer4Protocol)
        ensures
            r == spec_layer4_of(*byte),
    {
        match byte {
            6 => Layer4Protocol::TCP,
            17 => Layer4Protocol::UDP,
            1 => Layer4Protocol::ICMP,
            58 => Layer4Protocol::ICMPv6,
            _ => Layer4Protocol::Unknown,
        }
    }

    /// Renders the 16-byte address at `start_index` in the unpadded
    /// group-by-group scheme of `ipv6_text`.
    pub fn decimal_to_ipv6(data: &[u8], start_index: usize) -> (r: String)
        requires
            start_index + 16 <= data@.len(),
        ensures
            r@ == ipv6_text(data@, start_index as int),
    {
        let mut out = String::new();
        let mut g: usize = 0;
        while g < 8
            invariant
                g <= 8,
                start_index + 16 <= data@.len(),
                out@ == ipv6_text_prefix(data@, start_index as int, g as int),
            decreases 8 - g,
        {
            let n: usize = data.len();
            proof {
                assert(start_index + 2 * g + 1 < n);
            }
            let a = data[start_index + 2 * g];
            let b = data[start_index + 2 * g + 1];
            if a == 0 {
                if b == 0 {
                    out.append("0:");
                } else {
                    push_hex_unpadded(&mut out, b);
                    out.append(":");
                }
            } else {
                push_hex_unpadded(&mut out, a);
                push_hex_unpadded(&mut out, b);
                out.append(":");
            }
            proof {
                reveal_strlit("0:");
                reveal_strlit(":");
                assert(out@ =~= ipv6_text_prefix(data@, start_index as int, g as int + 1));
            }
            g = g + 1;
        }
        out
    }

    /// Decodes the payload of an Ethernet frame according to the dispatched
    /// network-layer protocol.  Unknown ethertypes are not decoded at this
    /// layer: the caller skips such a frame without calling here.
    pub fn new(data: &[u8], protocol: Layer3) -> (r: Result<IP, UnderflowError>)
        requires
            !(protocol is Unknown),
        ensures
            protocol is IPv4 ==> (data@.len() >= 20 <==> r is Ok),
            protocol is IPv4 ==> (r matches Ok(ip) ==> {
                &&& ip.src@ == ipv4_text(data@[12], data@[13], data@[14], data@[15])
                &&& ip.dst@ == ipv4_text(data@[16], data@[17], data@[18], data@[19])
                &&& ip.protocol == spec_layer4_of(data@[9])
                &&& ip.arp is None
                &&& ip.payload@ == data@.skip(20)
            }),
            protocol is IPv6 ==> (data@.len() >= 40 <==> r is Ok),
            protocol is IPv6 ==> (r matches Ok(ip) ==> {
                &&& ip.src@ == ipv6_text(data@, 8)
                &&& ip.dst@ == ipv6_text(data@, 24)
                &&& ip.protocol == spec_layer4_of(data@[6])
                &&& ip.arp is None
                &&& ip.payload@ == data@.skip(40)
            }),
            protocol is ARP ==> (data@.len() >= 24 <==> r is Ok),
            protocol is ARP ==> (r matches Ok(ip) ==> {
                &&& ip.src@ == ipv4_text(data@[12], data@[13], data@[14], data@[15])
                &&& ip.dst@ == ipv4_text(data@[16], data@[17], data@[18], data@[19])
                &&& ip.protocol == Layer4Protocol::ARP
                &&& ip.arp matches Some(a)
                &&& ip.arp matches Some(a) ==> {
                    &&& a.src_ip@ == ipv4_text(data@[12], data@[13], data@[14], data@[15])
                    &&& a.dst_ip@ == ipv4_text(data@[16], data@[17], data@[18], data@[19])
                    &&& a.src_mac@ == data@.subrange(8, 14)
                    &&& a.dst_mac@ == data@.subrange(18, 24)
                    &&& a.opcode == be16(data@[6], data@[7])
                }
                &&& ip.payload@ == data@.skip(20)
            }),
    {
        match protocol {
            Layer3::ARP => {
                if data.len() < 24 {
                    return Err(UnderflowError);
                }
                let arp_src = format_ipv4(data[12], data[13], data[14], data[15]);
                let arp_dst = format_ipv4(data[16], data[17], data[18], data[19]);
                let arp = match ARP::new(arp_src, arp_dst, data) {
                    Ok(a) => a,
                    Err(_) => {
                        return Err(UnderflowError);
                    },
                };
                let payload = slice_to_vec(slice_subrange(data, 20, data.len()));
                proof {
                    assert(data@.subrange(20, data@.len() as int) =~= data@.skip(20));
                }
                Ok(
                    IP {
                        src: format_ipv4(data[12], data[13], data[14], data[15]),
                        dst: format_ipv4(data[16], data[17], data[18], data[19]),
                        protocol: Layer4Protocol::ARP,
                        arp: Some(arp),
                        payload,
                    },
                )
            },
            Layer3::IPv4 => {
                if data.len() < 20 {
                    return Err(UnderflowError);
                }
                let payload = slice_to_vec(slice_subrange(data, 20, data.len()));
                proof {
                    assert(data@.subrange(20, data@.len() as int) =~= data@.skip(20));
                }
                Ok(
                    IP {
                        src: format_ipv4(data[12], data[13], data[14], data[15]),
                        dst: format_ipv4(data[16], data[17], data[18], data[19]),
                        protocol: IP::get_protocol(&data[9]),
                        arp: None,
                        payload,
                    },
                )
            },
            Layer3::IPv6 => {
                if data.len() < 40 {
                    return Err(UnderflowError);
                }
                let payload = slice_to_vec(slice_subrange(data, 40, data.len()));
                proof {
                    assert(data@.subrange(40, data@.len() as int) =~= data@.skip(40));
                }
                Ok(
                    IP {
                        src: IP::decimal_to_ipv6(data, 8),
                        dst: IP::decimal_to_ipv6(data, 24),
                        protocol: IP::get_protocol(&data[6]),
                        arp: None,
                        payload,
                    },
                )
            },
            // Excluded by the precondition; never reached.
            Layer3::Unknown(_) => Err(UnderflowError),
        }
    }
}

} // verus!
