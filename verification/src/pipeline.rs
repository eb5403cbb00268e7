//! The whole decoding pipeline, one frame in, one display record out.
//!
//! `spec_decode_frame` is the mathematical model of the pipeline: a pure
//! function from the frame bytes to the record shown for them, to a skip
//! (unknown ethertype), or to an underflow.  `decode_frame` is proved to
//! return exactly that.

use vstd::prelude::*;
use vstd::string::StringExecFns;

use crate::arp::arp_description;
use crate::error::UnderflowError;
use crate::ethernet::Ethernet;
use crate::icmp::icmp_description;
use crate::icmp::ICMP;
use crate::ip::{ipv6_text, IP};
use crate::protocol::{spec_layer3_of, spec_layer4_of, Layer3, Layer4Protocol};
use crate::text::ipv4_text;
use crate::transport::{tcp_summary, udp_summary, PresentationColor, Transport};
use crate::wire::{be16, be32};

verus! {

/// The record handed to a renderer for one successfully decoded frame.
#[derive(Debug, PartialEq, Eq, Clone)]
pub struct DisplayRecord {
    pub src_addr: String,
    pub dst_addr: String,
    pub tag: String,
    pub summary: String,
    pub color: PresentationColor,
    pub frame_len: usize,
}

/// The mathematical content of a `DisplayRecord`.
pub struct RecordModel {
    pub src_addr: Seq<char>,
    pub dst_addr: Seq<char>,
    pub tag: Seq<char>,
    pub summary: Seq<char>,
    pub color: PresentationColor,
    pub frame_len: int,
}

impl View for DisplayRecord {
    type V = RecordModel;

    open spec fn view(&self) -> RecordModel {
        RecordModel {
            src_addr: self.src_addr@,
            dst_addr: self.dst_addr@,
            tag: self.tag@,
            summary: self.summary@,
            color: self.color,
            frame_len: self.frame_len as int,
        }
    }
}

/// What decoding one frame comes to.
pub enum DecodeModel {
    /// Some stage found its input too short; the frame is skipped.
    Underflow,
    /// The ethertype is not decoded by this pipeline; the frame is skipped.
    Skip,
    /// The record shown for the frame.
    Record(RecordModel),
}

/// The transport stage of the model: what the record is once the network
/// layer has produced the two addresses, the transport protocol and the
/// remaining payload.
pub open spec fn spec_transport_stage(
    d: Seq<u8>,
    src: Seq<char>,
    dst: Seq<char>,
    proto: Layer4Protocol,
    rest: Seq<u8>,
) -> DecodeModel {
    match proto {
        Layer4Protocol::TCP => if rest.len() < 20 {
            DecodeModel::Underflow
        } else {
            DecodeModel::Record(
                RecordModel {
                    src_addr: src,
                    dst_addr: dst,
                    tag: "TCP"@,
                    summary: tcp_summary(
                        be16(rest[0], rest[1]),
                        be16(rest[2], rest[3]),
                        be32(rest[4], rest[5], rest[6], rest[7]),
                        be32(rest[8], rest[9], rest[10], rest[11]),
                        rest[13],
                        be16(rest[14], rest[15]),
                    ),
                    color: PresentationColor::Green,
                    frame_len: d.len() as int,
                },
            )
        },
        Layer4Protocol::UDP => if rest.len() < 8 {
            DecodeModel::Underflow
        } else {
            DecodeModel::Record(
                RecordModel {
                    src_addr: src,
                    dst_addr: dst,
                    tag: "UDP"@,
                    summary: udp_summary(
                        be16(rest[0], rest[1]),
                        be16(rest[2], rest[3]),
                        be16(rest[4], rest[5]),
                        be16(rest[6], rest[7]),
                    ),
                    color: PresentationColor::Cyan,
                    frame_len: d.len() as int,
                },
            )
        },
        Layer4Protocol::ICMP => if rest.len() < 2 {
            DecodeModel::Underflow
        } else {
            DecodeModel::Record(
                RecordModel {
                    src_addr: src,
                    dst_addr: dst,
                    tag: "ICMP"@,
                    summary: icmp_description(Layer4Protocol::ICMP, rest[0], rest[1]),
                    color: PresentationColor::BrightMagenta,
                    frame_len: d.len() as int,
                },
            )
        },
        Layer4Protocol::ICMPv6 => if rest.len() < 2 {
            DecodeModel::Underflow
        } else {
            DecodeModel::Record(
                RecordModel {
                    src_addr: src,
                    dst_addr: dst,
                    tag: "ICMPv6"@,
                    summary: icmp_description(Layer4Protocol::ICMPv6, rest[0], rest[1]),
                    color: PresentationColor::BrightMagenta,
                    frame_len: d.len() as int,
                },
            )
        },
        Layer4Protocol::ARP => DecodeModel::Skip,
        Layer4Protocol::Unknown => DecodeModel::Record(
            RecordModel {
                src_addr: src,
                dst_addr: dst,
                tag: "???"@,
                summary: "???"@,
                color: PresentationColor::Red,
                frame_len: d.len() as int,
            },
        ),
    }
}

/// The model of the whole pipeline over the raw frame bytes.
pub open spec fn spec_decode_frame(d: Seq<u8>) -> DecodeModel {
    if d.len() < 18 {
        DecodeModel::Underflow
    } else {
        let p = d.skip(18);
        match spec_layer3_of(be16(d[16], d[17])) {
            Layer3::Unknown(_) => DecodeModel::Skip,
            Layer3::IPv4 => if p.len() < 20 {
                DecodeModel::Underflow
            } else {
                spec_transport_stage(
                    d,
                    ipv4_text(p[12], p[13], p[14], p[15]),
                    ipv4_text(p[16], p[17], p[18], p[19]),
                    spec_layer4_of(p[9]),
                    p.skip(20),
                )
            },
            Layer3::IPv6 => if p.len() < 40 {
                DecodeModel::Underflow
            } else {
                spec_transport_stage(
                    d,
                    ipv6_text(p, 8),
                    ipv6_text(p, 24),
                    spec_layer4_of(p[6]),
                    p.skip(40),
                )
            },
            Layer3::ARP => if p.len() < 24 {
                DecodeModel::Underflow
            } else {
                DecodeModel::Record(
                    RecordModel {
                        src_addr: ipv4_text(p[12], p[13], p[14], p[15]),
                        dst_addr: ipv4_text(p[16], p[17], p[18], p[19]),
                        tag: "ARP"@,
                        summary: arp_description(
                            be16(p[6], p[7]),
                            ipv4_text(p[12], p[13], p[14], p[15]),
                            ipv4_text(p[16], p[17], p[18], p[19]),
                            p.subrange(8, 14),
                        ),
                        color: PresentationColor::Yellow,
                        frame_len: d.len() as int,
                    },
                )
            },
        }
    }
}

/// Runs the whole pipeline on one captured frame.
///
/// `Err` means some stage found its input too short, `Ok(None)` an
/// ethertype this pipeline does not decode; either way the caller skips the
/// frame.  `Ok(Some(record))` is the record to display.
pub fn decode_frame(data: &[u8]) -> (r: Result<Option<DisplayRecord>, UnderflowError>)
    ensures
        spec_decode_frame(data@) is Underflow <==> r is Err,
        spec_decode_frame(data@) is Skip <==> (r matches Ok(o) && o is None),
        r matches Ok(o) ==> (o matches Some(rec) ==> spec_decode_frame(data@)
            == DecodeModel::Record(rec@)),
{
    let eth = match Ethernet::try_from(data) {
        Ok(e) => e,
        Err(e) => {
            return Err(e);
        },
    };
    let frame_len = data.len();
    match eth.ethertype {
        Layer3::Unknown(_) => Ok(None),
        known => {
            let ip = match IP::new(eth.payload.as_slice(), known) {
                Ok(i) => i,
                Err(e) => {
                    return Err(e);
                },
            };
            match ip.protocol {
                Layer4Protocol::TCP | Layer4Protocol::UDP => {
                    let transport = match Transport::new(ip.payload.as_slice(), &ip.protocol) {
                        Ok(t) => t,
                        Err(e) => {
                            return Err(e);
                        },
                    };
                    let tag = transport.get_tag();
                    let summary = transport.to_string();
                    let color = transport.get_color();
                    Ok(
                        Some(
                            DisplayRecord {
                                src_addr: ip.src,
                                dst_addr: ip.dst,
                                tag,
                                summary,
                                color,
                                frame_len,
                            },
                        ),
                    )
                },
                Layer4Protocol::ICMP | Layer4Protocol::ICMPv6 => {
                    let icmp = match ICMP::new(ip.payload.as_slice(), &ip.protocol) {
                        Ok(i) => i,
                        Err(e) => {
                            return Err(e);
                        },
                    };
                    let tag = ip.protocol.to_string();
                    let summary = icmp.to_string();
                    Ok(
                        Some(
                            DisplayRecord {
                                src_addr: ip.src,
                                dst_addr: ip.dst,
                                tag,
                                summary,
                                color: PresentationColor::BrightMagenta,
                                frame_len,
                            },
                        ),
                    )
                },
                Layer4Protocol::ARP => {
                    let arp = match ip.arp {
                        Some(a) => a,
                        // The ARP tag is only ever assigned together with a
                        // record; this arm is proved unreachable.
                        None => {
                            proof {
                                assert(false);
                            }
                            return Err(UnderflowError);
                        },
                    };
                    let summary = arp.to_string();
                    Ok(
                        Some(
                            DisplayRecord {
                                src_addr: ip.src,
                                dst_addr: ip.dst,
                                tag: String::from_str("ARP"),
                                summary,
                                color: PresentationColor::Yellow,
                                frame_len,
                            },
                        ),
                    )
                },
                Layer4Protocol::Unknown => Ok(
                    Some(
                        DisplayRecord {
                            src_addr: ip.src,
                            dst_addr: ip.dst,
                            tag: String::from_str("???"),
                            summary: String::from_str("???"),
                            color: PresentationColor::Red,
                            frame_len,
                        },
                    ),
                ),
            }
        },
    }
}

/// Decoding is a pure function of the frame bytes: the same buffer decodes
/// to the same outcome every time, so re-running the pipeline on a frame
/// reproduces its record exactly.
pub proof fn lemma_decode_deterministic(d1: Seq<u8>, d2: Seq<u8>)
    requires
        d1 == d2,
    ensures
        spec_decode_frame(d1) == spec_decode_frame(d2),
{
}

} // verus!
