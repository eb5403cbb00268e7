//! Transport-layer decoding for TCP and UDP.

use vstd::prelude::*;
use vstd::string::StringExecFns;

use crate::error::UnderflowError;
use crate::protocol::Layer4Protocol;
use crate::text::{dec_nat, push_u64};
use crate::wire::{be16, be32, read_be16, read_be32};

verus! {

/// The color class a renderer is asked to show a record in.
#[derive(Clone, Copy, Debug, PartialEq, Eq, Structural)]
pub enum PresentationColor {
    Green,
    Cyan,
    BrightMagenta,
    Yellow,
    Red,
}

/// The protocol-specific fields of a transport header.
pub enum TransportFields {
    Tcp { seq_no: u32, ack_no: u32, flags: u8, window: u16 },
    Udp { length: u16, checksum: u16 },
}

/// A decoded TCP or UDP header.
pub struct Transport {
    pub src_port: u16,
    pub dst_port: u16,
    pub fields: TransportFields,
}

/// The names of the flags set in a TCP flag byte, each followed by a space,
/// in bit order from FIN up to CWR.
pub open spec fn tcp_flag_names(f: u8) -> Seq<char> {
    (if f & 0x01 != 0 {
        "FIN "@
    } else {
        Seq::empty()
    }) + (if f & 0x02 != 0 {
        "SYN "@
    } else {
        Seq::empty()
    }) + (if f & 0x04 != 0 {
        "RST "@
    } else {
        Seq::empty()
    }) + (if f & 0x08 != 0 {
        "PSH "@
    } else {
        Seq::empty()
    }) + (if f & 0x10 != 0 {
        "ACK "@
    } else {
        Seq::empty()
    }) + (if f & 0x20 != 0 {
        "URG "@
    } else {
        Seq::empty()
    }) + (if f & 0x40 != 0 {
        "ECE "@
    } else {
        Seq::empty()
    }) + (if f & 0x80 != 0 {
        "CWR "@
    } else {
        Seq::empty()
    })
}

/// The one-line summary of a TCP header.
pub open spec fn tcp_summary(
    src_port: u16,
    dst_port: u16,
    seq_no: u32,
    ack_no: u32,
    flags: u8,
    window: u16,
) -> Seq<char> {
    dec_nat(src_port as nat) + " -> "@ + dec_nat(dst_port as nat) + " ["@ + tcp_flag_names(flags)
        + "] seq="@ + dec_nat(seq_no as nat) + " ack="@ + dec_nat(ack_no as nat) + " win="@
        + dec_nat(window as nat)
}

/// The one-line summary of a UDP header.
pub open spec fn udp_summary(src_port: u16, dst_port: u16, length: u16, checksum: u16) -> Seq<
    char,
> {
    dec_nat(src_port as nat) + " -> "@ + dec_nat(dst_port as nat) + " len="@ + dec_nat(
        length as nat,
    ) + " checksum="@ + dec_nat(checksum as nat)
}

/// Appends `name` to `out` when `set` holds, and nothing otherwise.
fn push_flag(out: &mut String, set: bool, name: &str)
    ensures
        final(out)@ == old(out)@ + (if set {
            name@
        } else {
            Seq::<char>::empty()
        }),
{
    if set {
        out.append(name);
    } else {
        proof {
            assert(old(out)@ + Seq::<char>::empty() =~= old(out)@);
        }
    }
}

/// Appends the names of the set TCP flags to `out`.
#[verifier::rlimit(100)]
fn push_tcp_flags(out: &mut String, f: u8)
    ensures
        final(out)@ == old(out)@ + tcp_flag_names(f),
{
    let ghost p1 = if f & 0x01 != 0 { "FIN "@ } else { Seq::<char>::empty() };
    let ghost p2 = if f & 0x02 != 0 { "SYN "@ } else { Seq::<char>::empty() };
    let ghost p3 = if f & 0x04 != 0 { "RST "@ } else { Seq::<char>::empty() };
    let ghost p4 = if f & 0x08 != 0 { "PSH "@ } else { Seq::<char>::empty() };
    let ghost p5 = if f & 0x10 != 0 { "ACK "@ } else { Seq::<char>::empty() };
    let ghost p6 = if f & 0x20 != 0 { "URG "@ } else { Seq::<char>::empty() };
    let ghost p7 = if f & 0x40 != 0 { "ECE "@ } else { Seq::<char>::empty() };
    let ghost p8 = if f & 0x80 != 0 { "CWR "@ } else { Seq::<char>::empty() };
    push_flag(out, f & 0x01 != 0, "FIN ");
    push_flag(out, f & 0x02 != 0, "SYN ");
    proof {
        vstd::seq_lib::lemma_concat_associative(old(out)@, p1, p2);
        assert(out@ == old(out)@ + (p1 + p2));
    }
    push_flag(out, f & 0x04 != 0, "RST ");
    proof {
        vstd::seq_lib::lemma_concat_associative(old(out)@, p1 + p2, p3);
        assert(out@ == old(out)@ + (p1 + p2 + p3));
    }
    push_flag(out, f & 0x08 != 0, "PSH ");
    proof {
        vstd::seq_lib::lemma_concat_associative(old(out)@, p1 + p2 + p3, p4);
        assert(out@ == old(out)@ + (p1 + p2 + p3 + p4));
    }
    push_flag(out, f & 0x10 != 0, "ACK ");
    proof {
        vstd::seq_lib::lemma_concat_associative(old(out)@, p1 + p2 + p3 + p4, p5);
        assert(out@ == old(out)@ + (p1 + p2 + p3 + p4 + p5));
    }
    push_flag(out, f & 0x20 != 0, "URG ");
    proof {
        vstd::seq_lib::lemma_concat_associative(old(out)@, p1 + p2 + p3 + p4 + p5, p6);
        assert(out@ == old(out)@ + (p1 + p2 + p3 + p4 + p5 + p6));
    }
    push_flag(out, f & 0x40 != 0, "ECE ");
    proof {
        vstd::seq_lib::lemma_concat_associative(old(out)@, p1 + p2 + p3 + p4 + p5 + p6, p7);
        assert(out@ == old(out)@ + (p1 + p2 + p3 + p4 + p5 + p6 + p7));
    }
    push_flag(out, f & 0x80 != 0, "CWR ");
    proof {
        vstd::seq_lib::lemma_concat_associative(old(out)@, p1 + p2 + p3 + p4 + p5 + p6 + p7, p8);
        assert(out@ == old(out)@ + (p1 + p2 + p3 + p4 + p5 + p6 + p7 + p8));
        assert(tcp_flag_names(f) == p1 + p2 + p3 + p4 + p5 + p6 + p7 + p8);
    }
}

impl Transport {
    /// Decodes the fixed TCP header (20 bytes) or UDP header (8 bytes),
    /// failing on a shorter payload.
    pub fn new(data: &[u8], protocol: &Layer4Protocol) -> (r: Result<Self, UnderflowError>)
        requires
            *protocol is TCP || *protocol is UDP,
        ensures
            *protocol is TCP ==> (data@.len() >= 20 <==> r is Ok),
            *protocol is TCP ==> (r matches Ok(t) ==> {
                &&& t.src_port == be16(data@[0], data@[1])
                &&& t.dst_port == be16(data@[2], data@[3])
                &&& t.fields matches TransportFields::Tcp { seq_no, ack_no, flags, window } && {
                    &&& seq_no == be32(data@[4], data@[5], data@[6], data@[7])
                    &&& ack_no == be32(data@[8], data@[9], data@[10], data@[11])
                    &&& flags == data@[13]
                    &&& window == be16(data@[14], data@[15])
                }
            }),
            *protocol is UDP ==> (data@.len() >= 8 <==> r is Ok),
            *protocol is UDP ==> (r matches Ok(t) ==> {
                &&& t.src_port == be16(data@[0], data@[1])
                &&& t.dst_port == be16(data@[2], data@[3])
                &&& t.fields matches TransportFields::Udp { length, checksum } && {
                    &&& length == be16(data@[4], data@[5])
                    &&& checksum == be16(data@[6], data@[7])
                }
            }),
    {
        match protocol {
            Layer4Protocol::TCP => {
                if data.len() < 20 {
                    return Err(UnderflowError);
                }
                Ok(
                    Transport {
                        src_port: read_be16(data, 0),
                        dst_port: read_be16(data, 2),
                        fields: TransportFields::Tcp {
                            seq_no: read_be32(data, 4),
                            ack_no: read_be32(data, 8),
                            flags: data[13],
                            window: read_be16(data, 14),
                        },
                    },
                )
            },
            _ => {
                if data.len() < 8 {
                    return Err(UnderflowError);
                }
                Ok(
                    Transport {
                        src_port: read_be16(data, 0),
                        dst_port: read_be16(data, 2),
                        fields: TransportFields::Udp {
                            length: read_be16(data, 4),
                            checksum: read_be16(data, 6),
                        },
                    },
                )
            },
        }
    }

    /// The protocol tag of the record, `"TCP"` or `"UDP"`.
    pub fn get_tag(&self) -> (r: String)
        ensures
            self.fields is Tcp ==> r@ == "TCP"@,
            self.fields is Udp ==> r@ == "UDP"@,
    {
        match self.fields {
            TransportFields::Tcp { .. } => String::from_str("TCP"),
            TransportFields::Udp { .. } => String::from_str("UDP"),
        }
    }

    /// The color class of the record: green for TCP, cyan for UDP.
    pub fn get_color(&self) -> (r: PresentationColor)
        ensures
            self.fields is Tcp ==> r == PresentationColor::Green,
            self.fields is Udp ==> r == PresentationColor::Cyan,
    {
        match self.fields {
            TransportFields::Tcp { .. } => PresentationColor::Green,
            TransportFields::Udp { .. } => PresentationColor::Cyan,
        }
    }

    /// Renders the one-line summary of the header.
    pub fn to_string(&self) -> (r: String)
        ensures
            self.fields matches TransportFields::Tcp { seq_no, ack_no, flags, window } ==> r@
                == tcp_summary(self.src_port, self.dst_port, seq_no, ack_no, flags, window),
            self.fields matches TransportFields::Udp { length, checksum } ==> r@ == udp_summary(
                self.src_port,
                self.dst_port,
                length,
                checksum,
            ),
    {
        let mut out = String::new();
        push_u64(&mut out, self.src_port as u64);
        out.append(" -> ");
        push_u64(&mut out, self.dst_port as u64);
        match self.fields {
            TransportFields::Tcp { seq_no, ack_no, flags, window } => {
                out.append(" [");
                push_tcp_flags(&mut out, flags);
                out.append("] seq=");
                push_u64(&mut out, seq_no as u64);
                out.append(" ack=");
                push_u64(&mut out, ack_no as u64);
                out.append(" win=");
                push_u64(&mut out, window as u64);
                proof {
                    assert(out@ =~= tcp_summary(
                        self.src_port,
                        self.dst_port,
                        seq_no,
                        ack_no,
                        flags,
                        window,
                    ));
                }
            },
            TransportFields::Udp { length, checksum } => {
                out.append(" len=");
                push_u64(&mut out, length as u64);
                out.append(" checksum=");
                push_u64(&mut out, checksum as u64);
                proof {
                    assert(out@ =~= udp_summary(self.src_port, self.dst_port, length, checksum));
                }
            },
        }
        out
    }
}

} // verus!
