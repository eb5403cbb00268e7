//! ARP record extraction and description rendering.

use vstd::prelude::*;
use vstd::slice::slice_subrange;
use vstd::string::StringExecFns;

use crate::error::UnderflowError;
use crate::ethernet::{mac_text, MacAddr};
use crate::wire::{be16, read_be16};

verus! {

/// An ARP record: the already-extracted sender and target addresses plus
/// the hardware addresses and opcode read from the ARP payload.
pub struct ARP {
    pub src_ip: String,
    pub dst_ip: String,
    pub src_mac: MacAddr,
    pub dst_mac: MacAddr,
    pub opcode: u16,
}

/// The one-line description of an ARP record: a question for a request
/// (opcode 1), an answer for a reply (opcode 2), and bare `"ARP"` otherwise.
pub open spec fn arp_description(
    opcode: u16,
    src_ip: Seq<char>,
    dst_ip: Seq<char>,
    src_mac: Seq<u8>,
) -> Seq<char> {
    if opcode == 1 {
        "Who has "@ + dst_ip + "? Tell "@ + src_ip
    } else if opcode == 2 {
        src_ip + " is at "@ + mac_text(src_mac)
    } else {
        "ARP"@
    }
}

impl ARP {
    /// Reads the opcode and both hardware addresses from an ARP payload,
    /// failing on fewer than 24 bytes.
    pub fn new(src_ip: String, dst_ip: String, data: &[u8]) -> (r: Result<Self, UnderflowError>)
        ensures
            data@.len() >= 24 <==> r is Ok,
            r matches Ok(a) ==> {
                &&& a.src_ip@ == src_ip@
                &&& a.dst_ip@ == dst_ip@
                &&& a.src_mac@ == data@.subrange(8, 14)
                &&& a.dst_mac@ == data@.subrange(18, 24)
                &&& a.opcode == be16(data@[6], data@[7])
            },
    {
        if data.len() < 24 {
            return Err(UnderflowError);
        }
        let src_mac = MacAddr::from_slice(slice_subrange(data, 8, 14));
        let dst_mac = MacAddr::from_slice(slice_subrange(data, 18, 24));
        let opcode = read_be16(data, 6);
        proof {
            assert(data@.subrange(8, 14).subrange(0, 6) =~= data@.subrange(8, 14));
            assert(data@.subrange(18, 24).subrange(0, 6) =~= data@.subrange(18, 24));
        }
        Ok(
            ARP {
                src_ip,
                dst_ip,
                src_mac,
                dst_mac,
                opcode,
            },
        )
    }

    /// Renders the record's description line.
    pub fn to_string(&self) -> (r: String)
        ensures
            r@ == arp_description(self.opcode, self.src_ip@, self.dst_ip@, self.src_mac@),
    {
        if self.opcode == 1 {
            let mut out = String::from_str("Who has ");
            out.append(self.dst_ip.as_str());
            out.append("? Tell ");
            out.append(self.src_ip.as_str());
            proof {
                assert(out@ =~= arp_description(
                    self.opcode,
                    self.src_ip@,
                    self.dst_ip@,
                    self.src_mac@,
                ));
            }
            out
        } else if self.opcode == 2 {
            let mut out = String::new();
            out.append(self.src_ip.as_str());
            out.append(" is at ");
            let mac = self.src_mac.to_string();
            out.append(mac.as_str());
            proof {
                assert(out@ =~= arp_description(
                    self.opcode,
                    self.src_ip@,
                    self.dst_ip@,
                    self.src_mac@,
                ));
            }
            out
        } else {
            String::from_str("ARP")
        }
    }
}

} // verus!
