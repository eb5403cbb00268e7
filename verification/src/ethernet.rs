//! Ethernet frame decoding and MAC address rendering.

use vstd::prelude::*;
use vstd::slice::{slice_subrange, slice_to_vec};
use vstd::string::StringExecFns;

use crate::error::UnderflowError;
use crate::protocol::{spec_layer3_of, Layer3};
use crate::text::{hex_digit, lemma_hex_digit_injective, push_hex_pad2};
use crate::wire::{be16, be32, read_be16, read_be32};

verus! {

/// The number of header bytes an Ethernet decode consumes.
pub const ETHER_FRAME_MIN_SIZE: usize = 18;

/// The offset at which the 802.1Q tag field is assumed to sit.
pub const ETHER_FRAME_DOT1Q_OFFSET: usize = 12;

/// A MAC address: six raw bytes, rendered as colon-separated uppercase hex.
#[derive(Clone, Copy, Debug)]
pub struct MacAddr(pub [u8; 6]);

impl View for MacAddr {
    type V = Seq<u8>;

    open spec fn view(&self) -> Seq<u8> {
        self.0@
    }
}

/// The canonical text of six address bytes: six two-digit uppercase hex
/// groups separated by colons, 17 characters in all.
pub open spec fn mac_text(s: Seq<u8>) -> Seq<char> {
    seq![
        hex_digit(s[0] as int / 16),
        hex_digit(s[0] as int % 16),
        ':',
        hex_digit(s[1] as int / 16),
        hex_digit(s[1] as int % 16),
        ':',
        hex_digit(s[2] as int / 16),
        hex_digit(s[2] as int % 16),
        ':',
        hex_digit(s[3] as int / 16),
        hex_digit(s[3] as int % 16),
        ':',
        hex_digit(s[4] as int / 16),
        hex_digit(s[4] as int % 16),
        ':',
        hex_digit(s[5] as int / 16),
        hex_digit(s[5] as int % 16),
    ]
}

impl MacAddr {
    /// Copies the first six bytes of `data` into an address.
    pub fn from_slice(data: &[u8]) -> (r: Self)
        requires
            data@.len() >= 6,
        ensures
            r@ == data@.subrange(0, 6),
    {
        let r = MacAddr([data[0], data[1], data[2], data[3], data[4], data[5]]);
        proof {
            assert(r@ =~= data@.subrange(0, 6));
        }
        r
    }

    /// Renders the address as `"AA:BB:CC:DD:EE:FF"`.
    pub fn to_string(&self) -> (r: String)
        ensures
            r@ == mac_text(self@),
    {
        proof {
            reveal_strlit(":");
        }
        let mut out = String::new();
        push_hex_pad2(&mut out, self.0[0]);
        out.append(":");
        push_hex_pad2(&mut out, self.0[1]);
        out.append(":");
        push_hex_pad2(&mut out, self.0[2]);
        out.append(":");
        push_hex_pad2(&mut out, self.0[3]);
        out.append(":");
        push_hex_pad2(&mut out, self.0[4]);
        out.append(":");
        push_hex_pad2(&mut out, self.0[5]);
        proof {
            assert(out@ =~= mac_text(self@));
        }
        out
    }
}

/// MAC rendering is injective: six-byte sequences with the same canonical
/// text are the same bytes.
pub proof fn lemma_mac_text_injective(a: Seq<u8>, b: Seq<u8>)
    requires
        a.len() == 6,
        b.len() == 6,
        mac_text(a) == mac_text(b),
    ensures
        a =~= b,
{
    assert forall|i: int| 0 <= i < 6 implies a[i] == b[i] by {
        assert(mac_text(a)[3 * i] == mac_text(b)[3 * i]);
        assert(mac_text(a)[3 * i + 1] == mac_text(b)[3 * i + 1]);
        lemma_hex_digit_injective(a[i] as int / 16, b[i] as int / 16);
        lemma_hex_digit_injective(a[i] as int % 16, b[i] as int % 16);
    }
}

/// A decoded Ethernet frame.
///
/// The first 18 bytes of the raw frame are always read the same way:
/// destination and source addresses, a field treated as an 802.1Q tag, and
/// the ethertype; everything after them is the payload.
pub struct Ethernet {
    pub dst: MacAddr,
    pub src: MacAddr,
    pub dot1q_tag: u32,
    pub ethertype: Layer3,
    pub payload: Vec<u8>,
}

impl Ethernet {
    /// Decodes a raw frame, failing on fewer than 18 bytes.
    pub fn try_from(packet_bytes: &[u8]) -> (r: Result<Self, UnderflowError>)
        ensures
            packet_bytes@.len() >= ETHER_FRAME_MIN_SIZE <==> r is Ok,
            r matches Ok(e) ==> {
                &&& e.dst@ == packet_bytes@.subrange(0, 6)
                &&& e.src@ == packet_bytes@.subrange(6, 12)
                &&& e.dot1q_tag == be32(
                    packet_bytes@[12],
                    packet_bytes@[13],
                    packet_bytes@[14],
                    packet_bytes@[15],
                )
                &&& e.ethertype == spec_layer3_of(be16(packet_bytes@[16], packet_bytes@[17]))
                &&& e.payload@ == packet_bytes@.skip(18)
            },
    {
        if packet_bytes.len() < ETHER_FRAME_MIN_SIZE {
            return Err(UnderflowError);
        }
        let dst = MacAddr::from_slice(slice_subrange(packet_bytes, 0, 6));
        let src = MacAddr::from_slice(slice_subrange(packet_bytes, 6, 12));
        let dot1q_tag = read_be32(packet_bytes, ETHER_FRAME_DOT1Q_OFFSET);
        let ethertype = Layer3::from(read_be16(packet_bytes, 16));
        let payload = slice_to_vec(slice_subrange(packet_bytes, 18, packet_bytes.len()));
        proof {
            assert(packet_bytes@.subrange(0, 6).subrange(0, 6) =~= packet_bytes@.subrange(0, 6));
            assert(packet_bytes@.subrange(6, 12).subrange(0, 6) =~= packet_bytes@.subrange(6, 12));
            assert(packet_bytes@.subrange(18, packet_bytes@.len() as int) =~= packet_bytes@.skip(
                18,
            ));
        }
        Ok(
            Ethernet {
                dst,
                src,
                dot1q_tag,
                ethertype,
                payload,
            },
        )
    }
}

} // verus!
