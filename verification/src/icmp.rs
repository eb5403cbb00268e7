//! ICMP and ICMPv6 decoding.

use vstd::prelude::*;
use vstd::string::StringExecFns;

use crate::error::UnderflowError;
use crate::protocol::Layer4Protocol;

verus! {

/// A decoded ICMP or ICMPv6 message: the type and code bytes plus the
/// protocol family they were read under.
pub struct ICMP {
    pub protocol: Layer4Protocol,
    pub icmp_type: u8,
    pub code: u8,
}

/// The short description of an ICMP message, specific to its family.
pub open spec fn icmp_description(protocol: Layer4Protocol, icmp_type: u8, code: u8) -> Seq<
    char,
> {
    if protocol is ICMP {
        if icmp_type == 8 {
            "Echo Request"@
        } else if icmp_type == 0 {
            "Echo Reply"@
        } else if icmp_type == 3 {
            "Destination Unreachable"@
        } else {
            "ICMP"@
        }
    } else {
        if icmp_type == 128 {
            "Echo Request"@
        } else if icmp_type == 129 {
            "Echo Reply"@
        } else if icmp_type == 1 {
            "Destination Unreachable"@
        } else {
            "ICMPv6"@
        }
    }
}

impl ICMP {
    /// Reads the type and code bytes, failing on fewer than 2 bytes.
    pub fn new(data: &[u8], protocol: &Layer4Protocol) -> (r: Result<Self, UnderflowError>)
        requires
            *protocol is ICMP || *protocol is ICMPv6,
        ensures
            data@.len() >= 2 <==> r is Ok,
            r matches Ok(i) ==> {
                &&& i.protocol == *protocol
                &&& i.icmp_type == data@[0]
                &&& i.code == data@[1]
            },
    {
        if data.len() < 2 {
            return Err(UnderflowError);
        }
        Ok(ICMP { protocol: *protocol, icmp_type: data[0], code: data[1] })
    }

    /// Renders the message's description line.
    pub fn to_string(&self) -> (r: String)
        ensures
            r@ == icmp_description(self.protocol, self.icmp_type, self.code),
    {
        match self.protocol {
            Layer4Protocol::ICMP => {
                if self.icmp_type == 8 {
                    String::from_str("Echo Request")
                } else if self.icmp_type == 0 {
                    String::from_str("Echo Reply")
                } else if self.icmp_type == 3 {
                    String::from_str("Destination Unreachable")
                } else {
                    String::from_str("ICMP")
                }
            },
            _ => {
                if self.icmp_type == 128 {
                    String::from_str("Echo Request")
                } else if self.icmp_type == 129 {
                    String::from_str("Echo Reply")
                } else if self.icmp_type == 1 {
                    String::from_str("Destination Unreachable")
                } else {
                    String::from_str("ICMPv6")
                }
            },
        }
    }
}

} // verus!
