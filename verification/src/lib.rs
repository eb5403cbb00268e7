//! A verified decoder for captured link-layer frames.
//!
//! Raw Ethernet frames are decoded layer by layer: Ethernet header, then the
//! network layer (IPv4 / IPv6 / ARP), then the transport layer (TCP / UDP /
//! ICMP / ICMPv6).  Every decoder is a pure function from bytes to a record,
//! with a contract that pins down exactly which bytes feed each field and on
//! which inputs decoding fails with an underflow.  Capture, terminal output
//! and argument handling live outside this crate.

pub mod arp;
pub mod error;
pub mod ethernet;
pub mod icmp;
pub mod ip;
pub mod pipeline;
pub mod protocol;
pub mod text;
pub mod time;
pub mod transport;
pub mod wire;
