use sniffer::arp::ARP;
use sniffer::error::UnderflowError;
use sniffer::ethernet::{Ethernet, MacAddr};
use sniffer::icmp::ICMP;
use sniffer::ip::IP;
use sniffer::pipeline::decode_frame;
use sniffer::protocol::{Layer3, Layer4Protocol};
use sniffer::text::u64_to_string;
use sniffer::time::HeaderReportedTime;
use sniffer::transport::{PresentationColor, Transport, TransportFields};

#[test]
fn ethernet_underflow_below_18_bytes() {
    for len in 0..18 {
        let data = vec![0u8; len];
        assert!(matches!(Ethernet::try_from(&data), Err(UnderflowError)));
    }
}

#[test]
fn ethernet_decodes_at_exactly_18_bytes() {
    let data = vec![0u8; 18];
    let eth = Ethernet::try_from(&data).unwrap();
    assert_eq!(eth.payload.len(), 0);
    assert_eq!(eth.ethertype, Layer3::Unknown(0));
}

#[test]
fn ethernet_fields_come_from_fixed_offsets() {
    let mut data = vec![0u8; 22];
    for i in 0..6 {
        data[i] = 0x10 + i as u8; // destination
        data[6 + i] = 0x20 + i as u8; // source
    }
    data[12] = 0x11;
    data[13] = 0x22;
    data[14] = 0x33;
    data[15] = 0x44;
    data[16] = 0x08;
    data[17] = 0x00;
    data[18] = 0xDE;
    data[19] = 0xAD;
    data[20] = 0xBE;
    data[21] = 0xEF;
    let eth = Ethernet::try_from(&data).unwrap();
    assert_eq!(eth.dst.to_string(), "10:11:12:13:14:15");
    assert_eq!(eth.src.to_string(), "20:21:22:23:24:25");
    assert_eq!(eth.dot1q_tag, 0x11223344);
    assert_eq!(eth.ethertype, Layer3::IPv4);
    assert_eq!(eth.payload, vec![0xDE, 0xAD, 0xBE, 0xEF]);
}

#[test]
fn mac_formatting_is_canonical() {
    let mac = MacAddr([0x0A, 0x1B, 0x2C, 0x3D, 0x4E, 0x5F]);
    assert_eq!(mac.to_string(), "0A:1B:2C:3D:4E:5F");
    let zero = MacAddr([0, 0, 0, 0, 0, 0]);
    assert_eq!(zero.to_string(), "00:00:00:00:00:00");
}

#[test]
fn mac_formatting_distinguishes_distinct_bytes() {
    let a = MacAddr([0, 0, 0, 0, 0, 0]);
    let b = MacAddr([0, 0, 0, 0, 0, 1]);
    let c = MacAddr([0x12, 0x34, 0x56, 0x78, 0x9A, 0xBC]);
    let d = MacAddr([0x12, 0x34, 0x56, 0x78, 0x9A, 0xBD]);
    assert_ne!(a.to_string(), b.to_string());
    assert_ne!(c.to_string(), d.to_string());
}

#[test]
fn layer3_dispatch() {
    assert_eq!(Layer3::from(0x0800), Layer3::IPv4);
    assert_eq!(Layer3::from(0x0806), Layer3::ARP);
    assert_eq!(Layer3::from(0x86dd), Layer3::IPv6);
    assert_eq!(Layer3::from(0x1234), Layer3::Unknown(0x1234));
    assert_eq!(Layer3::from(0), Layer3::Unknown(0));
}

#[test]
fn layer4_dispatch_is_total_over_all_bytes() {
    for b in 0..=255u8 {
        let got = IP::get_protocol(&b);
        let want = match b {
            6 => Layer4Protocol::TCP,
            17 => Layer4Protocol::UDP,
            1 => Layer4Protocol::ICMP,
            58 => Layer4Protocol::ICMPv6,
            _ => Layer4Protocol::Unknown,
        };
        assert_eq!(got, want);
    }
}

#[test]
fn protocol_names() {
    assert_eq!(Layer3::IPv4.to_string(), "IPv4");
    assert_eq!(Layer3::Unknown(7).to_string(), "???");
    assert_eq!(Layer4Protocol::ICMPv6.to_string(), "ICMPv6");
    assert_eq!(Layer4Protocol::Unknown.to_string(), "???");
}

#[test]
fn ipv4_decode_fields() {
    let mut data = vec![0u8; 20];
    data[9] = 6;
    data[12] = 10;
    data[13] = 0;
    data[14] = 0;
    data[15] = 1;
    data[16] = 10;
    data[17] = 0;
    data[18] = 0;
    data[19] = 2;
    let ip = IP::new(&data, Layer3::IPv4).unwrap();
    assert_eq!(ip.src, "10.0.0.1");
    assert_eq!(ip.dst, "10.0.0.2");
    assert_eq!(ip.protocol, Layer4Protocol::TCP);
    assert!(ip.arp.is_none());
    assert_eq!(ip.payload.len(), 0);
}

#[test]
fn ipv4_underflow_below_20_bytes() {
    let data = vec![0u8; 19];
    assert!(matches!(IP::new(&data, Layer3::IPv4), Err(UnderflowError)));
}

#[test]
fn ipv6_decode_fields() {
    let mut data = vec![0u8; 44];
    data[6] = 17; // next header: UDP
    data[8] = 0xFE;
    data[9] = 0x80;
    data[23] = 0x01;
    data[24] = 0x20;
    data[25] = 0x01;
    data[39] = 0x02;
    data[40] = 9;
    data[41] = 9;
    data[42] = 9;
    data[43] = 9;
    let ip = IP::new(&data, Layer3::IPv6).unwrap();
    assert_eq!(ip.src, "FE80:0:0:0:0:0:0:1:");
    // The unpadded scheme drops the low byte's leading zero: 0x20, 0x01
    // renders as "201:", not "2001:".
    assert_eq!(ip.dst, "201:0:0:0:0:0:0:2:");
    assert_eq!(ip.protocol, Layer4Protocol::UDP);
    assert_eq!(ip.payload, vec![9, 9, 9, 9]);
}

#[test]
fn ipv6_underflow_below_40_bytes() {
    let data = vec![0u8; 39];
    assert!(matches!(IP::new(&data, Layer3::IPv6), Err(UnderflowError)));
}

#[test]
fn ipv6_text_is_unpadded_group_by_group() {
    let data: Vec<u8> = vec![
        0x00, 0x00, // "0:"
        0x00, 0x05, // "5:"
        0x12, 0x34, // "1234:"
        0x12, 0x03, // "123:" (unpadded digits run together)
        0xFF, 0xFF, // "FFFF:"
        0x00, 0x10, // "10:"
        0x01, 0x02, // "12:" (same text as bytes 0x00, 0x12)
        0xAB, 0xCD, // "ABCD:"
    ];
    assert_eq!(
        IP::decimal_to_ipv6(&data, 0),
        "0:5:1234:123:FFFF:10:12:ABCD:"
    );
}

#[test]
fn arp_request_description() {
    let mut payload = vec![0u8; 24];
    payload[6] = 0;
    payload[7] = 1; // opcode: request
    let arp = ARP::new("10.0.0.5".to_string(), "10.0.0.1".to_string(), &payload).unwrap();
    assert_eq!(arp.opcode, 1);
    assert_eq!(arp.to_string(), "Who has 10.0.0.1? Tell 10.0.0.5");
}

#[test]
fn arp_reply_description() {
    let mut payload = vec![0u8; 24];
    payload[7] = 2; // opcode: reply
    for i in 0..6 {
        payload[8 + i] = 0xAA + i as u8; // sender hardware address
    }
    let arp = ARP::new("10.0.0.5".to_string(), "10.0.0.1".to_string(), &payload).unwrap();
    assert_eq!(arp.to_string(), "10.0.0.5 is at AA:AB:AC:AD:AE:AF");
}

#[test]
fn arp_other_opcode_description() {
    let mut payload = vec![0u8; 24];
    payload[7] = 9;
    let arp = ARP::new("a".to_string(), "b".to_string(), &payload).unwrap();
    assert_eq!(arp.to_string(), "ARP");
}

#[test]
fn arp_underflow_below_24_bytes() {
    let payload = vec![0u8; 23];
    assert!(matches!(
        ARP::new("a".to_string(), "b".to_string(), &payload),
        Err(UnderflowError)
    ));
    assert!(matches!(IP::new(&payload, Layer3::ARP), Err(UnderflowError)));
}

#[test]
fn arp_path_reuses_ipv4_offsets() {
    let mut data = vec![0u8; 24];
    data[7] = 1;
    data[12] = 192;
    data[13] = 168;
    data[14] = 0;
    data[15] = 7;
    data[16] = 192;
    data[17] = 168;
    data[18] = 0;
    data[19] = 1;
    let ip = IP::new(&data, Layer3::ARP).unwrap();
    // Both addresses are read at the IPv4 header offsets 12..16 and 16..20,
    // not at the true ARP sender/target field offsets.
    assert_eq!(ip.src, "192.168.0.7");
    assert_eq!(ip.dst, "192.168.0.1");
    assert_eq!(ip.protocol, Layer4Protocol::ARP);
    let arp = ip.arp.unwrap();
    assert_eq!(arp.src_ip, "192.168.0.7");
    assert_eq!(arp.dst_ip, "192.168.0.1");
}

#[test]
fn tcp_decode_and_summary() {
    let mut data = vec![0u8; 20];
    data[0] = 0x17;
    data[1] = 0x70; // source port 6000
    data[2] = 0x00;
    data[3] = 0x50; // destination port 80
    data[7] = 1; // sequence number 1
    data[13] = 0x12; // SYN + ACK
    data[14] = 0x10;
    data[15] = 0x00; // window 4096
    let t = Transport::new(&data, &Layer4Protocol::TCP).unwrap();
    assert_eq!(t.src_port, 6000);
    assert_eq!(t.dst_port, 80);
    assert!(matches!(
        t.fields,
        TransportFields::Tcp { seq_no: 1, ack_no: 0, flags: 0x12, window: 4096 }
    ));
    assert_eq!(t.get_tag(), "TCP");
    assert_eq!(t.get_color(), PresentationColor::Green);
    assert_eq!(t.to_string(), "6000 -> 80 [SYN ACK ] seq=1 ack=0 win=4096");
}

#[test]
fn tcp_underflow_below_20_bytes() {
    let data = vec![0u8; 19];
    assert!(matches!(
        Transport::new(&data, &Layer4Protocol::TCP),
        Err(UnderflowError)
    ));
}

#[test]
fn udp_decode_and_summary() {
    let mut data = vec![0u8; 8];
    data[0] = 0x00;
    data[1] = 53; // source port 53
    data[2] = 0x04;
    data[3] = 0x00; // destination port 1024
    data[4] = 0x02;
    data[5] = 0x00; // length 512
    data[6] = 0xFF;
    data[7] = 0xFF; // checksum 65535
    let t = Transport::new(&data, &Layer4Protocol::UDP).unwrap();
    assert_eq!(t.get_tag(), "UDP");
    assert_eq!(t.get_color(), PresentationColor::Cyan);
    assert_eq!(t.to_string(), "53 -> 1024 len=512 checksum=65535");
}

#[test]
fn udp_underflow_below_8_bytes() {
    let data = vec![0u8; 7];
    assert!(matches!(
        Transport::new(&data, &Layer4Protocol::UDP),
        Err(UnderflowError)
    ));
}

#[test]
fn icmp_descriptions() {
    let cases: [(Layer4Protocol, u8, &str); 8] = [
        (Layer4Protocol::ICMP, 8, "Echo Request"),
        (Layer4Protocol::ICMP, 0, "Echo Reply"),
        (Layer4Protocol::ICMP, 3, "Destination Unreachable"),
        (Layer4Protocol::ICMP, 42, "ICMP"),
        (Layer4Protocol::ICMPv6, 128, "Echo Request"),
        (Layer4Protocol::ICMPv6, 129, "Echo Reply"),
        (Layer4Protocol::ICMPv6, 1, "Destination Unreachable"),
        (Layer4Protocol::ICMPv6, 77, "ICMPv6"),
    ];
    for (protocol, icmp_type, expected) in cases {
        let data = vec![icmp_type, 0];
        let icmp = ICMP::new(&data, &protocol).unwrap();
        assert_eq!(icmp.to_string(), expected);
    }
}

#[test]
fn icmp_underflow_below_2_bytes() {
    let data = vec![0u8; 1];
    assert!(matches!(
        ICMP::new(&data, &Layer4Protocol::ICMP),
        Err(UnderflowError)
    ));
}

fn tcp_syn_frame() -> Vec<u8> {
    let mut data = vec![0u8; 60];
    data[16] = 0x08;
    data[17] = 0x00; // ethertype: IPv4
    // IPv4 header at 18..38
    data[18 + 9] = 6; // protocol: TCP
    data[18 + 12] = 10;
    data[18 + 15] = 1; // source 10.0.0.1
    data[18 + 16] = 10;
    data[18 + 19] = 2; // destination 10.0.0.2
    // TCP header at 38..58
    data[38] = 0x17;
    data[39] = 0x70; // source port 6000
    data[40] = 0x00;
    data[41] = 0x50; // destination port 80
    data[45] = 1; // sequence number 1
    data[50] = 0x50; // data offset
    data[51] = 0x02; // flags: SYN
    data[52] = 0x10;
    data[53] = 0x00; // window 4096
    data
}

#[test]
fn end_to_end_tcp_syn_frame() {
    let data = tcp_syn_frame();
    let rec = decode_frame(&data).unwrap().unwrap();
    assert_eq!(rec.src_addr, "10.0.0.1");
    assert_eq!(rec.dst_addr, "10.0.0.2");
    assert_eq!(rec.tag, "TCP");
    assert_eq!(rec.summary, "6000 -> 80 [SYN ] seq=1 ack=0 win=4096");
    assert!(rec.summary.contains("6000"));
    assert!(rec.summary.contains("80"));
    assert_eq!(rec.color, PresentationColor::Green);
    assert_eq!(rec.frame_len, 60);
}

#[test]
fn end_to_end_is_idempotent() {
    let data = tcp_syn_frame();
    let first = decode_frame(&data);
    let second = decode_frame(&data);
    assert_eq!(first, second);
    assert_eq!(first.unwrap().unwrap(), second.unwrap().unwrap());
}

#[test]
fn end_to_end_skips_unknown_ethertype() {
    let mut data = vec![0u8; 60];
    data[16] = 0xAB;
    data[17] = 0xCD;
    assert_eq!(decode_frame(&data), Ok(None));
}

#[test]
fn end_to_end_unknown_transport_is_displayed() {
    let mut data = vec![0u8; 40];
    data[16] = 0x08;
    data[17] = 0x00; // ethertype: IPv4
    data[18 + 9] = 99; // unrecognised protocol byte
    let rec = decode_frame(&data).unwrap().unwrap();
    assert_eq!(rec.tag, "???");
    assert_eq!(rec.summary, "???");
    assert_eq!(rec.color, PresentationColor::Red);
}

#[test]
fn end_to_end_underflow_in_transport_layer() {
    // 18 Ethernet bytes + 20 IPv4 bytes, but a TCP header needs 20 more.
    let mut data = vec![0u8; 48];
    data[16] = 0x08;
    data[17] = 0x00;
    data[18 + 9] = 6;
    assert_eq!(decode_frame(&data), Err(UnderflowError));
}

#[test]
fn end_to_end_icmp_echo_request() {
    let mut data = vec![0u8; 42];
    data[16] = 0x08;
    data[17] = 0x00;
    data[18 + 9] = 1; // protocol: ICMP
    data[38] = 8; // echo request
    let rec = decode_frame(&data).unwrap().unwrap();
    assert_eq!(rec.tag, "ICMP");
    assert_eq!(rec.summary, "Echo Request");
    assert_eq!(rec.color, PresentationColor::BrightMagenta);
}

#[test]
fn end_to_end_arp_frame() {
    let mut data = vec![0u8; 42];
    data[16] = 0x08;
    data[17] = 0x06; // ethertype: ARP
    data[18 + 7] = 1; // opcode: request
    data[18 + 12] = 10;
    data[18 + 15] = 5; // sender 10.0.0.5
    data[18 + 16] = 10;
    data[18 + 19] = 1; // target 10.0.0.1
    let rec = decode_frame(&data).unwrap().unwrap();
    assert_eq!(rec.tag, "ARP");
    assert_eq!(rec.summary, "Who has 10.0.0.1? Tell 10.0.0.5");
    assert_eq!(rec.color, PresentationColor::Yellow);
}

#[test]
fn decimal_rendering_is_exact() {
    assert_eq!(u64_to_string(0), "0");
    assert_eq!(u64_to_string(7), "7");
    assert_eq!(u64_to_string(10), "10");
    assert_eq!(u64_to_string(255), "255");
    assert_eq!(u64_to_string(4294967295), "4294967295");
}

#[test]
fn timestamp_conversion() {
    assert!(matches!(
        HeaderReportedTime::try_from_timeval(-1, 0),
        Err(_)
    ));
    assert!(matches!(
        HeaderReportedTime::try_from_timeval(0, -1),
        Err(_)
    ));
    let t = HeaderReportedTime::try_from_timeval(1, 500000).unwrap();
    assert_eq!(t.secs, 1);
    assert_eq!(t.micros, 500000);
    assert_eq!(t.to_string(), "1.500000");
    let rolled = HeaderReportedTime::try_from_timeval(1, 2_500_000).unwrap();
    assert_eq!(rolled.secs, 3);
    assert_eq!(rolled.micros, 500000);
}
