use cavin_tools::handler::SockAddr;
use cavin_tools::packet::{modify_destination, parse_packet};
use cavin_tools::redirector::{PacketAction, Redirector, RedirectorConfig};

/// A minimal TCP/IPv4 packet: 20-byte IPv4 header, 20-byte TCP header.
fn tcp_packet(src: (u8, u8, u8, u8), sport: u16, dst: (u8, u8, u8, u8), dport: u16) -> Vec<u8> {
    let mut p = vec![0u8; 40];
    p[0] = 0x45; // version 4, ihl 5
    p[2] = 0;
    p[3] = 40; // total length
    p[8] = 64; // ttl
    p[9] = 6; // protocol TCP
    p[12] = src.0;
    p[13] = src.1;
    p[14] = src.2;
    p[15] = src.3;
    p[16] = dst.0;
    p[17] = dst.1;
    p[18] = dst.2;
    p[19] = dst.3;
    p[20..22].copy_from_slice(&sport.to_be_bytes());
    p[22..24].copy_from_slice(&dport.to_be_bytes());
    p[32] = 0x50; // data offset 5
    p
}

fn header_checksum_folds_to_ffff(p: &[u8], ihl: usize) -> bool {
    let mut sum: u32 = 0;
    let mut i = 0;
    while i + 2 <= ihl {
        sum += u32::from(u16::from_be_bytes([p[i], p[i + 1]]));
        i += 2;
    }
    while sum >> 16 != 0 {
        sum = (sum & 0xffff) + (sum >> 16);
    }
    sum == 0xffff
}

#[test]
fn parse_reads_the_addresses() {
    let p = tcp_packet((10, 0, 0, 2), 50000, (93, 184, 216, 34), 443);
    let parsed = parse_packet(&p).expect("a well-formed packet parses");
    assert_eq!(
        (parsed.src.ip_a, parsed.src.ip_b, parsed.src.ip_c, parsed.src.ip_d),
        (10, 0, 0, 2)
    );
    assert_eq!(parsed.src.port, 50000);
    assert_eq!(
        (parsed.dst.ip_a, parsed.dst.ip_b, parsed.dst.ip_c, parsed.dst.ip_d),
        (93, 184, 216, 34)
    );
    assert_eq!(parsed.dst.port, 443);
}

#[test]
fn malformed_packets_do_not_parse() {
    assert!(parse_packet(&vec![0u8; 10]).is_none(), "too short");
    let mut not_v4 = tcp_packet((10, 0, 0, 2), 1, (10, 0, 0, 3), 2);
    not_v4[0] = 0x65;
    assert!(parse_packet(&not_v4).is_none(), "wrong version");
    let mut not_tcp = tcp_packet((10, 0, 0, 2), 1, (10, 0, 0, 3), 2);
    not_tcp[9] = 17;
    assert!(parse_packet(&not_tcp).is_none(), "not TCP");
}

#[test]
fn rewrite_changes_destination_and_keeps_a_valid_checksum() {
    let mut p = tcp_packet((10, 0, 0, 2), 50000, (93, 184, 216, 34), 443);
    let proxy = SockAddr { ip_a: 127, ip_b: 0, ip_c: 0, ip_d: 1, port: 9527 };
    modify_destination(&mut p, proxy);

    assert_eq!(&p[16..20], &[127, 0, 0, 1]);
    assert_eq!(u16::from_be_bytes([p[22], p[23]]), 9527);
    // Source untouched.
    assert_eq!(&p[12..16], &[10, 0, 0, 2]);
    assert_eq!(u16::from_be_bytes([p[20], p[21]]), 50000);
    // The header checksum verifies.
    assert!(header_checksum_folds_to_ffff(&p, 20));
    // The TCP checksum is zeroed for the network stack.
    assert_eq!(&p[36..38], &[0, 0]);
}

#[test]
fn short_or_foreign_buffers_are_left_alone() {
    let mut short = vec![1u8, 2, 3];
    let proxy = SockAddr { ip_a: 127, ip_b: 0, ip_c: 0, ip_d: 1, port: 9527 };
    modify_destination(&mut short, proxy);
    assert_eq!(short, vec![1, 2, 3]);
}

#[test]
fn only_monitored_processes_are_redirected() {
    let mut redirector = Redirector::new(RedirectorConfig::default());
    redirector.add_pid(4242);
    let proxy = SockAddr { ip_a: 127, ip_b: 0, ip_c: 0, ip_d: 1, port: 9527 };
    let packet = tcp_packet((10, 0, 0, 2), 50000, (93, 184, 216, 34), 443);

    match redirector.decide_packet(&packet, Some(4242), proxy) {
        PacketAction::Redirect { packet: rewritten, info } => {
            assert_eq!(&rewritten[16..20], &[127, 0, 0, 1]);
            assert_eq!(info.pid, 4242);
            assert_eq!(info.original_dst.port, 443);
            assert_eq!(
                (
                    info.original_dst.ip_a,
                    info.original_dst.ip_b,
                    info.original_dst.ip_c,
                    info.original_dst.ip_d
                ),
                (93, 184, 216, 34)
            );
            assert_eq!(info.dst_addr.port, 9527);
        }
        PacketAction::Pass => panic!("a monitored process's packet must be redirected"),
    }

    assert!(matches!(
        redirector.decide_packet(&packet, Some(7), proxy),
        PacketAction::Pass
    ));
    assert!(matches!(
        redirector.decide_packet(&packet, None, proxy),
        PacketAction::Pass
    ));
}
