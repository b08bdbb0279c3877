//! Packet rewriting for transparent redirection: parsing the IPv4 and TCP
//! headers of an intercepted packet, rewriting its destination in place,
//! and recomputing the IPv4 header checksum.  The TCP checksum is zeroed
//! and left to the network stack.

use vstd::prelude::*;
use crate::handler::SockAddr;
use crate::sni::be16;

verus! {

use vstd::pervasive::VecAdditionalExecFns;

/// The fields of an intercepted TCP/IPv4 packet that the redirector reads.
pub ghost struct PacketFields {
    pub ihl: int,
    pub src_ip: (u8, u8, u8, u8),
    pub dst_ip: (u8, u8, u8, u8),
    pub src_port: int,
    pub dst_port: int,
}

/// The IPv4 header length in bytes, from the first header byte.
pub open spec fn spec_ihl(b: u8) -> int {
    (b as int % 16) * 4
}

/// Whether the bytes are an IPv4 packet carrying a whole TCP header: the
/// version is 4, the stated header lengths fit, and the protocol is TCP.
pub open spec fn is_tcp_ipv4(data: Seq<u8>) -> bool {
    &&& data.len() >= 20
    &&& data[0] as int / 16 == 4
    &&& spec_ihl(data[0]) >= 20
    &&& data.len() >= spec_ihl(data[0]) + 20
    &&& data[9] == 6
    &&& data[spec_ihl(data[0]) + 12] as int / 16 >= 5
    &&& data.len() >= spec_ihl(data[0]) + (data[spec_ihl(data[0]) + 12] as int / 16) * 4
}

/// The fields read out of a TCP/IPv4 packet.
pub open spec fn spec_packet_fields(data: Seq<u8>) -> PacketFields {
    let ihl = spec_ihl(data[0]);
    PacketFields {
        ihl,
        src_ip: (data[12], data[13], data[14], data[15]),
        dst_ip: (data[16], data[17], data[18], data[19]),
        src_port: be16(data[ihl], data[ihl + 1]),
        dst_port: be16(data[ihl + 2], data[ihl + 3]),
    }
}

/// The addresses of a parsed packet, as plain socket addresses.
pub struct ParsedPacket {
    pub src: SockAddr,
    pub dst: SockAddr,
}

/// Parse the IPv4 and TCP headers of an intercepted packet: source and
/// destination address of exactly the packets `is_tcp_ipv4` accepts.
pub fn parse_packet(data: &Vec<u8>) -> (r: Option<ParsedPacket>)
    ensures
        r is Some <==> is_tcp_ipv4(data@),
        r is Some ==> {
            let f = spec_packet_fields(data@);
            let p = r.unwrap();
            &&& (p.src.ip_a, p.src.ip_b, p.src.ip_c, p.src.ip_d) == f.src_ip
            &&& p.src.port as int == f.src_port
            &&& (p.dst.ip_a, p.dst.ip_b, p.dst.ip_c, p.dst.ip_d) == f.dst_ip
            &&& p.dst.port as int == f.dst_port
        },
{
    let len = data.len();
    if len < 20 {
        return None;
    }
    if data[0] / 16 != 4 {
        return None;
    }
    let ihl = (data[0] as usize % 16) * 4;
    if ihl < 20 {
        return None;
    }
    if len < 20 || ihl + 20 > len {
        return None;
    }
    if data[9] != 6 {
        return None;
    }
    let doff = data[ihl + 12] as usize / 16;
    if doff < 5 {
        return None;
    }
    if doff * 4 > len - ihl {
        return None;
    }
    let src = SockAddr {
        ip_a: data[12],
        ip_b: data[13],
        ip_c: data[14],
        ip_d: data[15],
        port: (data[ihl] as u16) * 256 + (data[ihl + 1] as u16),
    };
    let dst = SockAddr {
        ip_a: data[16],
        ip_b: data[17],
        ip_c: data[18],
        ip_d: data[19],
        port: (data[ihl + 2] as u16) * 256 + (data[ihl + 3] as u16),
    };
    Some(ParsedPacket { src, dst })
}

/// The sum of the big-endian 16-bit words of the first `k` bytes (`k`
/// even).
pub open spec fn word_sum(data: Seq<u8>, k: int) -> int
    decreases (if k < 0 { 0int } else { k }),
{
    if k <= 0 {
        0
    } else {
        word_sum(data, k - 2) + be16(data[k - 2], data[k - 1])
    }
}

/// End-around-carry fold of a sum into 16 bits.
pub open spec fn fold_carries(s: int) -> int
    decreases s,
{
    if s < 0 {
        0
    } else if s < 65536 {
        s
    } else {
        fold_carries(s % 65536 + s / 65536)
    }
}

/// The IPv4 header checksum of a header whose checksum field is zero: the
/// ones' complement of the end-around-carry sum of its 16-bit words.
pub open spec fn ipv4_checksum(data: Seq<u8>, ihl: int) -> int {
    65535 - fold_carries(word_sum(data, ihl))
}

/// A byte sequence with the destination of `spec_modify_destination`
/// written in, before the checksum is recomputed: destination IP at bytes
/// 16..20, destination port at ihl+2..ihl+4, and a zeroed header checksum
/// at bytes 10..12.
pub open spec fn with_new_destination(data: Seq<u8>, new_dst: SockAddr) -> Seq<u8> {
    let ihl = spec_ihl(data[0]);
    data.update(16, new_dst.ip_a).update(17, new_dst.ip_b).update(18, new_dst.ip_c).update(
        19,
        new_dst.ip_d,
    ).update(ihl + 2, (new_dst.port / 256) as u8).update(ihl + 3, (new_dst.port % 256) as u8)
        .update(10, 0u8).update(11, 0u8)
}

/// What rewriting a packet's destination leaves in the buffer: too-short or
/// non-IPv4 buffers are untouched; otherwise the destination address and
/// port are replaced, the IPv4 header checksum is recomputed over the
/// header, and the TCP checksum is zeroed for the network stack to fill.
pub open spec fn spec_modify_destination(data: Seq<u8>, new_dst: SockAddr) -> Seq<u8> {
    if data.len() < 20 || data[0] as int / 16 != 4 || data.len() < spec_ihl(data[0]) + 4 {
        data
    } else {
        let ihl = spec_ihl(data[0]);
        let d1 = with_new_destination(data, new_dst);
        let cs = ipv4_checksum(d1, ihl);
        let d2 = d1.update(10, (cs / 256) as u8).update(11, (cs % 256) as u8);
        if d2.len() > ihl + 17 {
            d2.update(ihl + 16, 0u8).update(ihl + 17, 0u8)
        } else {
            d2
        }
    }
}

/// Rewrite the packet's destination in place, recompute the IPv4 header
/// checksum, and zero the TCP checksum.
pub fn modify_destination(packet: &mut Vec<u8>, new_dst: SockAddr)
    ensures
        final(packet)@ == spec_modify_destination(old(packet)@, new_dst),
{
    let len = packet.len();
    if len < 20 {
        return ;
    }
    let first = packet[0];
    if first / 16 != 4 {
        return ;
    }
    let ihl = (first as usize % 16) * 4;
    if len < ihl + 4 {
        return ;
    }
    packet.set(16, new_dst.ip_a);
    packet.set(17, new_dst.ip_b);
    packet.set(18, new_dst.ip_c);
    packet.set(19, new_dst.ip_d);
    packet.set(ihl + 2, (new_dst.port / 256) as u8);
    packet.set(ihl + 3, (new_dst.port % 256) as u8);
    packet.set(10, 0);
    packet.set(11, 0);
    assert(packet@ =~= with_new_destination(old(packet)@, new_dst));
    let ghost d1 = packet@;
    let mut sum: u32 = 0;
    let mut i: usize = 0;
    while i + 2 <= ihl
        invariant
            ihl <= len,
            len == packet@.len(),
            ihl % 2 == 0,
            i % 2 == 0,
            i <= ihl,
            sum == word_sum(packet@, i as int),
            sum <= 65535 * (i / 2),
            ihl <= 60,
            packet@ == d1,
        decreases ihl - i,
    {
        let word = (packet[i] as u32) * 256 + (packet[i + 1] as u32);
        assert(word_sum(packet@, i + 2 as int) == word_sum(packet@, i as int) + be16(
            packet@[i as int],
            packet@[i + 1 as int],
        ));
        sum = sum + word;
        i = i + 2;
    }
    assert(sum == word_sum(d1, ihl as int));
    while sum >= 65536
        invariant
            fold_carries(word_sum(d1, ihl as int)) == fold_carries(sum as int),
        decreases sum,
    {
        sum = sum % 65536 + sum / 65536;
    }
    assert(sum as int == fold_carries(word_sum(d1, ihl as int)));
    let checksum: u32 = 65535 - sum;
    packet.set(10, (checksum / 256) as u8);
    packet.set(11, (checksum % 256) as u8);
    if len > ihl + 17 {
        packet.set(ihl + 16, 0);
        packet.set(ihl + 17, 0);
        assert(packet@ =~= spec_modify_destination(old(packet)@, new_dst));
    } else {
        assert(packet@ =~= spec_modify_destination(old(packet)@, new_dst));
    }
}

} // verus!
