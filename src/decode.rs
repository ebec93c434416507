//! Decoding of raw Ethernet frames into the record that the detectors read.
use vstd::prelude::*;

verus! {

/// Length of an Ethernet II header.
pub const ETHERNET_HEADER_LEN: usize = 14;

/// Length of an IPv4 header without options.
pub const IPV4_MIN_HEADER_LEN: usize = 20;

/// Length of a TCP header without options.
pub const TCP_MIN_HEADER_LEN: usize = 20;

/// EtherType of IPv4.
pub const ETHERTYPE_IPV4: u16 = 0x0800;

/// IPv4 protocol number of TCP.
pub const PROTOCOL_TCP: u8 = 6;

/// One decoded frame: addresses are IPv4 addresses as big-endian integers,
/// `payload` is the IPv4 payload.
pub struct DecodedRecord {
    pub source_ip: u32,
    pub destination_ip: u32,
    pub protocol: u8,
    pub dest_port: Option<u16>,
    pub payload: Vec<u8>,
}

/// Big-endian 16-bit value at `i`.
pub open spec fn be16(b: Seq<u8>, i: int) -> int {
    b[i] as int * 256 + b[i + 1] as int
}

/// Big-endian 32-bit value at `i`.
pub open spec fn be32(b: Seq<u8>, i: int) -> int {
    be16(b, i) * 65536 + be16(b, i + 2)
}

/// IPv4 header length in bytes, from the IHL field.
pub open spec fn ipv4_header_len(f: Seq<u8>) -> int {
    (f[14] as int % 16) * 4
}

/// The frame carries an IPv4 packet whose header is complete and well formed.
pub open spec fn is_ipv4_frame(f: Seq<u8>) -> bool {
    &&& f.len() >= ETHERNET_HEADER_LEN + IPV4_MIN_HEADER_LEN
    &&& be16(f, 12) == ETHERTYPE_IPV4
    &&& f[14] as int / 16 == 4
    &&& ipv4_header_len(f) >= IPV4_MIN_HEADER_LEN
    &&& ETHERNET_HEADER_LEN + ipv4_header_len(f) <= f.len()
}

/// Start of the IPv4 payload within the frame.
pub open spec fn payload_start(f: Seq<u8>) -> int {
    ETHERNET_HEADER_LEN + ipv4_header_len(f)
}

/// End of the IPv4 payload: the total-length field, cut at the captured bytes,
/// and never before the payload's start.
pub open spec fn payload_end(f: Seq<u8>) -> int {
    let total = be16(f, 16);
    let avail = f.len() - ETHERNET_HEADER_LEN;
    if total <= ipv4_header_len(f) {
        payload_start(f)
    } else if total < avail {
        ETHERNET_HEADER_LEN + total
    } else {
        f.len() as int
    }
}

pub open spec fn ipv4_payload(f: Seq<u8>) -> Seq<u8> {
    f.subrange(payload_start(f), payload_end(f))
}

/// Destination port when the packet is TCP and its payload holds a full TCP header.
pub open spec fn tcp_dest_port(f: Seq<u8>) -> Option<u16> {
    let p = ipv4_payload(f);
    if f[23] == PROTOCOL_TCP && p.len() >= TCP_MIN_HEADER_LEN {
        Some(be16(p, 2) as u16)
    } else {
        None
    }
}

/// What `decode` makes of a frame.
pub open spec fn decoded(f: Seq<u8>, r: DecodedRecord) -> bool {
    &&& r.source_ip as int == be32(f, 26)
    &&& r.destination_ip as int == be32(f, 30)
    &&& r.protocol == f[23]
    &&& r.dest_port == tcp_dest_port(f)
    &&& r.payload@ == ipv4_payload(f)
}

fn read_be16(b: &[u8], i: usize) -> (r: u16)
    requires
        i + 1 < b@.len(),
    ensures
        r as int == be16(b@, i as int),
{
    (b[i] as u16) * 256 + (b[i + 1] as u16)
}

fn read_be32(b: &[u8], i: usize) -> (r: u32)
    requires
        i + 3 < b@.len(),
    ensures
        r as int == be32(b@, i as int),
{
    let len = b.len();
    assert(i + 3 < len);
    let hi = read_be16(b, i);
    let lo = read_be16(b, i + 2);
    (hi as u32) * 65536 + (lo as u32)
}

/// Decodes an Ethernet II frame holding IPv4. Any other EtherType, and any
/// truncated or malformed IPv4 header, gives `None`.
pub fn decode(frame: &[u8]) -> (r: Option<DecodedRecord>)
    ensures
        r.is_some() <==> is_ipv4_frame(frame@),
        r matches Some(rec) ==> decoded(frame@, rec),
{
    if frame.len() < ETHERNET_HEADER_LEN + IPV4_MIN_HEADER_LEN {
        return None;
    }
    if read_be16(frame, 12) != ETHERTYPE_IPV4 {
        return None;
    }
    let vihl = frame[14];
    let header_len = ((vihl % 16) as usize) * 4;
    if vihl / 16 != 4 || header_len < IPV4_MIN_HEADER_LEN || ETHERNET_HEADER_LEN + header_len
        > frame.len() {
        return None;
    }
    let start = ETHERNET_HEADER_LEN + header_len;
    let total = read_be16(frame, 16) as usize;
    let avail = frame.len() - ETHERNET_HEADER_LEN;
    let end = if total <= header_len {
        start
    } else if total < avail {
        ETHERNET_HEADER_LEN + total
    } else {
        frame.len()
    };
    let mut payload: Vec<u8> = Vec::new();
    let mut i: usize = start;
    while i < end
        invariant
            start <= i <= end <= frame@.len(),
            payload@ == frame@.subrange(start as int, i as int),
        decreases end - i,
    {
        payload.push(frame[i]);
        i = i + 1;
        assert(payload@ =~= frame@.subrange(start as int, i as int));
    }
    let protocol = frame[23];
    let dest_port = if protocol == PROTOCOL_TCP && payload.len() >= TCP_MIN_HEADER_LEN {
        let p = read_be16(payload.as_slice(), 2);
        Some(p)
    } else {
        None
    };
    let source_ip = read_be32(frame, 26);
    let destination_ip = read_be32(frame, 30);
    Some(DecodedRecord { source_ip, destination_ip, protocol, dest_port, payload })
}

} // verus!
