//! Wire formats at the library's edge.
//!
//! The byte-oriented codec for IPv4 and TCP headers is supplied by the
//! `etherparse` crate; the state machine works on the plain values below.
//! Each call into the codec sits behind one trusted function. Parsing turns
//! header bytes into an [`IpHeaderInfo`] or [`TcpHeaderInfo`]; what the
//! codec reads from the bytes is short enough to state in full, as
//! [`spec_parse_ipv4`] and [`spec_parse_tcp`]. [`build_frame`] serializes
//! one outbound IPv4+TCP segment; its bytes depend on the arguments alone
//! but include a checksum, so the result is only given a name,
//! [`spec_frame`], that the contracts of the verified callers speak of.

use vstd::prelude::*;

verus! {

/// The protocol number that IPv4 assigns to TCP.
pub const TCP_PROTOCOL: u8 = 6;

/// The fields of a parsed IPv4 header that the endpoint reads. Addresses
/// are host-order `u32` values; byte order on the wire is the codec's
/// concern.
#[derive(Clone, Copy, PartialEq, Eq, Structural)]
pub struct IpHeaderInfo {
    /// Source address, host order.
    pub src: u32,
    /// Destination address, host order.
    pub dst: u32,
    /// The protocol of the carried payload.
    pub protocol: u8,
    /// Length in bytes of the header on the wire, options included.
    pub header_len: usize,
}

/// The fields of a parsed TCP header that the endpoint reads.
#[derive(Clone, Copy, PartialEq, Eq, Structural)]
pub struct TcpHeaderInfo {
    pub src_port: u16,
    pub dst_port: u16,
    /// Sequence number of the first payload byte (or of the SYN).
    pub seq: u32,
    /// Acknowledgment number; meaningful only when `ack` is set.
    pub ackn: u32,
    /// Window size the peer advertises.
    pub wnd: u16,
    pub syn: bool,
    pub ack: bool,
    pub fin: bool,
    pub rst: bool,
    /// Length in bytes of the header on the wire, options included.
    pub header_len: usize,
}

/// The big-endian 16-bit value whose two bytes start at offset `i`.
pub open spec fn be16_at(b: Seq<u8>, i: int) -> u16
    recommends
        0 <= i,
        i + 2 <= b.len(),
{
    (b[i] * 0x100 + b[i + 1]) as u16
}

/// The big-endian 32-bit value whose four bytes start at offset `i`.
pub open spec fn be32_at(b: Seq<u8>, i: int) -> u32
    recommends
        0 <= i,
        i + 4 <= b.len(),
{
    (b[i] * 0x100_0000 + b[i + 1] * 0x1_0000 + b[i + 2] * 0x100 + b[i + 3]) as u32
}

/// The IPv4 header at the head of `buf`, as `Ipv4HeaderSlice::from_slice`
/// reads it: the parse succeeds on a version-4 header whose length field
/// names at least the 20 fixed bytes and lies within the slice. The header
/// checksum is not inspected.
pub open spec fn spec_parse_ipv4(buf: Seq<u8>) -> Option<IpHeaderInfo> {
    if buf.len() < 20 {
        None
    } else if buf[0] >> 4 != 4 {
        None
    } else if buf[0] & 0xf < 5 {
        None
    } else if buf.len() < (buf[0] & 0xf) * 4 {
        None
    } else {
        Some(
            IpHeaderInfo {
                src: be32_at(buf, 12),
                dst: be32_at(buf, 16),
                protocol: buf[9],
                header_len: ((buf[0] & 0xf) * 4) as usize,
            },
        )
    }
}

/// The TCP header at the head of `buf`, as `TcpHeaderSlice::from_slice`
/// reads it: the parse succeeds when the data-offset field names at least
/// the 20 fixed bytes and they lie within the slice. The checksum is not
/// inspected.
pub open spec fn spec_parse_tcp(buf: Seq<u8>) -> Option<TcpHeaderInfo> {
    if buf.len() < 20 {
        None
    } else if (buf[12] >> 4) * 4 < 20 {
        None
    } else if buf.len() < (buf[12] >> 4) * 4 {
        None
    } else {
        Some(
            TcpHeaderInfo {
                src_port: be16_at(buf, 0),
                dst_port: be16_at(buf, 2),
                seq: be32_at(buf, 4),
                ackn: be32_at(buf, 8),
                wnd: be16_at(buf, 14),
                syn: buf[13] & 0x02 != 0,
                ack: buf[13] & 0x10 != 0,
                fin: buf[13] & 0x01 != 0,
                rst: buf[13] & 0x04 != 0,
                header_len: ((buf[12] >> 4) * 4) as usize,
            },
        )
    }
}

/// A parsed IPv4 header's length lies between the 20 fixed bytes and the
/// 60 its four-bit length field can name, within the parsed slice.
pub proof fn lemma_parse_ipv4_header_len(buf: Seq<u8>)
    ensures
        spec_parse_ipv4(buf) matches Some(info) ==> 20 <= info.header_len <= 60
            && info.header_len <= buf.len(),
{
    if buf.len() >= 20 {
        let b0 = buf[0];
        assert(b0 & 0xf <= 15) by (bit_vector);
    }
}

/// A parsed TCP header's length lies between the 20 fixed bytes and the 60
/// its four-bit data-offset field can name, within the parsed slice.
pub proof fn lemma_parse_tcp_header_len(buf: Seq<u8>)
    ensures
        spec_parse_tcp(buf) matches Some(info) ==> 20 <= info.header_len <= 60
            && info.header_len <= buf.len(),
{
    if buf.len() >= 20 {
        let b12 = buf[12];
        assert(b12 >> 4 <= 15) by (bit_vector);
    }
}

/// Relies on `etherparse::Ipv4HeaderSlice::from_slice` and its field
/// getters: together they read the header exactly as [`spec_parse_ipv4`]
/// states, and `slice()` returns exactly the header's bytes.
#[verifier::external_body]
pub fn parse_ipv4(buf: &[u8]) -> (r: Option<IpHeaderInfo>)
    ensures
        r == spec_parse_ipv4(buf@),
{
    match etherparse::Ipv4HeaderSlice::from_slice(buf) {
        Ok(h) => Some(IpHeaderInfo {
            src: u32::from_be_bytes(h.source()),
            dst: u32::from_be_bytes(h.destination()),
            protocol: h.protocol().0,
            header_len: h.slice().len(),
        }),
        Err(_) => None,
    }
}

/// Relies on `etherparse::TcpHeaderSlice::from_slice` and its field
/// getters: together they read the header exactly as [`spec_parse_tcp`]
/// states, and `slice()` returns exactly the header's bytes.
#[verifier::external_body]
pub fn parse_tcp(buf: &[u8]) -> (r: Option<TcpHeaderInfo>)
    ensures
        r == spec_parse_tcp(buf@),
{
    match etherparse::TcpHeaderSlice::from_slice(buf) {
        Ok(h) => Some(TcpHeaderInfo {
            src_port: h.source_port(),
            dst_port: h.destination_port(),
            seq: h.sequence_number(),
            ackn: h.acknowledgment_number(),
            wnd: h.window_size(),
            syn: h.syn(),
            ack: h.ack(),
            fin: h.fin(),
            rst: h.rst(),
            header_len: h.slice().len(),
        }),
        Err(_) => None,
    }
}

pub uninterp spec fn spec_frame(
    src_ip: u32,
    dst_ip: u32,
    src_port: u16,
    dst_port: u16,
    seq: u32,
    ackn: u32,
    wnd: u16,
    syn: bool,
    ack: bool,
    fin: bool,
    rst: bool,
    ttl: u8,
    payload: Seq<u8>,
) -> Seq<u8>;

/// Relies on `etherparse::Ipv4Header::new`, `Ipv4Header::write`,
/// `etherparse::TcpHeader::new`, `TcpHeader::calc_checksum_ipv4` and
/// `TcpHeader::write`: together they serialize one IPv4+TCP segment without
/// options — a 20-byte IPv4 header, a 20-byte TCP header with its checksum
/// computed over the IPv4 pseudo-header and the payload, then the payload —
/// and the bytes depend on the arguments alone.
#[verifier::external_body]
pub fn build_frame(
    src_ip: u32,
    dst_ip: u32,
    src_port: u16,
    dst_port: u16,
    seq: u32,
    ackn: u32,
    wnd: u16,
    syn: bool,
    ack: bool,
    fin: bool,
    rst: bool,
    ttl: u8,
    payload: &[u8],
) -> (r: Vec<u8>)
    requires
        payload@.len() <= 1460,
    ensures
        r@ == spec_frame(
            src_ip,
            dst_ip,
            src_port,
            dst_port,
            seq,
            ackn,
            wnd,
            syn,
            ack,
            fin,
            rst,
            ttl,
            payload@,
        ),
        r@.len() == 40 + payload@.len(),
{
    let mut tcp = etherparse::TcpHeader::new(src_port, dst_port, seq, wnd);
    tcp.acknowledgment_number = ackn;
    tcp.syn = syn; tcp.ack = ack; tcp.fin = fin; tcp.rst = rst;
    let plen = (tcp.header_len() + payload.len()) as u16;
    let (src, dst) = (src_ip.to_be_bytes(), dst_ip.to_be_bytes());
    let ip = etherparse::Ipv4Header::new(plen, ttl, etherparse::IpNumber::TCP, src, dst).unwrap();
    tcp.checksum = tcp.calc_checksum_ipv4(&ip, payload).unwrap();
    let mut out: Vec<u8> = Vec::with_capacity(40 + payload.len());
    ip.write(&mut out).unwrap();
    tcp.write(&mut out).unwrap();
    out.extend_from_slice(payload);
    out
}

} // verus!
