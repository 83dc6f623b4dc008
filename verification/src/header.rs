//! Transport headers as plain values, and how they are read from bytes.
//!
//! The reading itself is done by `etherparse`; this module states, byte by
//! byte, what that reading yields.

use vstd::prelude::*;

verus! {

/// Length of a UDP header on the wire.
pub const UDP_HEADER_LEN: usize = 8;

/// Length of a TCP header without options.
pub const TCP_MIN_HEADER_LEN: usize = 20;

/// Smallest data offset (in 32-bit words) a TCP header may declare.
pub const TCP_MIN_DATA_OFFSET: u8 = 5;

/// The two-byte big-endian number `hi lo`.
pub open spec fn be16(hi: u8, lo: u8) -> u16 {
    (hi as int * 256 + lo as int) as u16
}

/// The four-byte big-endian number `b0 b1 b2 b3`.
pub open spec fn be32(b0: u8, b1: u8, b2: u8, b3: u8) -> u32 {
    (b0 as int * 16777216 + b1 as int * 65536 + b2 as int * 256 + b3 as int) as u32
}

/// A UDP header: four big-endian 16-bit fields.
#[derive(Debug, Clone, Copy, PartialEq, Eq, Structural)]
pub struct UdpHeader {
    pub source_port: u16,
    pub destination_port: u16,
    /// Length of header plus payload, as the sender declared it.
    pub length: u16,
    pub checksum: u16,
}

impl Default for UdpHeader {
    /// The header with every field zero.
    fn default() -> (h: UdpHeader)
        ensures
            h == (UdpHeader { source_port: 0, destination_port: 0, length: 0, checksum: 0 }),
    {
        UdpHeader { source_port: 0, destination_port: 0, length: 0, checksum: 0 }
    }
}

/// The UDP header that the first eight bytes of `bytes` encode.
pub open spec fn udp_header_of(bytes: Seq<u8>) -> UdpHeader
    recommends
        bytes.len() >= UDP_HEADER_LEN,
{
    UdpHeader {
        source_port: be16(bytes[0], bytes[1]),
        destination_port: be16(bytes[2], bytes[3]),
        length: be16(bytes[4], bytes[5]),
        checksum: be16(bytes[6], bytes[7]),
    }
}

/// A TCP header, options included.
#[derive(Debug, Clone)]
pub struct TcpHeader {
    pub source_port: u16,
    pub destination_port: u16,
    pub sequence_number: u32,
    pub acknowledgment_number: u32,
    /// Header length in 32-bit words; the payload starts after it.
    pub data_offset: u8,
    pub ns: bool,
    pub fin: bool,
    pub syn: bool,
    pub rst: bool,
    pub psh: bool,
    pub ack: bool,
    pub urg: bool,
    pub ece: bool,
    pub cwr: bool,
    pub window_size: u16,
    pub checksum: u16,
    pub urgent_pointer: u16,
    /// The option bytes: `data_offset * 4 - 20` of them.
    pub options: Vec<u8>,
}

/// What a `TcpHeader` holds, with the options as a sequence.
pub struct TcpHeaderView {
    pub source_port: u16,
    pub destination_port: u16,
    pub sequence_number: u32,
    pub acknowledgment_number: u32,
    pub data_offset: u8,
    pub ns: bool,
    pub fin: bool,
    pub syn: bool,
    pub rst: bool,
    pub psh: bool,
    pub ack: bool,
    pub urg: bool,
    pub ece: bool,
    pub cwr: bool,
    pub window_size: u16,
    pub checksum: u16,
    pub urgent_pointer: u16,
    pub options: Seq<u8>,
}

impl View for TcpHeader {
    type V = TcpHeaderView;

    open spec fn view(&self) -> TcpHeaderView {
        TcpHeaderView {
            source_port: self.source_port,
            destination_port: self.destination_port,
            sequence_number: self.sequence_number,
            acknowledgment_number: self.acknowledgment_number,
            data_offset: self.data_offset,
            ns: self.ns,
            fin: self.fin,
            syn: self.syn,
            rst: self.rst,
            psh: self.psh,
            ack: self.ack,
            urg: self.urg,
            ece: self.ece,
            cwr: self.cwr,
            window_size: self.window_size,
            checksum: self.checksum,
            urgent_pointer: self.urgent_pointer,
            options: self.options@,
        }
    }
}

/// A TCP header without options, with no flag set and every number zero.
pub open spec fn plain_tcp_header() -> TcpHeaderView {
    TcpHeaderView {
        source_port: 0,
        destination_port: 0,
        sequence_number: 0,
        acknowledgment_number: 0,
        data_offset: TCP_MIN_DATA_OFFSET,
        ns: false,
        fin: false,
        syn: false,
        rst: false,
        psh: false,
        ack: false,
        urg: false,
        ece: false,
        cwr: false,
        window_size: 0,
        checksum: 0,
        urgent_pointer: 0,
        options: Seq::<u8>::empty(),
    }
}

impl Default for TcpHeader {
    /// A header without options, with no flag set and every number zero.
    fn default() -> (h: TcpHeader)
        ensures
            h@ == plain_tcp_header(),
    {
        TcpHeader {
            source_port: 0,
            destination_port: 0,
            sequence_number: 0,
            acknowledgment_number: 0,
            data_offset: TCP_MIN_DATA_OFFSET,
            ns: false,
            fin: false,
            syn: false,
            rst: false,
            psh: false,
            ack: false,
            urg: false,
            ece: false,
            cwr: false,
            window_size: 0,
            checksum: 0,
            urgent_pointer: 0,
            options: Vec::new(),
        }
    }
}

impl TcpHeader {
    /// Header length in bytes, options included.
    pub fn header_len(&self) -> (len: usize)
        ensures
            len == self.data_offset as int * 4,
    {
        let words: usize = self.data_offset as usize;
        words * 4
    }
}

/// The data offset that byte 12 of a TCP header declares: its upper four bits.
pub open spec fn tcp_data_offset(bytes: Seq<u8>) -> u8
    recommends
        bytes.len() > 12,
{
    (bytes[12] & 0xf0) >> 4
}

/// Header length in bytes that a TCP header's data offset declares.
pub open spec fn tcp_declared_len(bytes: Seq<u8>) -> int
    recommends
        bytes.len() > 12,
{
    tcp_data_offset(bytes) as int * 4
}

/// True when `bytes` starts with a complete, well-formed TCP header.
pub open spec fn holds_tcp_header(bytes: Seq<u8>) -> bool {
    &&& bytes.len() >= TCP_MIN_HEADER_LEN
    &&& tcp_data_offset(bytes) >= TCP_MIN_DATA_OFFSET
    &&& bytes.len() >= tcp_declared_len(bytes)
}

/// The TCP header that the start of `bytes` encodes.
pub open spec fn tcp_header_of(bytes: Seq<u8>) -> TcpHeaderView
    recommends
        holds_tcp_header(bytes),
{
    TcpHeaderView {
        source_port: be16(bytes[0], bytes[1]),
        destination_port: be16(bytes[2], bytes[3]),
        sequence_number: be32(bytes[4], bytes[5], bytes[6], bytes[7]),
        acknowledgment_number: be32(bytes[8], bytes[9], bytes[10], bytes[11]),
        data_offset: tcp_data_offset(bytes),
        ns: 0 != (bytes[12] & 1),
        fin: 0 != (bytes[13] & 1),
        syn: 0 != (bytes[13] & 2),
        rst: 0 != (bytes[13] & 4),
        psh: 0 != (bytes[13] & 8),
        ack: 0 != (bytes[13] & 16),
        urg: 0 != (bytes[13] & 32),
        ece: 0 != (bytes[13] & 64),
        cwr: 0 != (bytes[13] & 128),
        window_size: be16(bytes[14], bytes[15]),
        checksum: be16(bytes[16], bytes[17]),
        urgent_pointer: be16(bytes[18], bytes[19]),
        options: bytes.subrange(TCP_MIN_HEADER_LEN as int, tcp_declared_len(bytes)),
    }
}

/// A data offset is four bits wide, so a declared header is at most 60 bytes.
pub proof fn lemma_data_offset_bound(bytes: Seq<u8>)
    ensures
        tcp_data_offset(bytes) <= 15,
        tcp_declared_len(bytes) <= 60,
{
    let b = bytes[12];
    assert((b & 0xf0) >> 4 <= 15) by (bit_vector);
}

/// `etherparse::UdpHeader::read_from_slice`: fails exactly when fewer than
/// eight bytes are given; otherwise the header is the four big-endian fields
/// of the first eight bytes and the remainder is everything after them.
#[verifier::external_body]
pub(crate) fn read_udp_header(slice: &[u8]) -> (r: Option<(UdpHeader, &[u8])>)
    ensures
        r is None <==> slice@.len() < UDP_HEADER_LEN,
        r matches Some((header, rest)) ==> header == udp_header_of(slice@) && rest@ == slice@.skip(
            UDP_HEADER_LEN as int,
        ),
{
    match etherparse::UdpHeader::read_from_slice(slice) {
        Ok((h, rest)) => Some((
            UdpHeader {
                source_port: h.source_port,
                destination_port: h.destination_port,
                length: h.length,
                checksum: h.checksum,
            },
            rest,
        )),
        Err(_) => None,
    }
}

/// `etherparse::TcpHeader::read_from_slice`: fails exactly when fewer than
/// twenty bytes are given, when the declared data offset is below five, or
/// when fewer bytes are given than the data offset declares; otherwise the
/// header holds the fields of those bytes, the options being the bytes from
/// the twentieth to the declared length, and the remainder is everything
/// after the declared length.
#[verifier::external_body]
pub(crate) fn read_tcp_header(slice: &[u8]) -> (r: Option<(TcpHeader, &[u8])>)
    ensures
        r is None <==> !holds_tcp_header(slice@),
        r matches Some((header, rest)) ==> header@ == tcp_header_of(slice@) && rest@ == slice@.skip(
            tcp_declared_len(slice@),
        ),
{
    match etherparse::TcpHeader::read_from_slice(slice) {
        Ok((h, rest)) => Some((TcpHeader {
            source_port: h.source_port, destination_port: h.destination_port,
            sequence_number: h.sequence_number, acknowledgment_number: h.acknowledgment_number,
            data_offset: h.data_offset(), ns: h.ns, fin: h.fin, syn: h.syn, rst: h.rst,
            psh: h.psh, ack: h.ack, urg: h.urg, ece: h.ece, cwr: h.cwr,
            window_size: h.window_size, checksum: h.checksum, urgent_pointer: h.urgent_pointer,
            options: h.options().to_vec(),
        }, rest)),
        Err(_) => None,
    }
}

} // verus!
