//! Splitting received bytes into a transport header and its payload.

use vstd::prelude::*;
use vstd::slice::slice_subrange;
use vstd::slice::slice_to_vec;
use crate::header::{
    holds_tcp_header, lemma_data_offset_bound, read_tcp_header, read_udp_header, tcp_data_offset,
    tcp_declared_len, tcp_header_of, udp_header_of, TCP_MIN_DATA_OFFSET, TCP_MIN_HEADER_LEN,
    UDP_HEADER_LEN,
};
use crate::tcp::{TcpDatagram, TcpDatagramView};
use crate::udp::{UdpDatagram, UdpDatagramView};
use crate::Protocol;

verus! {

/// Why received bytes could not be split into header and payload.
#[derive(Debug, Clone, Copy, PartialEq, Eq, Structural)]
pub enum HeaderDecodeError {
    /// Fewer bytes were received than the header takes.
    Truncated,
    /// A TCP header declares a data offset below the five words of its fixed part.
    DataOffsetTooSmall,
}

/// A decoded datagram of either transport.
#[derive(Debug, Clone)]
pub enum Datagram {
    Udp(UdpDatagram),
    Tcp(TcpDatagram),
}

/// What a `Datagram` holds.
pub enum DatagramView {
    Udp(UdpDatagramView),
    Tcp(TcpDatagramView),
}

impl View for Datagram {
    type V = DatagramView;

    open spec fn view(&self) -> DatagramView {
        match self {
            Datagram::Udp(d) => DatagramView::Udp(d@),
            Datagram::Tcp(d) => DatagramView::Tcp(d@),
        }
    }
}

impl DatagramView {
    /// The payload bytes.
    pub open spec fn data(self) -> Seq<u8> {
        match self {
            DatagramView::Udp(d) => d.data,
            DatagramView::Tcp(d) => d.data,
        }
    }

    /// Length in bytes of the header in front of the payload.
    pub open spec fn header_len(self) -> int {
        match self {
            DatagramView::Udp(_) => UDP_HEADER_LEN as int,
            DatagramView::Tcp(d) => d.header.data_offset as int * 4,
        }
    }
}

/// The datagram in the first `bytes_read` bytes of `raw`, read as UDP: an
/// eight-byte header, then the payload.
pub open spec fn spec_decode_udp(raw: Seq<u8>, bytes_read: int) -> Result<
    UdpDatagramView,
    HeaderDecodeError,
> {
    if bytes_read > raw.len() || bytes_read < UDP_HEADER_LEN {
        Err(HeaderDecodeError::Truncated)
    } else {
        Ok(
            UdpDatagramView {
                header: udp_header_of(raw),
                data: raw.subrange(UDP_HEADER_LEN as int, bytes_read),
            },
        )
    }
}

/// The datagram in the first `bytes_read` bytes of `raw`, read as TCP: a
/// header as long as its data offset declares, then the payload.
pub open spec fn spec_decode_tcp(raw: Seq<u8>, bytes_read: int) -> Result<
    TcpDatagramView,
    HeaderDecodeError,
> {
    if bytes_read > raw.len() || bytes_read < TCP_MIN_HEADER_LEN {
        Err(HeaderDecodeError::Truncated)
    } else if tcp_data_offset(raw) < TCP_MIN_DATA_OFFSET {
        Err(HeaderDecodeError::DataOffsetTooSmall)
    } else if bytes_read < tcp_declared_len(raw) {
        Err(HeaderDecodeError::Truncated)
    } else {
        Ok(
            TcpDatagramView {
                header: tcp_header_of(raw),
                data: raw.subrange(tcp_declared_len(raw), bytes_read),
            },
        )
    }
}

/// The least number of bytes a header of the given transport takes.
pub open spec fn spec_min_header_len(kind: Protocol) -> int {
    match kind {
        Protocol::Udp => UDP_HEADER_LEN as int,
        Protocol::Tcp => TCP_MIN_HEADER_LEN as int,
    }
}

/// The datagram in the first `bytes_read` bytes of `raw`, read as `kind`.
pub open spec fn spec_decode(kind: Protocol, raw: Seq<u8>, bytes_read: int) -> Result<
    DatagramView,
    HeaderDecodeError,
> {
    match kind {
        Protocol::Udp => match spec_decode_udp(raw, bytes_read) {
            Ok(d) => Ok(DatagramView::Udp(d)),
            Err(e) => Err(e),
        },
        Protocol::Tcp => match spec_decode_tcp(raw, bytes_read) {
            Ok(d) => Ok(DatagramView::Tcp(d)),
            Err(e) => Err(e),
        },
    }
}

/// Reads the first `bytes_read` bytes of `raw` as a UDP header and payload.
pub fn decode_udp(raw: &[u8], bytes_read: usize) -> (r: Result<UdpDatagram, HeaderDecodeError>)
    ensures
        match r {
            Ok(d) => spec_decode_udp(raw@, bytes_read as int) == Ok::<
                UdpDatagramView,
                HeaderDecodeError,
            >(d@),
            Err(e) => spec_decode_udp(raw@, bytes_read as int) == Err::<
                UdpDatagramView,
                HeaderDecodeError,
            >(e),
        },
        r matches Ok(d) ==> d.data@.len() == bytes_read - UDP_HEADER_LEN,
        raw@.len() < UDP_HEADER_LEN || bytes_read < UDP_HEADER_LEN ==> r == Err::<
            UdpDatagram,
            HeaderDecodeError,
        >(HeaderDecodeError::Truncated),
{
    if bytes_read > raw.len() {
        return Err(HeaderDecodeError::Truncated);
    }
    let seen = slice_subrange(raw, 0, bytes_read);
    match read_udp_header(seen) {
        Some((header, rest)) => {
            let data = slice_to_vec(rest);
            assert(data@ =~= raw@.subrange(UDP_HEADER_LEN as int, bytes_read as int));
            Ok(UdpDatagram { header, data })
        },
        None => Err(HeaderDecodeError::Truncated),
    }
}

/// Reads the first `bytes_read` bytes of `raw` as a TCP header and payload.
/// The payload starts where the header's data offset says it does.
pub fn decode_tcp(raw: &[u8], bytes_read: usize) -> (r: Result<TcpDatagram, HeaderDecodeError>)
    ensures
        match r {
            Ok(d) => spec_decode_tcp(raw@, bytes_read as int) == Ok::<
                TcpDatagramView,
                HeaderDecodeError,
            >(d@),
            Err(e) => spec_decode_tcp(raw@, bytes_read as int) == Err::<
                TcpDatagramView,
                HeaderDecodeError,
            >(e),
        },
        r matches Ok(d) ==> d.data@.len() == bytes_read - d.header.data_offset as int * 4,
        raw@.len() < TCP_MIN_HEADER_LEN || bytes_read < TCP_MIN_HEADER_LEN ==> r == Err::<
            TcpDatagram,
            HeaderDecodeError,
        >(HeaderDecodeError::Truncated),
        bytes_read <= raw@.len() && bytes_read >= TCP_MIN_HEADER_LEN && tcp_data_offset(raw@)
            >= TCP_MIN_DATA_OFFSET && bytes_read < tcp_declared_len(raw@) ==> r == Err::<
            TcpDatagram,
            HeaderDecodeError,
        >(HeaderDecodeError::Truncated),
{
    if bytes_read > raw.len() {
        return Err(HeaderDecodeError::Truncated);
    }
    let seen = slice_subrange(raw, 0, bytes_read);
    proof {
        if bytes_read >= TCP_MIN_HEADER_LEN {
            assert(seen@[12] == raw@[12]);
            if holds_tcp_header(seen@) {
                assert(tcp_header_of(seen@).options =~= tcp_header_of(raw@).options);
            }
        }
        lemma_data_offset_bound(raw@);
    }
    match read_tcp_header(seen) {
        Some((header, rest)) => {
            let data = slice_to_vec(rest);
            assert(data@ =~= raw@.subrange(tcp_declared_len(raw@), bytes_read as int));
            Ok(TcpDatagram { header, data })
        },
        None => {
            if bytes_read >= TCP_MIN_HEADER_LEN && (seen[12] & 0xf0) >> 4 < TCP_MIN_DATA_OFFSET {
                Err(HeaderDecodeError::DataOffsetTooSmall)
            } else {
                Err(HeaderDecodeError::Truncated)
            }
        },
    }
}

/// Reads the first `bytes_read` bytes of `raw` as a header of the given
/// transport followed by its payload.
pub fn decode(kind: Protocol, raw: &[u8], bytes_read: usize) -> (r: Result<
    Datagram,
    HeaderDecodeError,
>)
    ensures
        match r {
            Ok(d) => spec_decode(kind, raw@, bytes_read as int) == Ok::<
                DatagramView,
                HeaderDecodeError,
            >(d@),
            Err(e) => spec_decode(kind, raw@, bytes_read as int) == Err::<
                DatagramView,
                HeaderDecodeError,
            >(e),
        },
        r matches Ok(d) ==> d@.data().len() == bytes_read - d@.header_len(),
        bytes_read < spec_min_header_len(kind) || raw@.len() < spec_min_header_len(kind) ==> r
            == Err::<Datagram, HeaderDecodeError>(HeaderDecodeError::Truncated),
{
    match kind {
        Protocol::Udp => match decode_udp(raw, bytes_read) {
            Ok(d) => Ok(Datagram::Udp(d)),
            Err(e) => Err(e),
        },
        Protocol::Tcp => match decode_tcp(raw, bytes_read) {
            Ok(d) => Ok(Datagram::Tcp(d)),
            Err(e) => Err(e),
        },
    }
}

/// Bytes that are fewer than a header of the transport takes never decode:
/// whether the buffer is that short or the count of bytes read is, the
/// outcome is `Truncated`. The same holds of a TCP header that declares
/// more bytes than were read.
pub proof fn lemma_short_input_is_truncated(kind: Protocol, raw: Seq<u8>, bytes_read: int)
    requires
        0 <= bytes_read,
        bytes_read < spec_min_header_len(kind) || raw.len() < spec_min_header_len(kind) || (kind
            == Protocol::Tcp && tcp_data_offset(raw) >= TCP_MIN_DATA_OFFSET && bytes_read
            < tcp_declared_len(raw)),
    ensures
        spec_decode(kind, raw, bytes_read) == Err::<DatagramView, HeaderDecodeError>(
            HeaderDecodeError::Truncated,
        ),
{
}

/// A datagram that decodes holds as payload exactly the bytes read beyond
/// its header.
pub proof fn lemma_payload_length(kind: Protocol, raw: Seq<u8>, bytes_read: int)
    requires
        0 <= bytes_read,
    ensures
        match spec_decode(kind, raw, bytes_read) {
            Ok(d) => d.data().len() == bytes_read - d.header_len() && d.header_len()
                >= spec_min_header_len(kind),
            Err(_) => true,
        },
{
}

} // verus!
