//! The UDP endpoint.
//!
//! What it sends is a UDP header followed by the payload, so that the
//! endpoint that receives it reads back the ports, the length and the
//! payload. The header is `etherparse`'s, checksum included.

use vstd::prelude::*;
use vstd::slice::{slice_subrange, slice_to_vec};
use crate::address::{spec_parse_address, AddressParseError, AddressSpec, AddressView};
use crate::decoder::{decode_udp, spec_decode_udp};
use crate::header::{udp_header_of, UdpHeader, UDP_HEADER_LEN};
use crate::poller::{wait_time_millis, Attempt, DeadlinePoller, PollStep};
use crate::session::{spec_wait_millis, wait_millis, ReceiveRecord, SessionError, SessionStep};
use crate::Sender;

verus! {

/// The most payload bytes one UDP datagram over IPv4 can carry.
pub const MAX_UDP_PAYLOAD: usize = 65507;

/// Size of the buffer a receive reads into: the UDP protocol ceiling.
pub const RECEIVE_BUFFER_LEN: usize = 65536;

/// Length of an IPv4 header without options.
pub const IPV4_HEADER_LEN: usize = 20;

/// Time to live written into outgoing packets.
pub const DEFAULT_TTL: u8 = 20;

/// A UDP header and the payload that followed it.
#[derive(Debug, Clone)]
pub struct UdpDatagram {
    pub header: UdpHeader,
    pub data: Vec<u8>,
}

/// What a `UdpDatagram` holds.
pub struct UdpDatagramView {
    pub header: UdpHeader,
    pub data: Seq<u8>,
}

impl View for UdpDatagram {
    type V = UdpDatagramView;

    open spec fn view(&self) -> UdpDatagramView {
        UdpDatagramView { header: self.header, data: self.data@ }
    }
}

impl Default for UdpDatagram {
    /// A zero header and no payload.
    fn default() -> (d: UdpDatagram)
        ensures
            d.header == (UdpHeader { source_port: 0, destination_port: 0, length: 0, checksum: 0 }),
            d.data@.len() == 0,
    {
        UdpDatagram { header: UdpHeader::default(), data: Vec::new() }
    }
}

/// The bytes of the IPv4 packet that `etherparse`'s packet builder writes for
/// a UDP payload: IPv4 header, UDP header, payload, with both checksums.
pub uninterp spec fn ipv4_udp_packet(
    source: Seq<u8>,
    destination: Seq<u8>,
    time_to_live: u8,
    source_port: u16,
    destination_port: u16,
    payload: Seq<u8>,
) -> Seq<u8>;

/// True when `segment` is a UDP header for the given ports, declaring its
/// own length, followed by `payload`.
pub open spec fn is_udp_segment(
    segment: Seq<u8>,
    source_port: u16,
    destination_port: u16,
    payload: Seq<u8>,
) -> bool {
    &&& segment.len() == UDP_HEADER_LEN + payload.len()
    &&& udp_header_of(segment).source_port == source_port
    &&& udp_header_of(segment).destination_port == destination_port
    &&& udp_header_of(segment).length == UDP_HEADER_LEN + payload.len()
    &&& segment.skip(UDP_HEADER_LEN as int) == payload
}

/// `etherparse::PacketBuilder::ipv4(..).udp(..)` and its `write` into an
/// empty vector, for a payload of at most 65507 bytes, the most an IPv4
/// packet holds after its two headers. The builder accepts every such
/// payload. What it writes is a 20-byte IPv4 header, then the 8-byte UDP
/// header with the two ports and the length of header plus payload, then
/// the payload.
#[verifier::external_body]
fn build_ipv4_udp_packet(
    source: [u8; 4],
    destination: [u8; 4],
    time_to_live: u8,
    source_port: u16,
    destination_port: u16,
    payload: &[u8],
) -> (r: Option<Vec<u8>>)
    requires
        payload@.len() <= MAX_UDP_PAYLOAD,
    ensures
        r is Some,
        r matches Some(packet) ==> {
            &&& packet@ == ipv4_udp_packet(
                source@,
                destination@,
                time_to_live,
                source_port,
                destination_port,
                payload@,
            )
            &&& packet@.len() == IPV4_HEADER_LEN + UDP_HEADER_LEN + payload@.len()
            &&& is_udp_segment(
                packet@.skip(IPV4_HEADER_LEN as int),
                source_port,
                destination_port,
                payload@,
            )
        },
{
    let builder = etherparse::PacketBuilder::ipv4(source, destination, time_to_live).udp(
        source_port,
        destination_port,
    );
    let mut packet = Vec::<u8>::with_capacity(builder.size(payload.len()));
    match builder.write(&mut packet, payload) {
        Ok(()) => Some(packet),
        Err(_) => None,
    }
}

/// What an IPv4 packet without options carries: the bytes after its 20-byte
/// header. Fewer bytes than a header takes carry nothing.
pub fn ipv4_payload(packet: &[u8]) -> (segment: Option<Vec<u8>>)
    ensures
        match segment {
            Some(s) => packet@.len() >= IPV4_HEADER_LEN && s@ == packet@.skip(
                IPV4_HEADER_LEN as int,
            ),
            None => packet@.len() < IPV4_HEADER_LEN,
        },
{
    if packet.len() < IPV4_HEADER_LEN {
        return None;
    }
    let segment = slice_to_vec(slice_subrange(packet, IPV4_HEADER_LEN, packet.len()));
    assert(segment@ =~= packet@.skip(IPV4_HEADER_LEN as int));
    Some(segment)
}

/// A UDP endpoint bound to a local address, with the remote address that its
/// datagrams go to once one is set.
#[derive(Debug, Clone, Copy, PartialEq, Eq)]
pub struct UdpSession {
    pub local: AddressSpec,
    pub remote: Option<AddressSpec>,
}

impl UdpSession {
    /// An endpoint for the local address that `local` writes, with no remote
    /// address yet.
    pub fn new(local: &str) -> (r: Result<UdpSession, SessionError>)
        ensures
            match r {
                Ok(s) => spec_parse_address(local@) == Ok::<AddressView, AddressParseError>(
                    s.local@,
                ) && s.remote is None,
                Err(e) => e matches SessionError::AddressParse(p) && spec_parse_address(local@)
                    == Err::<AddressView, AddressParseError>(p),
            },
    {
        match AddressSpec::parse(local) {
            Ok(local) => Ok(UdpSession { local, remote: None }),
            Err(e) => Err(SessionError::AddressParse(e)),
        }
    }

    /// Passes the endpoint on if its socket was bound, and reports the
    /// failure as a bind error if it was not.
    pub fn bound(self, outcome: Result<(), std::io::Error>) -> (r: Result<UdpSession, SessionError>)
        ensures
            match outcome {
                Ok(_) => r == Ok::<UdpSession, SessionError>(self),
                Err(e) => r == Err::<UdpSession, SessionError>(SessionError::Bind(e)),
            },
    {
        match outcome {
            Ok(_) => Ok(self),
            Err(e) => Err(SessionError::Bind(e)),
        }
    }

    /// Records where later sends go. Nothing is sent. A text that is no
    /// address leaves the endpoint as it was.
    pub fn set_remote(&mut self, remote: &str) -> (r: Result<(), SessionError>)
        ensures
            final(self).local == old(self).local,
            match r {
                Ok(_) => final(self).remote matches Some(a) && spec_parse_address(remote@) == Ok::<
                    AddressView,
                    AddressParseError,
                >(a@),
                Err(e) => *final(self) == *old(self) && (e matches SessionError::AddressParse(p)
                    && spec_parse_address(remote@) == Err::<AddressView, AddressParseError>(p)),
            },
    {
        match AddressSpec::parse(remote) {
            Ok(a) => {
                self.remote = Some(a);
                Ok(())
            },
            Err(e) => Err(SessionError::AddressParse(e)),
        }
    }

    /// Judges one attempt at reading a datagram into `buf`.
    ///
    /// `attempt` is the outcome of the read (the number of bytes it put into
    /// `buf`, if any) and `elapsed_millis` the time since the first attempt
    /// of this receive. Bytes that were read are decoded whenever they came;
    /// a failure is handed on at once; with nothing read, the receive times
    /// out when `wait_time` seconds have passed and is retried before that.
    pub fn receive(
        &self,
        wait_time: u32,
        elapsed_millis: u128,
        attempt: Attempt<usize>,
        buf: &[u8],
    ) -> (step: SessionStep<ReceiveRecord<UdpDatagram>>)
        ensures
            match attempt {
                Attempt::Ready(n) => match spec_decode_udp(buf@, n as int) {
                    Ok(d) => step matches SessionStep::Done(rec) && rec.datagram@ == d
                        && rec.wait_millis == spec_wait_millis(elapsed_millis),
                    Err(e) => step == SessionStep::<ReceiveRecord<UdpDatagram>>::Failed(
                        SessionError::HeaderDecode(e),
                    ),
                },
                Attempt::WouldBlock => if elapsed_millis >= wait_time_millis(wait_time) {
                    step == SessionStep::<ReceiveRecord<UdpDatagram>>::Failed(SessionError::Timeout)
                } else {
                    step == SessionStep::<ReceiveRecord<UdpDatagram>>::Retry
                },
                Attempt::Failed(e) => step == SessionStep::<ReceiveRecord<UdpDatagram>>::Failed(
                    SessionError::Io(e),
                ),
            },
            step matches SessionStep::Failed(SessionError::Timeout) ==> elapsed_millis
                >= wait_time_millis(wait_time),
            step matches SessionStep::Done(rec) ==> attempt matches Attempt::Ready(n)
                && rec.datagram.data@.len() == n - UDP_HEADER_LEN,
    {
        match DeadlinePoller::for_wait_time(wait_time).step(attempt, elapsed_millis) {
            PollStep::Retry => SessionStep::Retry,
            PollStep::TimedOut => SessionStep::Failed(SessionError::Timeout),
            PollStep::Failed(e) => SessionStep::Failed(SessionError::Io(e)),
            PollStep::Done { value, elapsed_millis } => match decode_udp(buf, value) {
                Ok(datagram) => SessionStep::Done(
                    ReceiveRecord { datagram, wait_millis: wait_millis(elapsed_millis) },
                ),
                Err(e) => SessionStep::Failed(SessionError::HeaderDecode(e)),
            },
        }
    }
}

impl Sender for UdpSession {
    open spec fn fits(&self, data: Seq<u8>) -> bool {
        data.len() <= MAX_UDP_PAYLOAD
    }

    open spec fn spec_send(&self, data: Seq<u8>) -> Result<Seq<u8>, SessionError> {
        match self.remote {
            None => Err(SessionError::NoRemoteAddress),
            Some(remote) => Ok(
                ipv4_udp_packet(
                    self.local.ipv4_octets@,
                    remote.ipv4_octets@,
                    DEFAULT_TTL,
                    self.local.port,
                    remote.port,
                    data,
                ).skip(IPV4_HEADER_LEN as int),
            ),
        }
    }

    /// The datagram to send for `data`: the UDP header from the local to the
    /// remote port, then `data`. Without a remote address nothing is framed.
    fn send(&mut self, data: &[u8]) -> (r: Result<Vec<u8>, SessionError>)
        ensures
            old(self).remote is None <==> r is Err,
            r matches Ok(wire) ==> is_udp_segment(
                wire@,
                old(self).local.port,
                old(self).remote.unwrap().port,
                data@,
            ),
    {
        let remote = match self.remote {
            Some(remote) => remote,
            None => return Err(SessionError::NoRemoteAddress),
        };
        let packet = build_ipv4_udp_packet(
            self.local.ipv4_octets,
            remote.ipv4_octets,
            DEFAULT_TTL,
            self.local.port,
            remote.port,
            data,
        ).unwrap();
        Ok(ipv4_payload(packet.as_slice()).unwrap())
    }
}

/// A datagram that an endpoint framed decodes, at the endpoint that
/// receives it whole, to the ports it was framed with and the payload
/// itself: nothing is lost or added on the way through header and decoder.
pub proof fn lemma_sent_datagram_decodes(
    segment: Seq<u8>,
    source_port: u16,
    destination_port: u16,
    payload: Seq<u8>,
)
    requires
        is_udp_segment(segment, source_port, destination_port, payload),
    ensures
        spec_decode_udp(segment, segment.len() as int) matches Ok(d) && d.data == payload
            && d.data.len() == payload.len() && d.header.source_port == source_port
            && d.header.destination_port == destination_port && d.header.length
            == UDP_HEADER_LEN + payload.len(),
{
    assert(segment.subrange(UDP_HEADER_LEN as int, segment.len() as int) =~= segment.skip(
        UDP_HEADER_LEN as int,
    ));
}

} // verus!
