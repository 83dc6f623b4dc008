//! The TCP endpoint.
//!
//! It listens on its local address until a connection stands, by accepting a
//! peer or by connecting outward, and can send and receive only after that,
//! until the peer ends the connection.

use vstd::prelude::*;
use crate::address::{spec_parse_address, AddressParseError, AddressSpec, AddressView};
use crate::decoder::{decode_tcp, spec_decode_tcp};
use crate::header::{plain_tcp_header, TcpHeader, TcpHeaderView};
use crate::poller::{wait_time_millis, Attempt, DeadlinePoller, PollStep};
use crate::session::{spec_wait_millis, wait_millis, ReceiveRecord, SessionError, SessionStep};
use crate::Sender;

verus! {

/// A TCP header and the payload that followed it.
#[derive(Debug, Clone)]
pub struct TcpDatagram {
    pub header: TcpHeader,
    pub data: Vec<u8>,
}

/// What a `TcpDatagram` holds.
pub struct TcpDatagramView {
    pub header: TcpHeaderView,
    pub data: Seq<u8>,
}

impl View for TcpDatagram {
    type V = TcpDatagramView;

    open spec fn view(&self) -> TcpDatagramView {
        TcpDatagramView { header: self.header@, data: self.data@ }
    }
}

impl Default for TcpDatagram {
    /// A header without options, flags or numbers, and no payload.
    fn default() -> (d: TcpDatagram)
        ensures
            d.header@ == plain_tcp_header(),
            d.data@.len() == 0,
    {
        TcpDatagram { header: TcpHeader::default(), data: Vec::new() }
    }
}

/// Where a TCP endpoint stands.
#[derive(Debug, Clone, Copy, PartialEq, Eq, Structural)]
pub enum TcpState {
    /// Bound and listening; no connection yet.
    Listening,
    /// A connection stands: data can be sent and received.
    Connected,
    /// The peer has ended the connection: a read brought no bytes.
    Closed,
}

/// A TCP endpoint bound to a local address.
#[derive(Debug, Clone, Copy, PartialEq, Eq)]
pub struct TcpSession {
    pub local: AddressSpec,
    /// The peer: set by `connect_to`, or learnt when a peer is accepted.
    pub remote: Option<AddressSpec>,
    pub state: TcpState,
}

/// Where a connected endpoint stands after an attempt at reading: a read of
/// no bytes is the end of the connection.
pub open spec fn spec_after_read(attempt: Attempt<usize>) -> TcpState {
    match attempt {
        Attempt::Ready(n) => if n == 0 {
            TcpState::Closed
        } else {
            TcpState::Connected
        },
        _ => TcpState::Connected,
    }
}

/// The whole seconds in `elapsed_millis`, reduced to 32 bits.
pub open spec fn spec_elapsed_secs(elapsed_millis: u128) -> u32 {
    ((elapsed_millis / 1000) % 0x1_0000_0000) as u32
}

impl TcpSession {
    /// An endpoint listening on the local address that `local` writes.
    pub fn new(local: &str) -> (r: Result<TcpSession, SessionError>)
        ensures
            match r {
                Ok(s) => spec_parse_address(local@) == Ok::<AddressView, AddressParseError>(
                    s.local@,
                ) && s.remote is None && s.state == TcpState::Listening,
                Err(e) => e matches SessionError::AddressParse(p) && spec_parse_address(local@)
                    == Err::<AddressView, AddressParseError>(p),
            },
    {
        match AddressSpec::parse(local) {
            Ok(local) => Ok(TcpSession { local, remote: None, state: TcpState::Listening }),
            Err(e) => Err(SessionError::AddressParse(e)),
        }
    }

    /// Passes the endpoint on if its listener was bound, and reports the
    /// failure as a bind error if it was not.
    pub fn bound(self, outcome: Result<(), std::io::Error>) -> (r: Result<TcpSession, SessionError>)
        ensures
            match outcome {
                Ok(_) => r == Ok::<TcpSession, SessionError>(self),
                Err(e) => r == Err::<TcpSession, SessionError>(SessionError::Bind(e)),
            },
    {
        match outcome {
            Ok(_) => Ok(self),
            Err(e) => Err(SessionError::Bind(e)),
        }
    }

    /// True once a connection stands.
    pub fn is_connected(&self) -> (c: bool)
        ensures
            c == (self.state == TcpState::Connected),
    {
        match self.state {
            TcpState::Connected => true,
            _ => false,
        }
    }

    /// Begins an outward connection: records the peer that `remote` writes
    /// and returns it as the address to connect to. The connection itself is
    /// the caller's to make; `connected` takes its outcome. A text that is no
    /// address leaves the endpoint as it was.
    pub fn connect_to(&mut self, remote: &str) -> (r: Result<AddressSpec, SessionError>)
        ensures
            final(self).local == old(self).local,
            final(self).state == old(self).state,
            match r {
                Ok(a) => final(self).remote == Some(a) && spec_parse_address(remote@) == Ok::<
                    AddressView,
                    AddressParseError,
                >(a@),
                Err(e) => *final(self) == *old(self) && (e matches SessionError::AddressParse(p)
                    && spec_parse_address(remote@) == Err::<AddressView, AddressParseError>(p)),
            },
    {
        match AddressSpec::parse(remote) {
            Ok(a) => {
                self.remote = Some(a);
                Ok(a)
            },
            Err(e) => Err(SessionError::AddressParse(e)),
        }
    }

    /// Takes the outcome of the connection that `connect_to` began. Success
    /// makes the endpoint connected; a failure is reported as a connect error
    /// and leaves the endpoint where it stood.
    pub fn connected(&mut self, outcome: Result<(), std::io::Error>) -> (r: Result<
        (),
        SessionError,
    >)
        ensures
            final(self).local == old(self).local,
            final(self).remote == old(self).remote,
            match outcome {
                Ok(_) => r is Ok && final(self).state == TcpState::Connected,
                Err(e) => r == Err::<(), SessionError>(SessionError::Connect(e))
                    && final(self).state == old(self).state,
            },
    {
        match outcome {
            Ok(_) => {
                self.state = TcpState::Connected;
                Ok(())
            },
            Err(e) => Err(SessionError::Connect(e)),
        }
    }

    /// Judges one attempt at accepting a peer.
    ///
    /// `attempt` is the outcome of the accept (the peer's address, if one
    /// connected) and `elapsed_millis` the time since the first attempt of
    /// this wait. A peer that connected is taken whenever it came: the
    /// endpoint is then connected to it and the step carries the whole
    /// seconds waited. A failure is handed on at once. With no peer yet, the
    /// wait times out when `wait_time` seconds have passed and is retried
    /// before that. Only an accepted peer changes the endpoint.
    pub fn wait_for_connection(
        &mut self,
        wait_time: u32,
        elapsed_millis: u128,
        attempt: Attempt<AddressSpec>,
    ) -> (step: SessionStep<u32>)
        ensures
            final(self).local == old(self).local,
            match attempt {
                Attempt::Ready(peer) => step == SessionStep::Done(spec_elapsed_secs(elapsed_millis))
                    && final(self).state == TcpState::Connected && final(self).remote == Some(
                    peer,
                ),
                Attempt::WouldBlock => *final(self) == *old(self) && step == (if elapsed_millis
                    >= wait_time_millis(wait_time) {
                    SessionStep::<u32>::Failed(SessionError::Timeout)
                } else {
                    SessionStep::<u32>::Retry
                }),
                Attempt::Failed(e) => *final(self) == *old(self) && step == SessionStep::<
                    u32,
                >::Failed(SessionError::Io(e)),
            },
            step matches SessionStep::Failed(SessionError::Timeout) ==> elapsed_millis
                >= wait_time_millis(wait_time),
    {
        match DeadlinePoller::for_wait_time(wait_time).step(attempt, elapsed_millis) {
            PollStep::Retry => SessionStep::Retry,
            PollStep::TimedOut => SessionStep::Failed(SessionError::Timeout),
            PollStep::Failed(e) => SessionStep::Failed(SessionError::Io(e)),
            PollStep::Done { value, elapsed_millis } => {
                self.remote = Some(value);
                self.state = TcpState::Connected;
                SessionStep::Done(((elapsed_millis / 1000) % 0x1_0000_0000) as u32)
            },
        }
    }

    /// Says whether a receive may begin: only a connected endpoint reads.
    pub fn ready_to_receive(&self) -> (r: Result<(), SessionError>)
        ensures
            self.state == TcpState::Connected ==> r is Ok,
            self.state != TcpState::Connected ==> r == Err::<(), SessionError>(
                SessionError::NotConnected,
            ),
    {
        if self.is_connected() {
            Ok(())
        } else {
            Err(SessionError::NotConnected)
        }
    }

    /// Judges one attempt at reading from the connection into `buf`.
    ///
    /// An endpoint that is still listening, or whose connection has ended,
    /// fails with `NotConnected`, whatever the attempt brought. On a
    /// connected endpoint, bytes that were read are decoded whenever they
    /// came, the payload starting where the header's data offset says; a
    /// failure is handed on at once; with nothing read, the receive times out
    /// when `wait_time` seconds have passed and is retried before that. A
    /// read that brought no bytes at all is the end of the connection: it
    /// fails to decode, and the endpoint is closed from then on.
    pub fn receive(
        &mut self,
        wait_time: u32,
        elapsed_millis: u128,
        attempt: Attempt<usize>,
        buf: &[u8],
    ) -> (step: SessionStep<ReceiveRecord<TcpDatagram>>)
        ensures
            final(self).local == old(self).local,
            final(self).remote == old(self).remote,
            old(self).state == TcpState::Listening ==> step == SessionStep::<
                ReceiveRecord<TcpDatagram>,
            >::Failed(SessionError::NotConnected),
            old(self).state != TcpState::Connected ==> final(self).state == old(self).state && step
                == SessionStep::<ReceiveRecord<TcpDatagram>>::Failed(SessionError::NotConnected),
            old(self).state == TcpState::Connected ==> final(self).state == spec_after_read(
                attempt,
            ) && match attempt {
                Attempt::Ready(n) => match spec_decode_tcp(buf@, n as int) {
                    Ok(d) => step matches SessionStep::Done(rec) && rec.datagram@ == d
                        && rec.wait_millis == spec_wait_millis(elapsed_millis),
                    Err(e) => step == SessionStep::<ReceiveRecord<TcpDatagram>>::Failed(
                        SessionError::HeaderDecode(e),
                    ),
                },
                Attempt::WouldBlock => if elapsed_millis >= wait_time_millis(wait_time) {
                    step == SessionStep::<ReceiveRecord<TcpDatagram>>::Failed(SessionError::Timeout)
                } else {
                    step == SessionStep::<ReceiveRecord<TcpDatagram>>::Retry
                },
                Attempt::Failed(e) => step == SessionStep::<ReceiveRecord<TcpDatagram>>::Failed(
                    SessionError::Io(e),
                ),
            },
            step matches SessionStep::Failed(SessionError::Timeout) ==> elapsed_millis
                >= wait_time_millis(wait_time),
            step matches SessionStep::Done(rec) ==> attempt matches Attempt::Ready(n)
                && rec.datagram.data@.len() == n - rec.datagram.header.data_offset as int * 4,
    {
        if !self.is_connected() {
            return SessionStep::Failed(SessionError::NotConnected);
        }
        match DeadlinePoller::for_wait_time(wait_time).step(attempt, elapsed_millis) {
            PollStep::Retry => SessionStep::Retry,
            PollStep::TimedOut => SessionStep::Failed(SessionError::Timeout),
            PollStep::Failed(e) => SessionStep::Failed(SessionError::Io(e)),
            PollStep::Done { value, elapsed_millis } => {
                if value == 0 {
                    self.state = TcpState::Closed;
                }
                match decode_tcp(buf, value) {
                    Ok(datagram) => SessionStep::Done(
                        ReceiveRecord { datagram, wait_millis: wait_millis(elapsed_millis) },
                    ),
                    Err(e) => SessionStep::Failed(SessionError::HeaderDecode(e)),
                }
            },
        }
    }
}

impl Sender for TcpSession {
    open spec fn fits(&self, data: Seq<u8>) -> bool {
        true
    }

    open spec fn spec_send(&self, data: Seq<u8>) -> Result<Seq<u8>, SessionError> {
        match self.state {
            TcpState::Connected => Ok(data),
            _ => Err(SessionError::NotConnected),
        }
    }

    /// The bytes to write to the connection for `data`: `data` itself. An
    /// endpoint without a connection sends nothing.
    fn send(&mut self, data: &[u8]) -> (r: Result<Vec<u8>, SessionError>)
        ensures
            old(self).state == TcpState::Connected <==> r is Ok,
    {
        match self.state {
            TcpState::Connected => Ok(vstd::slice::slice_to_vec(data)),
            _ => Err(SessionError::NotConnected),
        }
    }
}

} // verus!
