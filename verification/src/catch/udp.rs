//! Collecting a number of datagrams on a UDP socket, each within the wait
//! time that the collector was given.

use vstd::prelude::*;
use vstd::slice::slice_to_vec;
use crate::address::{spec_parse_address, AddressParseError, AddressSpec, AddressView};
use crate::decoder::{decode_udp, spec_decode_udp};
use crate::poller::{wait_time_millis, Attempt, DeadlinePoller, PollStep};
use crate::session::{spec_wait_millis, wait_millis, ReceiveRecord, SessionError};

pub use crate::udp::UdpDatagram;

verus! {

/// Seconds a collector waits for each datagram unless it is told otherwise.
pub const COLLECT_WAIT_TIME: u32 = 15;

/// What the caller that drives the socket does after handing an attempt's
/// outcome to a collector.
#[derive(Debug)]
pub enum CollectStep {
    /// Nothing yet and time is left for this datagram: read again.
    Retry,
    /// This datagram is settled and another is due: restart the clock.
    NextDatagram,
    /// Every datagram asked for is settled.
    Finished,
    /// The collecting has failed; read no more.
    Failed(SessionError),
}

/// The datagrams collected so far, and how many are still to be waited for.
#[derive(Debug)]
pub struct UdpHandler {
    /// Datagrams in the order they were received, each with the time its
    /// read took.
    pub datagrams: Vec<ReceiveRecord<UdpDatagram>>,
    /// Datagrams still to be waited for.
    pub pending: u16,
    /// Seconds to wait for each datagram.
    pub wait_time: u32,
}

/// The step that follows a settled datagram when `pending` were due before it.
pub open spec fn spec_after_datagram(pending: u16) -> CollectStep {
    if pending <= 1 {
        CollectStep::Finished
    } else {
        CollectStep::NextDatagram
    }
}

impl UdpHandler {
    /// What judging one attempt does to a collector: `self` is the collector
    /// before, `after` the collector after, and `step` what the caller is
    /// told. `buf` holds what the attempt read, `elapsed_millis` is the time
    /// since the first attempt for the datagram now waited for.
    pub open spec fn collects(
        &self,
        after: UdpHandler,
        step: CollectStep,
        elapsed_millis: u128,
        attempt: Attempt<usize>,
        buf: Seq<u8>,
    ) -> bool {
        if self.pending == 0 {
            step == CollectStep::Finished && after == *self
        } else {
            match attempt {
                Attempt::Ready(n) => match spec_decode_udp(buf, n as int) {
                    Ok(d) => {
                        &&& step == spec_after_datagram(self.pending)
                        &&& after.pending == self.pending - 1
                        &&& after.datagrams@.len() == self.datagrams@.len() + 1
                        &&& after.datagrams@.drop_last() =~= self.datagrams@
                        &&& after.datagrams@.last().datagram@ == d
                        &&& after.datagrams@.last().wait_millis == spec_wait_millis(elapsed_millis)
                        &&& after.wait_time == self.wait_time
                    },
                    Err(e) => step == CollectStep::Failed(SessionError::HeaderDecode(e)) && after
                        == *self,
                },
                Attempt::WouldBlock => if elapsed_millis >= wait_time_millis(self.wait_time) {
                    &&& step == spec_after_datagram(self.pending)
                    &&& after.pending == self.pending - 1
                    &&& after.datagrams == self.datagrams
                    &&& after.wait_time == self.wait_time
                } else {
                    step == CollectStep::Retry && after == *self
                },
                Attempt::Failed(e) => step == CollectStep::Failed(SessionError::Io(e)) && after
                    == *self,
            }
        }
    }

    /// A collector that holds nothing and waits for nothing, and that will
    /// wait `COLLECT_WAIT_TIME` seconds for each datagram.
    pub fn new() -> (h: UdpHandler)
        ensures
            h.datagrams@.len() == 0,
            h.pending == 0,
            h.wait_time == COLLECT_WAIT_TIME,
    {
        UdpHandler { datagrams: Vec::new(), pending: 0, wait_time: COLLECT_WAIT_TIME }
    }

    /// Sets how many seconds the collector waits for each datagram.
    pub fn set_wait_time(&mut self, wait_time: u32)
        ensures
            final(self).datagrams == old(self).datagrams,
            final(self).pending == old(self).pending,
            final(self).wait_time == wait_time,
    {
        self.wait_time = wait_time;
    }

    /// Asks for `amount` more datagrams. What was collected stays.
    pub fn begin(&mut self, amount: u16)
        ensures
            final(self).datagrams == old(self).datagrams,
            final(self).wait_time == old(self).wait_time,
            final(self).pending == amount,
    {
        self.pending = amount;
    }

    /// True when no datagram is being waited for.
    pub fn is_finished(&self) -> (done: bool)
        ensures
            done == (self.pending == 0),
    {
        self.pending == 0
    }

    /// Judges one attempt at reading a datagram into `buf`.
    ///
    /// `elapsed_millis` counts from the first attempt for the datagram now
    /// waited for. With none waited for, the collecting is finished and
    /// nothing changes. A datagram that was read is decoded and appended,
    /// with the time its read took. With nothing read, the datagram is given
    /// up once the collector's wait time has passed, and the read is retried
    /// before that. Either way a settled datagram leaves one fewer to wait
    /// for. A failed read or bytes that do not decode end the collecting and
    /// change nothing.
    pub fn collect(
        &mut self,
        elapsed_millis: u128,
        attempt: Attempt<usize>,
        buf: &[u8],
    ) -> (step: CollectStep)
        ensures
            old(self).collects(*final(self), step, elapsed_millis, attempt, buf@),
    {
        if self.pending == 0 {
            return CollectStep::Finished;
        }
        match DeadlinePoller::for_wait_time(self.wait_time).step(attempt, elapsed_millis) {
            PollStep::Retry => CollectStep::Retry,
            PollStep::Failed(e) => CollectStep::Failed(SessionError::Io(e)),
            PollStep::TimedOut => self.settle_datagram(),
            PollStep::Done { value, elapsed_millis } => match decode_udp(buf, value) {
                Ok(datagram) => {
                    self.datagrams.push(
                        ReceiveRecord { datagram, wait_millis: wait_millis(elapsed_millis) },
                    );
                    self.settle_datagram()
                },
                Err(e) => CollectStep::Failed(SessionError::HeaderDecode(e)),
            },
        }
    }

    fn settle_datagram(&mut self) -> (step: CollectStep)
        requires
            old(self).pending > 0,
        ensures
            step == spec_after_datagram(old(self).pending),
            final(self).pending == old(self).pending - 1,
            final(self).datagrams == old(self).datagrams,
            final(self).wait_time == old(self).wait_time,
    {
        self.pending = self.pending - 1;
        if self.pending == 0 {
            CollectStep::Finished
        } else {
            CollectStep::NextDatagram
        }
    }
}

/// A UDP socket's settings for a collecting run: where it is bound, where it
/// sends, what it sends and how many datagrams it waits for.
#[derive(Debug)]
pub struct UdpMetadata {
    pub local: AddressSpec,
    pub remote: Option<AddressSpec>,
    pub handler: UdpHandler,
    /// Datagrams that `collect` waits for.
    pub amount: u16,
    /// What `send` sends, once set.
    pub payload: Option<Vec<u8>>,
}

impl UdpMetadata {
    /// Settings for a socket bound to the address that `socket` writes: no
    /// remote address, no payload, one datagram to collect.
    pub fn new(socket: &str) -> (r: Result<UdpMetadata, SessionError>)
        ensures
            match r {
                Ok(m) => {
                    &&& spec_parse_address(socket@) == Ok::<AddressView, AddressParseError>(
                        m.local@,
                    )
                    &&& m.remote is None
                    &&& m.payload is None
                    &&& m.amount == 1
                    &&& m.handler.datagrams@.len() == 0
                    &&& m.handler.pending == 0
                    &&& m.handler.wait_time == COLLECT_WAIT_TIME
                },
                Err(e) => e matches SessionError::AddressParse(p) && spec_parse_address(socket@)
                    == Err::<AddressView, AddressParseError>(p),
            },
    {
        match AddressSpec::parse(socket) {
            Ok(local) => Ok(
                UdpMetadata {
                    local,
                    remote: None,
                    handler: UdpHandler::new(),
                    amount: 1,
                    payload: None,
                },
            ),
            Err(e) => Err(SessionError::AddressParse(e)),
        }
    }

    /// Records the peer that `address` writes and returns it as the address
    /// to connect the socket to. A text that is no address changes nothing.
    pub fn connect(&mut self, address: &str) -> (r: Result<AddressSpec, SessionError>)
        ensures
            final(self).local == old(self).local,
            final(self).handler == old(self).handler,
            final(self).amount == old(self).amount,
            final(self).payload == old(self).payload,
            match r {
                Ok(a) => final(self).remote == Some(a) && spec_parse_address(address@) == Ok::<
                    AddressView,
                    AddressParseError,
                >(a@),
                Err(e) => *final(self) == *old(self) && (e matches SessionError::AddressParse(p)
                    && spec_parse_address(address@) == Err::<AddressView, AddressParseError>(p)),
            },
    {
        match AddressSpec::parse(address) {
            Ok(a) => {
                self.remote = Some(a);
                Ok(a)
            },
            Err(e) => Err(SessionError::AddressParse(e)),
        }
    }

    /// The bytes to send: the payload as it was set, or nothing if none was.
    pub fn send(&self) -> (wire: Option<Vec<u8>>)
        ensures
            match self.payload {
                Some(p) => wire matches Some(w) && w@ == p@,
                None => wire is None,
            },
    {
        match &self.payload {
            Some(p) => Some(slice_to_vec(p.as_slice())),
            None => None,
        }
    }

    /// Sets what `send` sends.
    pub fn set_payload(&mut self, data: &[u8])
        ensures
            final(self).payload matches Some(p) && p@ == data@,
            final(self).local == old(self).local,
            final(self).remote == old(self).remote,
            final(self).handler == old(self).handler,
            final(self).amount == old(self).amount,
    {
        self.payload = Some(slice_to_vec(data));
    }

    /// Sets how many datagrams `collect` waits for.
    pub fn set_amount(&mut self, amount: u16)
        ensures
            final(self).amount == amount,
            final(self).local == old(self).local,
            final(self).remote == old(self).remote,
            final(self).handler == old(self).handler,
            final(self).payload == old(self).payload,
    {
        self.amount = amount;
    }

    /// Sets how many seconds `collect` waits for each datagram.
    pub fn set_wait_time(&mut self, wait_time: u32)
        ensures
            final(self).handler.wait_time == wait_time,
            final(self).handler.pending == old(self).handler.pending,
            final(self).handler.datagrams == old(self).handler.datagrams,
            final(self).local == old(self).local,
            final(self).remote == old(self).remote,
            final(self).amount == old(self).amount,
            final(self).payload == old(self).payload,
    {
        self.handler.set_wait_time(wait_time);
    }

    /// Begins collecting: as many datagrams are waited for as the amount
    /// says. What was collected before stays.
    pub fn begin_collect(&mut self)
        ensures
            final(self).handler.pending == old(self).amount,
            final(self).handler.datagrams == old(self).handler.datagrams,
            final(self).handler.wait_time == old(self).handler.wait_time,
            final(self).local == old(self).local,
            final(self).remote == old(self).remote,
            final(self).amount == old(self).amount,
            final(self).payload == old(self).payload,
    {
        self.handler.begin(self.amount);
    }

    /// Judges one attempt at reading a datagram into `buf`, as the handler's
    /// `collect` does, and changes nothing but the handler.
    pub fn collect(
        &mut self,
        elapsed_millis: u128,
        attempt: Attempt<usize>,
        buf: &[u8],
    ) -> (step: CollectStep)
        ensures
            final(self).local == old(self).local,
            final(self).remote == old(self).remote,
            final(self).amount == old(self).amount,
            final(self).payload == old(self).payload,
            old(self).handler.collects(final(self).handler, step, elapsed_millis, attempt, buf@),
    {
        self.handler.collect(elapsed_millis, attempt, buf)
    }

    /// The datagrams collected so far, oldest first.
    pub fn datagrams(&self) -> (all: &Vec<ReceiveRecord<UdpDatagram>>)
        ensures
            all == self.handler.datagrams,
    {
        &self.handler.datagrams
    }
}

} // verus!
