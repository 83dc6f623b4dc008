//! The `catch` command: receive a number of datagrams on a local address and
//! report how many came and how many bytes they carried.

use vstd::prelude::*;
use vstd::string::*;
use crate::session::SessionError;
use crate::table::{append_padded, append_number, row3, spec_pad, spec_row3};
use crate::text::decimal_digits;
use crate::{settle, spec_setting, Protocol, COLUMN_WIDTH, DEFAULT_AMOUNT, DEFAULT_WAIT_TIME};

pub mod udp;

verus! {

/// What `catch` was asked to do.
#[derive(Debug)]
pub struct Options {
    /// Transport protocol used.
    pub protocol: Protocol,
    /// Address to receive datagrams on.
    pub local: String,
    /// Amount of datagrams to collect.
    pub amount: Option<u16>,
    /// Seconds to wait for each datagram.
    pub time: Option<u32>,
}

/// The tally of a catch run.
#[derive(Debug, Clone, Copy, PartialEq, Eq, Structural)]
pub struct CatchRun {
    pub protocol: Protocol,
    /// Rounds asked for.
    pub amount: u16,
    /// Seconds each round may wait.
    pub wait_time: u32,
    /// Rounds that are over.
    pub rounds: u16,
    /// Rounds that brought a datagram.
    pub received: u16,
    /// Payload bytes of all datagrams received.
    pub total_bytes: u128,
}

impl CatchRun {
    /// No more rounds are over than were asked for, no more datagrams came
    /// than rounds are over, and the byte count is within what that many
    /// datagrams can carry.
    pub open spec fn wf(&self) -> bool {
        &&& self.received <= self.rounds <= self.amount
        &&& self.total_bytes <= self.received as int * 0xffff_ffff_ffff_ffff
    }

    /// True when every round asked for is over: the report is due.
    pub fn is_finished(&self) -> (done: bool)
        ensures
            done == (self.rounds >= self.amount),
    {
        self.rounds >= self.amount
    }

    /// Enters the outcome of one round: the payload length of the datagram
    /// received, or the failure.
    ///
    /// A datagram counts as received and its bytes are added. A timeout on
    /// UDP is a round that brought nothing, and the run goes on. Any other
    /// failure, and a timeout on TCP, ends the run: it is handed back and the
    /// tally stays as it was.
    pub fn record(&mut self, outcome: Result<usize, SessionError>) -> (r: Result<(), SessionError>)
        requires
            old(self).wf(),
            old(self).rounds < old(self).amount,
        ensures
            final(self).wf(),
            final(self).protocol == old(self).protocol,
            final(self).amount == old(self).amount,
            final(self).wait_time == old(self).wait_time,
            match outcome {
                Ok(n) => {
                    &&& r is Ok
                    &&& final(self).rounds == old(self).rounds + 1
                    &&& final(self).received == old(self).received + 1
                    &&& final(self).total_bytes == old(self).total_bytes + n
                },
                Err(e) => if e is Timeout && old(self).protocol == Protocol::Udp {
                    &&& r is Ok
                    &&& final(self).rounds == old(self).rounds + 1
                    &&& final(self).received == old(self).received
                    &&& final(self).total_bytes == old(self).total_bytes
                } else {
                    &&& r == Err::<(), SessionError>(e)
                    &&& *final(self) == *old(self)
                },
            },
    {
        match outcome {
            Ok(n) => {
                self.rounds = self.rounds + 1;
                self.received = self.received + 1;
                self.total_bytes = self.total_bytes + n as u128;
                Ok(())
            },
            Err(SessionError::Timeout) => {
                match self.protocol {
                    Protocol::Udp => {
                        self.rounds = self.rounds + 1;
                        Ok(())
                    },
                    Protocol::Tcp => Err(SessionError::Timeout),
                }
            },
            Err(e) => Err(e),
        }
    }
}

/// Begins a catch run: settles the amount and the wait time, each taking
/// its default where none was given, and returns the empty tally.
pub fn run_catch(options: &mut Options) -> (run: CatchRun)
    ensures
        final(options).protocol == old(options).protocol,
        final(options).local == old(options).local,
        final(options).amount == Some(spec_setting(old(options).amount, DEFAULT_AMOUNT)),
        final(options).time == Some(spec_setting(old(options).time, DEFAULT_WAIT_TIME)),
        run == (CatchRun {
            protocol: old(options).protocol,
            amount: spec_setting(old(options).amount, DEFAULT_AMOUNT),
            wait_time: spec_setting(old(options).time, DEFAULT_WAIT_TIME),
            rounds: 0,
            received: 0,
            total_bytes: 0,
        }),
        run.wf(),
{
    let amount = settle(&mut options.amount, DEFAULT_AMOUNT);
    let wait_time = settle(&mut options.time, DEFAULT_WAIT_TIME);
    CatchRun {
        protocol: options.protocol,
        amount,
        wait_time,
        rounds: 0,
        received: 0,
        total_bytes: 0,
    }
}

/// The line above the report.
pub fn print_header() -> (line: String)
    ensures
        line@ == spec_row3(
            "AVG TIME"@,
            "TOTAL BYTES"@,
            "PACKETS RECEIVED"@,
            COLUMN_WIDTH as nat,
        ),
{
    row3("AVG TIME", "TOTAL BYTES", "PACKETS RECEIVED", COLUMN_WIDTH)
}

/// The line of the report: the average time with `s` behind it, the bytes
/// received, and the share of datagrams received with `%` behind it. The
/// two quotients come as text, written by whoever divided.
pub fn print_stats(avg_time: &str, total_bytes: u128, received: &str) -> (line: String)
    ensures
        line@ == spec_pad(avg_time@ + "s"@, COLUMN_WIDTH as nat) + spec_pad(
            decimal_digits(total_bytes as nat),
            COLUMN_WIDTH as nat,
        ) + spec_pad(received@ + "%"@, COLUMN_WIDTH as nat),
{
    let mut time_cell = String::from_str(avg_time);
    time_cell.append("s");
    let mut received_cell = String::from_str(received);
    received_cell.append("%");
    let mut line = String::new();
    append_padded(&mut line, time_cell.as_str(), COLUMN_WIDTH);
    append_number(&mut line, total_bytes, COLUMN_WIDTH);
    append_padded(&mut line, received_cell.as_str(), COLUMN_WIDTH);
    assert(line@ =~= spec_pad(avg_time@ + "s"@, COLUMN_WIDTH as nat) + spec_pad(
        decimal_digits(total_bytes as nat),
        COLUMN_WIDTH as nat,
    ) + spec_pad(received@ + "%"@, COLUMN_WIDTH as nat));
    line
}

} // verus!
