//! The `trap` command: send a number of payloads of one size over TCP and
//! count how many are answered.

use vstd::prelude::*;
use vstd::string::*;
use crate::cast::{is_random_local, sender_local};
use crate::table::{append_number, row3, spec_pad, spec_row3};
use crate::text::decimal_digits;
use crate::{
    settle, spec_setting, COLUMN_WIDTH, DEFAULT_AMOUNT, DEFAULT_PACKET_SIZE, DEFAULT_WAIT_TIME,
};

verus! {

/// What `trap` was asked to do.
#[derive(Debug)]
pub struct Options {
    /// Address to send datagrams from.
    pub local: Option<String>,
    /// Address to send datagrams to.
    pub remote: String,
    /// Amount of datagrams to send.
    pub amount: Option<u16>,
    /// Size of the datagrams sent.
    pub packet_size: Option<u32>,
    /// Seconds to wait for each datagram.
    pub time: Option<u32>,
}

/// A trap run: what it goes by, and how many receives have succeeded.
#[derive(Debug)]
pub struct TrapRun {
    /// The address the sending endpoint binds.
    pub local: String,
    /// Payloads to send, and receives to make.
    pub amount: u16,
    /// Bytes in each payload.
    pub size: u32,
    /// Seconds each receive may wait.
    pub wait_time: u32,
    /// Receives made so far.
    pub rounds: u16,
    /// Receives that brought a datagram.
    pub received: u16,
}

/// The byte every probe payload is filled with.
pub const PROBE_BYTE: u8 = 1;

impl TrapRun {
    /// No more receives were made than payloads sent, and no more succeeded
    /// than were made.
    pub open spec fn wf(&self) -> bool {
        self.received <= self.rounds <= self.amount
    }

    /// One probe payload: `size` bytes, each `PROBE_BYTE`.
    pub fn payload(&self) -> (p: Vec<u8>)
        ensures
            p@ == Seq::new(self.size as nat, |i: int| PROBE_BYTE),
    {
        let mut p: Vec<u8> = Vec::new();
        let mut i: u32 = 0;
        while i < self.size
            invariant
                0 <= i <= self.size,
                p@ == Seq::new(i as nat, |j: int| PROBE_BYTE),
            decreases self.size - i,
        {
            p.push(PROBE_BYTE);
            i += 1;
            assert(p@ =~= Seq::new(i as nat, |j: int| PROBE_BYTE));
        }
        p
    }

    /// True when every receive asked for was made: the report is due.
    pub fn is_finished(&self) -> (done: bool)
        ensures
            done == (self.rounds >= self.amount),
    {
        self.rounds >= self.amount
    }

    /// Enters the outcome of one receive: it counts if it brought a
    /// datagram, and the run goes on either way.
    pub fn record(&mut self, answered: bool)
        requires
            old(self).wf(),
            old(self).rounds < old(self).amount,
        ensures
            final(self).wf(),
            final(self).local == old(self).local,
            final(self).amount == old(self).amount,
            final(self).size == old(self).size,
            final(self).wait_time == old(self).wait_time,
            final(self).rounds == old(self).rounds + 1,
            final(self).received == old(self).received + if answered {
                1int
            } else {
                0int
            },
    {
        self.rounds = self.rounds + 1;
        if answered {
            self.received = self.received + 1;
        }
    }
}

/// Begins a trap run: settles the amount, the packet size and the wait
/// time, each taking its default where none was given, and the address to
/// send from.
pub fn run_trap(options: &mut Options) -> (run: TrapRun)
    ensures
        final(options).local == old(options).local,
        final(options).remote == old(options).remote,
        final(options).amount == Some(spec_setting(old(options).amount, DEFAULT_AMOUNT)),
        final(options).packet_size == Some(
            spec_setting(old(options).packet_size, DEFAULT_PACKET_SIZE),
        ),
        final(options).time == Some(spec_setting(old(options).time, DEFAULT_WAIT_TIME)),
        run.amount == spec_setting(old(options).amount, DEFAULT_AMOUNT),
        run.size == spec_setting(old(options).packet_size, DEFAULT_PACKET_SIZE),
        run.wait_time == spec_setting(old(options).time, DEFAULT_WAIT_TIME),
        run.rounds == 0,
        run.received == 0,
        run.wf(),
        match old(options).local {
            Some(l) => run.local@ == l@,
            None => is_random_local(run.local@),
        },
{
    let amount = settle(&mut options.amount, DEFAULT_AMOUNT);
    let size = settle(&mut options.packet_size, DEFAULT_PACKET_SIZE);
    let wait_time = settle(&mut options.time, DEFAULT_WAIT_TIME);
    let local = sender_local(&options.local);
    TrapRun { local, amount, size, wait_time, rounds: 0, received: 0 }
}

/// The line above the report.
pub fn print_header() -> (line: String)
    ensures
        line@ == spec_row3(
            "AMOUNT SENT"@,
            "PACKET SIZE"@,
            "PACKETS RECEIVED"@,
            COLUMN_WIDTH as nat,
        ),
{
    row3("AMOUNT SENT", "PACKET SIZE", "PACKETS RECEIVED", COLUMN_WIDTH)
}

/// The line of the report: payloads sent, their size, and receives that
/// succeeded.
pub fn print_stats(amount: u16, size: u32, received: usize) -> (line: String)
    ensures
        line@ == spec_pad(decimal_digits(amount as nat), COLUMN_WIDTH as nat) + spec_pad(
            decimal_digits(size as nat),
            COLUMN_WIDTH as nat,
        ) + spec_pad(decimal_digits(received as nat), COLUMN_WIDTH as nat),
{
    let mut line = String::new();
    append_number(&mut line, amount as u128, COLUMN_WIDTH);
    append_number(&mut line, size as u128, COLUMN_WIDTH);
    append_number(&mut line, received as u128, COLUMN_WIDTH);
    assert(line@ =~= spec_pad(decimal_digits(amount as nat), COLUMN_WIDTH as nat) + spec_pad(
        decimal_digits(size as nat),
        COLUMN_WIDTH as nat,
    ) + spec_pad(decimal_digits(received as nat), COLUMN_WIDTH as nat));
    line
}

} // verus!
