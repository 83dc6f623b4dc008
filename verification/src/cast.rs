//! The `cast` command: send a payload to a remote address a number of times
//! and report on what comes back each time.

use vstd::prelude::*;
use vstd::string::*;
use crate::address::spec_format_address;
use crate::table::{append_number, append_quantity, row3, spec_pad, spec_row3};
use crate::text::decimal_digits;
use crate::{
    loopback, loopback_view, random_local, settle, spec_setting, Protocol, COLUMN_WIDTH,
    DEFAULT_AMOUNT, DEFAULT_WAIT_TIME, RANDOM_PORT_HIGH, RANDOM_PORT_LOW,
};

verus! {

/// What `cast` was asked to do.
#[derive(Debug)]
pub struct Options {
    /// Transport protocol used.
    pub protocol: Protocol,
    /// Address to send datagrams from.
    pub local: Option<String>,
    /// Address to send datagrams to.
    pub remote: String,
    /// Payload to send to the remote host.
    pub payload: String,
    /// Amount of datagrams to send.
    pub amount: Option<u16>,
    /// Seconds to wait for each datagram.
    pub time: Option<u32>,
}

/// What a cast run goes by, once the options are settled.
#[derive(Debug)]
pub struct CastRun {
    pub protocol: Protocol,
    /// The address the sending endpoint binds.
    pub local: String,
    /// Rounds of send and receive.
    pub amount: u16,
    /// Seconds each receive may wait.
    pub wait_time: u32,
}

/// True when `local` is a loopback address on a port that `random_local`
/// may pick.
pub open spec fn is_random_local(local: Seq<char>) -> bool {
    exists|port: u16|
        RANDOM_PORT_LOW <= port < RANDOM_PORT_HIGH && local == spec_format_address(
            #[trigger] loopback_view(port),
        )
}

/// The address to send from: the one given, or else a loopback address on a
/// port picked at random.
pub fn sender_local(given: &Option<String>) -> (local: String)
    ensures
        match *given {
            Some(l) => local@ == l@,
            None => is_random_local(local@),
        },
{
    match given {
        Some(l) => l.clone(),
        None => random_local(),
    }
}

/// The address the receiving endpoint binds: the remote port, on loopback.
pub fn reader_local(remote_port: u16) -> (local: String)
    ensures
        local@ == spec_format_address(loopback_view(remote_port)),
{
    loopback(remote_port).format()
}

/// Begins a cast run: settles the amount and the wait time, each taking its
/// default where none was given, and the address to send from.
pub fn run_cast(options: &mut Options) -> (run: CastRun)
    ensures
        final(options).protocol == old(options).protocol,
        final(options).local == old(options).local,
        final(options).remote == old(options).remote,
        final(options).payload == old(options).payload,
        final(options).amount == Some(spec_setting(old(options).amount, DEFAULT_AMOUNT)),
        final(options).time == Some(spec_setting(old(options).time, DEFAULT_WAIT_TIME)),
        run.protocol == old(options).protocol,
        run.amount == spec_setting(old(options).amount, DEFAULT_AMOUNT),
        run.wait_time == spec_setting(old(options).time, DEFAULT_WAIT_TIME),
        match old(options).local {
            Some(l) => run.local@ == l@,
            None => is_random_local(run.local@),
        },
{
    let amount = settle(&mut options.amount, DEFAULT_AMOUNT);
    let wait_time = settle(&mut options.time, DEFAULT_WAIT_TIME);
    let local = sender_local(&options.local);
    CastRun { protocol: options.protocol, local, amount, wait_time }
}

/// The line above the report.
pub fn print_header() -> (line: String)
    ensures
        line@ == spec_row3("PACKET NUMBER"@, "WAIT TIME"@, "BYTES READ"@, COLUMN_WIDTH as nat),
{
    row3("PACKET NUMBER", "WAIT TIME", "BYTES READ", COLUMN_WIDTH)
}

/// The line for one round: its number, the time the receive took with `s`
/// behind it, and the bytes read.
pub fn print_stats(packet_number: u16, wait_time: u32, bytes: usize) -> (line: String)
    ensures
        line@ == spec_pad(decimal_digits(packet_number as nat), COLUMN_WIDTH as nat) + spec_pad(
            decimal_digits(wait_time as nat) + "s"@,
            COLUMN_WIDTH as nat,
        ) + spec_pad(decimal_digits(bytes as nat), COLUMN_WIDTH as nat),
{
    let mut line = String::new();
    append_number(&mut line, packet_number as u128, COLUMN_WIDTH);
    append_quantity(&mut line, wait_time as u128, "s", COLUMN_WIDTH);
    append_number(&mut line, bytes as u128, COLUMN_WIDTH);
    assert(line@ =~= spec_pad(decimal_digits(packet_number as nat), COLUMN_WIDTH as nat)
        + spec_pad(decimal_digits(wait_time as nat) + "s"@, COLUMN_WIDTH as nat) + spec_pad(
        decimal_digits(bytes as nat),
        COLUMN_WIDTH as nat,
    ));
    line
}

} // verus!
