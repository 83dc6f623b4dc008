//! What the two kinds of session have in common: how an operation fails,
//! what follows an attempt, and what a receive yields.

use vstd::prelude::*;
use crate::address::AddressParseError;
use crate::decoder::HeaderDecodeError;

verus! {

/// `std::io::Error`, carried through as the transport reported it and never
/// looked into.
#[verifier::external_type_specification]
#[verifier::external_body]
pub struct ExIoError(std::io::Error);

/// The ways an operation on a session fails. Each failure is handed to the
/// caller of the operation that met it; none is retried or swallowed.
#[derive(Debug)]
pub enum SessionError {
    /// The text is no `ip:port` pair.
    AddressParse(AddressParseError),
    /// The local address could not be bound.
    Bind(std::io::Error),
    /// The peer could not be reached, or refused.
    Connect(std::io::Error),
    /// A TCP endpoint was asked to send or receive before it was connected.
    NotConnected,
    /// A UDP endpoint was asked to send with no remote address set.
    NoRemoteAddress,
    /// Received bytes could not be split into header and payload.
    HeaderDecode(HeaderDecodeError),
    /// The wait time elapsed with nothing received.
    Timeout,
    /// Anything else the transport reported.
    Io(std::io::Error),
}

/// What the caller that drives the transport does after handing an attempt's
/// outcome to a session.
#[derive(Debug)]
pub enum SessionStep<T> {
    /// Nothing yet and time is left: make the attempt again.
    Retry,
    /// The operation is complete.
    Done(T),
    /// The operation has failed; make no further attempt.
    Failed(SessionError),
}

/// A decoded datagram with the time its read took.
#[derive(Debug, Clone)]
pub struct ReceiveRecord<D> {
    pub datagram: D,
    /// Milliseconds from the first attempt to the successful one.
    pub wait_millis: u32,
}

/// The wait recorded for a read that took `elapsed_millis`: the count of
/// milliseconds, reduced to 32 bits.
pub open spec fn spec_wait_millis(elapsed_millis: u128) -> u32 {
    (elapsed_millis % 0x1_0000_0000) as u32
}

/// The wait recorded for a read that took `elapsed_millis`.
pub fn wait_millis(elapsed_millis: u128) -> (w: u32)
    ensures
        w == spec_wait_millis(elapsed_millis),
{
    (elapsed_millis % 0x1_0000_0000) as u32
}

} // verus!
