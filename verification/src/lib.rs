//! Timed socket sessions without the sockets.
//!
//! A session here is the deciding half of a TCP or UDP endpoint: it parses
//! addresses, frames what is sent, judges each non-blocking attempt against a
//! deadline and splits what was received into header and payload. The caller
//! owns the socket and the clock, makes each attempt, and reports its outcome.

use vstd::prelude::*;
use vstd::string::*;
use rand::Rng;
use crate::address::{spec_format_address, AddressSpec, AddressView};
use crate::session::SessionError;
use crate::text::chars_of;

pub mod address;
pub mod cast;
pub mod catch;
pub mod decoder;
pub mod fish;
pub mod header;
pub mod poller;
pub mod session;
pub mod table;
pub mod tcp;
pub mod text;
pub mod trap;
pub mod udp;

verus! {

/// Why a protocol name was refused.
#[derive(Debug, Clone, Copy, PartialEq, Eq, Structural)]
pub enum ParseErr {
    Protocol,
}

impl ParseErr {
    /// The message for a user.
    pub fn message(&self) -> (m: String)
        ensures
            m@ == "Invalid protocol"@,
    {
        String::from_str("Invalid protocol")
    }
}

/// The transport a session runs over.
#[derive(Debug, Clone, Copy, PartialEq, Eq, Structural)]
pub enum Protocol {
    Udp,
    Tcp,
}

/// The name a protocol goes by on the command line.
pub open spec fn protocol_name(p: Protocol) -> Seq<char> {
    match p {
        Protocol::Udp => seq!['u', 'd', 'p'],
        Protocol::Tcp => seq!['t', 'c', 'p'],
    }
}

/// The protocol that `s` names, if it names one.
pub open spec fn spec_protocol_from(s: Seq<char>) -> Result<Protocol, ParseErr> {
    if s == protocol_name(Protocol::Udp) {
        Ok(Protocol::Udp)
    } else if s == protocol_name(Protocol::Tcp) {
        Ok(Protocol::Tcp)
    } else {
        Err(ParseErr::Protocol)
    }
}

impl Protocol {
    /// Reads a protocol name: `udp` or `tcp`, in lower case.
    pub fn from_str(s: &str) -> (r: Result<Protocol, ParseErr>)
        ensures
            r == spec_protocol_from(s@),
    {
        let c = chars_of(s);
        if c.len() != 3 || c[1] != 'c' && c[1] != 'd' || c[2] != 'p' {
            return Err(ParseErr::Protocol);
        }
        if c[0] == 'u' && c[1] == 'd' {
            assert(s@ =~= protocol_name(Protocol::Udp));
            Ok(Protocol::Udp)
        } else if c[0] == 't' && c[1] == 'c' {
            assert(s@ =~= protocol_name(Protocol::Tcp));
            Ok(Protocol::Tcp)
        } else {
            Err(ParseErr::Protocol)
        }
    }

    /// The name of the protocol, as `from_str` reads it.
    pub fn name(&self) -> (s: &'static str)
        ensures
            s@ == protocol_name(*self),
            spec_protocol_from(s@) == Ok::<Protocol, ParseErr>(*self),
    {
        proof {
            reveal_strlit("udp");
            reveal_strlit("tcp");
        }
        let s = match self {
            Protocol::Udp => "udp",
            Protocol::Tcp => "tcp",
        };
        assert(s@ =~= protocol_name(*self));
        assert(protocol_name(Protocol::Udp)[0] != protocol_name(Protocol::Tcp)[0]);
        s
    }
}

impl std::str::FromStr for Protocol {
    type Err = ParseErr;

    /// Reads a protocol name, as the method of the same name on `Protocol`
    /// does: `udp` or `tcp`, in lower case, and nothing else.
    fn from_str(s: &str) -> (r: Result<Protocol, ParseErr>)
        ensures
            r == spec_protocol_from(s@),
    {
        Protocol::from_str(s)
    }
}

/// An endpoint that can be asked to send a payload. `send` settles what goes
/// to the transport; handing it over is the caller's part.
pub trait Sender: Sized {
    /// True when the endpoint can carry `data` in one transmission.
    spec fn fits(&self, data: Seq<u8>) -> bool;

    /// What the endpoint hands to the transport for `data`, or why it does not.
    spec fn spec_send(&self, data: Seq<u8>) -> Result<Seq<u8>, SessionError>;

    /// Settles what is transmitted for `data`. The endpoint is left as it was.
    fn send(&mut self, data: &[u8]) -> (r: Result<Vec<u8>, SessionError>)
        requires
            old(self).fits(data@),
        ensures
            *final(self) == *old(self),
            match r {
                Ok(wire) => old(self).spec_send(data@) == Ok::<Seq<u8>, SessionError>(wire@),
                Err(e) => old(self).spec_send(data@) == Err::<Seq<u8>, SessionError>(e),
            },
    ;
}

/// How many datagrams a command handles when it is not told.
pub const DEFAULT_AMOUNT: u16 = 5;

/// How many seconds a command waits for one datagram when it is not told.
pub const DEFAULT_WAIT_TIME: u32 = 5;

/// How many bytes a probe payload has when a command is not told.
pub const DEFAULT_PACKET_SIZE: u32 = 5;

/// Width of a column in the tables that the commands print.
pub const COLUMN_WIDTH: usize = 20;

/// The value of a setting: the one given, or else the default.
pub open spec fn spec_setting<T>(given: Option<T>, default: T) -> T {
    match given {
        Some(v) => v,
        None => default,
    }
}

/// Settles a setting: a missing one is filled with the default, and the
/// value that then stands is returned.
pub fn settle<T: Copy>(setting: &mut Option<T>, default: T) -> (v: T)
    ensures
        v == spec_setting(*old(setting), default),
        *final(setting) == Some(v),
{
    match *setting {
        Some(v) => v,
        None => {
            *setting = Some(default);
            default
        },
    }
}

/// Lowest port that `random_local` picks.
pub const RANDOM_PORT_LOW: u16 = 2000;

/// The bound below which `random_local` picks its port.
pub const RANDOM_PORT_HIGH: u16 = 65353;

/// `rand::Rng::gen_range` on the thread's generator: some value from `low`
/// up to, but not including, `high`. Which one is left open.
#[verifier::external_body]
fn random_port(low: u16, high: u16) -> (port: u16)
    requires
        low < high,
    ensures
        low <= port < high,
{
    rand::thread_rng().gen_range(low, high)
}

/// The loopback address with the given port.
pub open spec fn loopback_view(port: u16) -> AddressView {
    AddressView { octets: seq![127u8, 0u8, 0u8, 1u8], port }
}

/// The loopback address with the given port.
pub fn loopback(port: u16) -> (a: AddressSpec)
    ensures
        a@ == loopback_view(port),
{
    let a = AddressSpec { ipv4_octets: [127, 0, 0, 1], port };
    assert(a.ipv4_octets@ =~= seq![127u8, 0u8, 0u8, 1u8]);
    a
}

/// A loopback address with a port picked at random from `RANDOM_PORT_LOW`
/// up to, but not including, `RANDOM_PORT_HIGH`, as text.
pub fn random_local() -> (local: String)
    ensures
        exists|port: u16|
            RANDOM_PORT_LOW <= port < RANDOM_PORT_HIGH && local@ == spec_format_address(
                #[trigger] loopback_view(port),
            ),
{
    let port = random_port(RANDOM_PORT_LOW, RANDOM_PORT_HIGH);
    let local = loopback(port).format();
    assert(local@ == spec_format_address(loopback_view(port)));
    local
}

} // verus!
