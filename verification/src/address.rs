//! `ip:port` addresses: an IPv4 address in dotted-decimal notation, a colon,
//! and a decimal port. No names are resolved.

use vstd::prelude::*;
use vstd::slice::slice_subrange;
use vstd::string::*;
use crate::text::{
    append_decimal, chars_of, decimal_digits, decimal_value, find_first, find_last,
    is_canonical_decimal, lemma_canonical_is_digits, lemma_decimal_digits,
    lemma_decimal_digits_len, lemma_split_first_concat, lemma_split_first_joins,
    lemma_split_last_concat, lemma_split_last_joins, parse_decimal, parse_unsigned,
    spec_parse_unsigned, spec_split_first, spec_split_last,
};

verus! {

/// Why a text is no `ip:port` pair.
#[derive(Debug, Clone, Copy, PartialEq, Eq, Structural)]
pub enum AddressParseError {
    /// There is no `:` to split at.
    MissingPort,
    /// What stands before the last `:` is no dotted-decimal IPv4 address.
    InvalidIp,
    /// What stands after the last `:` is no decimal number up to 65535.
    InvalidPort,
}

/// A numeric IPv4 address and a port.
#[derive(Debug, Clone, Copy, PartialEq, Eq)]
pub struct AddressSpec {
    pub ipv4_octets: [u8; 4],
    pub port: u16,
}

/// What an `AddressSpec` holds: four octets and a port.
pub struct AddressView {
    pub octets: Seq<u8>,
    pub port: u16,
}

impl View for AddressSpec {
    type V = AddressView;

    open spec fn view(&self) -> AddressView {
        AddressView { octets: self.ipv4_octets@, port: self.port }
    }
}

/// One octet of a dotted-decimal address: one to three digits, no leading
/// zero before another digit, worth at most 255.
pub open spec fn spec_parse_octet(s: Seq<char>) -> Option<u8> {
    if is_canonical_decimal(s) && s.len() <= 3 && decimal_value(s) <= 255 {
        Some(decimal_value(s) as u8)
    } else {
        None
    }
}

/// A port: an optional `+`, then one or more digits worth at most 65535.
pub open spec fn spec_parse_port(s: Seq<char>) -> Option<u16> {
    match spec_parse_unsigned(s, 65535) {
        Some(v) => Some(v as u16),
        None => None,
    }
}

/// A dotted-decimal IPv4 address: exactly four octets with `.` between them.
pub open spec fn spec_parse_ipv4(s: Seq<char>) -> Option<Seq<u8>> {
    match spec_split_first(s, '.') {
        None => None,
        Some((a, rest1)) => match spec_split_first(rest1, '.') {
            None => None,
            Some((b, rest2)) => match spec_split_first(rest2, '.') {
                None => None,
                Some((c, d)) => match (
                    spec_parse_octet(a),
                    spec_parse_octet(b),
                    spec_parse_octet(c),
                    spec_parse_octet(d),
                ) {
                    (Some(o0), Some(o1), Some(o2), Some(o3)) => Some(seq![o0, o1, o2, o3]),
                    _ => None,
                },
            },
        },
    }
}

/// The address that `s` writes: `s` is split at its last `:`, what stands
/// before must be an IPv4 address and what stands after a port.
pub open spec fn spec_parse_address(s: Seq<char>) -> Result<AddressView, AddressParseError> {
    match spec_split_last(s, ':') {
        None => Err(AddressParseError::MissingPort),
        Some((ip, port)) => match spec_parse_ipv4(ip) {
            None => Err(AddressParseError::InvalidIp),
            Some(octets) => match spec_parse_port(port) {
                None => Err(AddressParseError::InvalidPort),
                Some(port) => Ok(AddressView { octets, port }),
            },
        },
    }
}

/// The four octets in dotted-decimal notation.
pub open spec fn spec_format_ipv4(octets: Seq<u8>) -> Seq<char>
    recommends
        octets.len() == 4,
{
    decimal_digits(octets[0] as nat) + seq!['.'] + (decimal_digits(octets[1] as nat) + seq!['.'] + (
    decimal_digits(octets[2] as nat) + seq!['.'] + decimal_digits(octets[3] as nat)))
}

/// The canonical text of an address: dotted-decimal octets, `:`, the port,
/// each number in its shortest form.
pub open spec fn spec_format_address(a: AddressView) -> Seq<char>
    recommends
        a.octets.len() == 4,
{
    spec_format_ipv4(a.octets) + seq![':'] + decimal_digits(a.port as nat)
}

/// True when `s` writes its port in the shortest form: no sign, no leading
/// zero. (Octets admit no other form.)
pub open spec fn is_canonical_address(s: Seq<char>) -> bool {
    match spec_split_last(s, ':') {
        None => false,
        Some((_, port)) => is_canonical_decimal(port),
    }
}

fn split_first<'a>(s: &'a [char], c: char) -> (r: Option<(&'a [char], &'a [char])>)
    ensures
        match r {
            Some((a, b)) => spec_split_first(s@, c) == Some((a@, b@)),
            None => spec_split_first(s@, c) is None,
        },
{
    let i = find_first(s, c);
    if i < s.len() {
        let a = slice_subrange(s, 0, i);
        let b = slice_subrange(s, i + 1, s.len());
        assert(a@ =~= s@.take(i as int));
        assert(b@ =~= s@.skip(i + 1));
        Some((a, b))
    } else {
        None
    }
}

fn parse_octet(s: &[char]) -> (r: Option<u8>)
    ensures
        r == spec_parse_octet(s@),
{
    if s.len() > 3 || (s.len() > 1 && s[0] == '0') {
        return None;
    }
    match parse_decimal(s, 255) {
        Some(v) => Some(v as u8),
        None => None,
    }
}

fn parse_port(s: &[char]) -> (r: Option<u16>)
    ensures
        r == spec_parse_port(s@),
{
    match parse_unsigned(s, 65535) {
        Some(v) => Some(v as u16),
        None => None,
    }
}

fn parse_ipv4(s: &[char]) -> (r: Option<[u8; 4]>)
    ensures
        match r {
            Some(octets) => spec_parse_ipv4(s@) == Some(octets@),
            None => spec_parse_ipv4(s@) is None,
        },
{
    let (a, rest1) = match split_first(s, '.') {
        Some(p) => p,
        None => return None,
    };
    let (b, rest2) = match split_first(rest1, '.') {
        Some(p) => p,
        None => return None,
    };
    let (c, d) = match split_first(rest2, '.') {
        Some(p) => p,
        None => return None,
    };
    let o0 = match parse_octet(a) {
        Some(o) => o,
        None => return None,
    };
    let o1 = match parse_octet(b) {
        Some(o) => o,
        None => return None,
    };
    let o2 = match parse_octet(c) {
        Some(o) => o,
        None => return None,
    };
    let o3 = match parse_octet(d) {
        Some(o) => o,
        None => return None,
    };
    let octets: [u8; 4] = [o0, o1, o2, o3];
    assert(octets@ =~= seq![o0, o1, o2, o3]);
    Some(octets)
}

impl AddressSpec {
    /// Reads an `ip:port` text. The text is split at its last `:`; the left
    /// side must be four dot-separated octets, the right side a decimal port.
    /// A text in canonical form is the one that `format` writes for the
    /// address read.
    pub fn parse(text: &str) -> (r: Result<AddressSpec, AddressParseError>)
        ensures
            match r {
                Ok(a) => spec_parse_address(text@) == Ok::<AddressView, AddressParseError>(a@),
                Err(e) => spec_parse_address(text@) == Err::<AddressView, AddressParseError>(e),
            },
            is_canonical_address(text@) ==> (r matches Ok(a) ==> spec_format_address(a@) == text@),
    {
        proof {
            if is_canonical_address(text@) {
                lemma_format_parse(text@);
            }
        }
        let chars = chars_of(text);
        let s = chars.as_slice();
        let i = match find_last(s, ':') {
            Some(i) => i,
            None => return Err(AddressParseError::MissingPort),
        };
        let left = slice_subrange(s, 0, i);
        let right = slice_subrange(s, i + 1, s.len());
        assert(left@ =~= text@.take(i as int));
        assert(right@ =~= text@.skip(i + 1));
        let ipv4_octets = match parse_ipv4(left) {
            Some(o) => o,
            None => return Err(AddressParseError::InvalidIp),
        };
        let port = match parse_port(right) {
            Some(p) => p,
            None => return Err(AddressParseError::InvalidPort),
        };
        Ok(AddressSpec { ipv4_octets, port })
    }

    /// The canonical text of the address: the text that `parse` reads back
    /// as this address.
    pub fn format(&self) -> (s: String)
        ensures
            s@ == spec_format_address(self@),
            is_canonical_address(s@),
            spec_parse_address(s@) == Ok::<AddressView, AddressParseError>(self@),
    {
        proof {
            lemma_parse_format(self@);
            reveal_strlit(".");
            reveal_strlit(":");
        }
        let mut s = String::new();
        append_decimal(&mut s, self.ipv4_octets[0] as u128);
        s.append(".");
        append_decimal(&mut s, self.ipv4_octets[1] as u128);
        s.append(".");
        append_decimal(&mut s, self.ipv4_octets[2] as u128);
        s.append(".");
        append_decimal(&mut s, self.ipv4_octets[3] as u128);
        s.append(":");
        append_decimal(&mut s, self.port as u128);
        assert("."@ =~= seq!['.']);
        assert(":"@ =~= seq![':']);
        assert(s@ =~= spec_format_address(self@));
        s
    }
}

/// Reading the canonical text of an address gives that address back.
pub proof fn lemma_parse_format(a: AddressView)
    requires
        a.octets.len() == 4,
    ensures
        spec_parse_address(spec_format_address(a)) == Ok::<AddressView, AddressParseError>(a),
        is_canonical_address(spec_format_address(a)),
{
    let d0 = decimal_digits(a.octets[0] as nat);
    let d1 = decimal_digits(a.octets[1] as nat);
    let d2 = decimal_digits(a.octets[2] as nat);
    let d3 = decimal_digits(a.octets[3] as nat);
    let dp = decimal_digits(a.port as nat);
    lemma_numeral_of(a.octets[0] as nat);
    lemma_numeral_of(a.octets[1] as nat);
    lemma_numeral_of(a.octets[2] as nat);
    lemma_numeral_of(a.octets[3] as nat);
    lemma_numeral_of(a.port as nat);
    let rest2 = d2 + seq!['.'] + d3;
    let rest1 = d1 + seq!['.'] + rest2;
    let ip = d0 + seq!['.'] + rest1;
    lemma_split_last_concat(ip, ':', dp);
    lemma_split_first_concat(d0, '.', rest1);
    lemma_split_first_concat(d1, '.', rest2);
    lemma_split_first_concat(d2, '.', d3);
    assert(dp[0] != '+');
    assert(spec_parse_port(dp) == Some(a.port));
    assert(spec_parse_octet(d0) == Some(a.octets[0]));
    assert(spec_parse_octet(d1) == Some(a.octets[1]));
    assert(spec_parse_octet(d2) == Some(a.octets[2]));
    assert(spec_parse_octet(d3) == Some(a.octets[3]));
    assert(seq![a.octets[0], a.octets[1], a.octets[2], a.octets[3]] =~= a.octets);
    assert(spec_parse_ipv4(ip) == Some(a.octets));
}

/// The numeral written for a number is canonical, is worth that number, has
/// at most three digits below a thousand, and holds neither `.`, `:` nor `+`.
proof fn lemma_numeral_of(n: nat)
    ensures
        is_canonical_decimal(decimal_digits(n)),
        decimal_value(decimal_digits(n)) == n,
        n < 1000 ==> decimal_digits(n).len() <= 3,
        forall|i: int|
            0 <= i < decimal_digits(n).len() ==> {
                let c = #[trigger] decimal_digits(n)[i];
                c != '.' && c != ':' && c != '+'
            },
{
    lemma_decimal_digits(n);
    lemma_decimal_digits_len(n);
    let s = decimal_digits(n);
    assert forall|i: int| 0 <= i < s.len() implies {
        let c = #[trigger] s[i];
        c != '.' && c != ':' && c != '+'
    } by {
        assert(crate::text::is_digit(s[i]));
    }
}

/// A text that parses and writes its port in the shortest form is the
/// canonical text of the address it parses to.
pub proof fn lemma_format_parse(s: Seq<char>)
    requires
        is_canonical_address(s),
    ensures
        match spec_parse_address(s) {
            Ok(a) => spec_format_address(a) == s,
            Err(_) => true,
        },
{
    if let Ok(addr) = spec_parse_address(s) {
        lemma_split_last_joins(s, ':');
        let (ip, port) = spec_split_last(s, ':').unwrap();
        lemma_split_first_joins(ip, '.');
        let (a, rest1) = spec_split_first(ip, '.').unwrap();
        lemma_split_first_joins(rest1, '.');
        let (b, rest2) = spec_split_first(rest1, '.').unwrap();
        lemma_split_first_joins(rest2, '.');
        let (c, d) = spec_split_first(rest2, '.').unwrap();
        lemma_canonical_is_digits(a);
        lemma_canonical_is_digits(b);
        lemma_canonical_is_digits(c);
        lemma_canonical_is_digits(d);
        lemma_canonical_is_digits(port);
        assert(crate::text::is_digit(port[0]));
        assert(spec_format_ipv4(addr.octets) == ip);
    }
}

} // verus!
