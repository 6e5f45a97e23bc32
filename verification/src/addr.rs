//! IPv4 addresses and socket addresses as plain values.

use crate::text::{decimal, decimal_text};
use vstd::prelude::*;
use vstd::string::*;

verus! {

/// An IPv4 address, octet by octet in network order.
#[derive(Clone, Copy, Debug, PartialEq, Eq, Structural)]
pub struct Ipv4 {
    pub a: u8,
    pub b: u8,
    pub c: u8,
    pub d: u8,
}

/// An IPv4 address with a port.
#[derive(Clone, Copy, Debug, PartialEq, Eq, Structural)]
pub struct SockAddr {
    pub ip: Ipv4,
    pub port: u16,
}

/// The address every listener binds to, `127.0.0.2`.
pub open spec fn spec_listen_ip() -> Ipv4 {
    Ipv4 { a: 127, b: 0, c: 0, d: 2 }
}

/// The address every listener binds to, `127.0.0.2`.
#[verifier::when_used_as_spec(spec_listen_ip)]
pub fn listen_ip() -> (ip: Ipv4)
    ensures
        ip == spec_listen_ip(),
{
    Ipv4 { a: 127, b: 0, c: 0, d: 2 }
}

impl Ipv4 {
    /// The all-zero address, which names no host.
    pub open spec fn spec_unspecified() -> Ipv4 {
        Ipv4 { a: 0, b: 0, c: 0, d: 0 }
    }

    /// Dotted-quad text: four decimal numerals joined by dots.
    pub open spec fn text(self) -> Seq<char> {
        decimal(self.a as nat) + seq!['.'] + decimal(self.b as nat) + seq!['.'] + decimal(
            self.c as nat,
        ) + seq!['.'] + decimal(self.d as nat)
    }

    pub fn new(a: u8, b: u8, c: u8, d: u8) -> (ip: Ipv4)
        ensures
            ip == (Ipv4 { a, b, c, d }),
    {
        Ipv4 { a, b, c, d }
    }

    pub fn from_octets(octets: [u8; 4]) -> (ip: Ipv4)
        ensures
            ip == (Ipv4 { a: octets[0], b: octets[1], c: octets[2], d: octets[3] }),
    {
        Ipv4 { a: octets[0], b: octets[1], c: octets[2], d: octets[3] }
    }

    pub fn octets(&self) -> (octets: [u8; 4])
        ensures
            octets@ == seq![self.a, self.b, self.c, self.d],
    {
        [self.a, self.b, self.c, self.d]
    }

    /// Whether this is `0.0.0.0`.
    pub fn is_unspecified(&self) -> (unspecified: bool)
        ensures
            unspecified == (*self == Ipv4::spec_unspecified()),
    {
        self.a == 0 && self.b == 0 && self.c == 0 && self.d == 0
    }

    /// Writes the address as dotted-quad text.
    pub fn to_text(&self) -> (text: String)
        ensures
            text@ == self.text(),
    {
        proof {
            reveal_strlit(".");
        }
        let mut text = decimal_text(self.a as u16);
        text.append(".");
        text.append(decimal_text(self.b as u16).as_str());
        text.append(".");
        text.append(decimal_text(self.c as u16).as_str());
        text.append(".");
        text.append(decimal_text(self.d as u16).as_str());
        text
    }
}

impl SockAddr {
    /// `ip:port` text.
    pub open spec fn text(self) -> Seq<char> {
        self.ip.text() + seq![':'] + decimal(self.port as nat)
    }

    pub fn new(ip: Ipv4, port: u16) -> (addr: SockAddr)
        ensures
            addr == (SockAddr { ip, port }),
    {
        SockAddr { ip, port }
    }

    /// Writes the address as `ip:port`.
    pub fn to_text(&self) -> (text: String)
        ensures
            text@ == self.text(),
    {
        proof {
            reveal_strlit(":");
        }
        let mut text = self.ip.to_text();
        text.append(":");
        text.append(decimal_text(self.port).as_str());
        text
    }
}

} // verus!
