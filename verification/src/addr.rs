//! The peer address of a connection, held as plain values.
//!
//! The engine only ever reads three things of an address: whether it is a
//! loopback address, its port, and a textual rendering of the host part.
//! An IPv4 address is held as its four octets and rendered here; an IPv6
//! address keeps the rendering the embedding program made of it.

use vstd::prelude::*;
use crate::text::{dec_str, spec_dec_chars, str_eq};

verus! {

/// The address of the peer of a connection.
#[derive(Debug)]
pub enum PeerAddr {
    /// An IPv4 peer: four octets and a port.
    V4 { a: u8, b: u8, c: u8, d: u8, port: u16 },
    /// An IPv6 peer: the host part as the embedding program rendered it,
    /// whether it is the loopback address, and the port.
    V6 { ip: String, loopback: bool, port: u16 },
}

/// The formatted form of an address: loopback addresses read
/// `localhost:port`, others `host:port`.
pub open spec fn spec_format_addr(addr: PeerAddr) -> Seq<char> {
    match addr {
        PeerAddr::V4 { a, b, c, d, port } => {
            if a == 127 {
                "localhost:"@ + spec_dec_chars(port as nat)
            } else {
                spec_dec_chars(a as nat) + "."@ + spec_dec_chars(b as nat) + "."@ + spec_dec_chars(
                    c as nat,
                ) + "."@ + spec_dec_chars(d as nat) + ":"@ + spec_dec_chars(port as nat)
            }
        },
        PeerAddr::V6 { ip, loopback, port } => {
            if loopback {
                "localhost:"@ + spec_dec_chars(port as nat)
            } else {
                ip@ + ":"@ + spec_dec_chars(port as nat)
            }
        },
    }
}

/// Formats a peer address into something usable as a link target.
pub fn format_addr(addr: &PeerAddr) -> (r: String)
    ensures
        r@ == spec_format_addr(*addr),
{
    match addr {
        PeerAddr::V4 { a, b, c, d, port } => {
            if *a == 127 {
                let mut s = "localhost:".to_owned();
                s.append(dec_str(*port as usize).as_str());
                s
            } else {
                let mut s = dec_str(*a as usize);
                s.append(".");
                s.append(dec_str(*b as usize).as_str());
                s.append(".");
                s.append(dec_str(*c as usize).as_str());
                s.append(".");
                s.append(dec_str(*d as usize).as_str());
                s.append(":");
                s.append(dec_str(*port as usize).as_str());
                s
            }
        },
        PeerAddr::V6 { ip, loopback, port } => {
            if *loopback {
                let mut s = "localhost:".to_owned();
                s.append(dec_str(*port as usize).as_str());
                s
            } else {
                let mut s = ip.clone();
                s.append(":");
                s.append(dec_str(*port as usize).as_str());
                s
            }
        },
    }
}

impl Clone for PeerAddr {
    fn clone(&self) -> (r: PeerAddr)
        ensures
            r == *self,
    {
        match self {
            PeerAddr::V4 { a, b, c, d, port } => PeerAddr::V4 {
                a: *a,
                b: *b,
                c: *c,
                d: *d,
                port: *port,
            },
            PeerAddr::V6 { ip, loopback, port } => PeerAddr::V6 {
                ip: ip.clone(),
                loopback: *loopback,
                port: *port,
            },
        }
    }
}

impl PartialEq for PeerAddr {
    fn eq(&self, other: &PeerAddr) -> (r: bool) {
        let r = match self {
            PeerAddr::V4 { a, b, c, d, port } => match other {
                PeerAddr::V4 { a: a2, b: b2, c: c2, d: d2, port: port2 } => *a == *a2 && *b == *b2
                    && *c == *c2 && *d == *d2 && *port == *port2,
                _ => false,
            },
            PeerAddr::V6 { ip, loopback, port } => match other {
                PeerAddr::V6 { ip: ip2, loopback: loopback2, port: port2 } => str_eq(
                    ip.as_str(),
                    ip2.as_str(),
                ) && *loopback == *loopback2 && *port == *port2,
                _ => false,
            },
        };
        r
    }
}

/// Whether two peer addresses are the same address: equal octets and
/// port, or an equally rendered host, loopback flag and port.
pub open spec fn spec_addr_eq(x: PeerAddr, y: PeerAddr) -> bool {
    match x {
        PeerAddr::V4 { a, b, c, d, port } => match y {
            PeerAddr::V4 { a: a2, b: b2, c: c2, d: d2, port: port2 } => a == a2 && b == b2
                && c == c2 && d == d2 && port == port2,
            _ => false,
        },
        PeerAddr::V6 { ip, loopback, port } => match y {
            PeerAddr::V6 { ip: ip2, loopback: loopback2, port: port2 } => ip@ == ip2@
                && loopback == loopback2 && port == port2,
            _ => false,
        },
    }
}

impl vstd::std_specs::cmp::PartialEqSpecImpl for PeerAddr {
    open spec fn obeys_eq_spec() -> bool {
        true
    }

    open spec fn eq_spec(&self, other: &PeerAddr) -> bool {
        spec_addr_eq(*self, *other)
    }
}

} // verus!
