//! The listen endpoint: an IPv4 address and port held as plain values, with
//! the arithmetic the socket layer needs. Only IPv4 is supported; an IPv6
//! endpoint is a configuration error, not a crash.

use vstd::prelude::*;
use crate::server::ServerError;

verus! {

/// An IPv4 listen endpoint: the four address octets and the port, in host
/// order.
#[derive(Clone, Copy, PartialEq, Eq, Structural, Debug)]
pub struct Ipv4Endpoint {
    pub a: u8,
    pub b: u8,
    pub c: u8,
    pub d: u8,
    pub port: u16,
}

impl Ipv4Endpoint {
    /// The address as one host-order 32-bit value, `a` the most significant
    /// octet.
    pub open spec fn addr_value(self) -> int {
        self.a * 0x1000000 + self.b * 0x10000 + self.c * 0x100 + self.d
    }

    pub fn new(a: u8, b: u8, c: u8, d: u8, port: u16) -> (r: Ipv4Endpoint)
        ensures
            r == (Ipv4Endpoint { a, b, c, d, port }),
    {
        Ipv4Endpoint { a, b, c, d, port }
    }

    /// The address as a host-order `u32`, ready for a byte-order swap at the
    /// socket boundary.
    pub fn addr_u32(&self) -> (r: u32)
        ensures
            r as int == self.addr_value(),
    {
        (self.a as u32) * 0x1000000 + (self.b as u32) * 0x10000 + (self.c as u32) * 0x100
            + (self.d as u32)
    }
}

/// The fixed endpoint this server has always listened on.
pub fn default_endpoint() -> (r: Ipv4Endpoint)
    ensures
        r == (Ipv4Endpoint { a: 127u8, b: 0u8, c: 0u8, d: 1u8, port: 8080u16 }),
{
    Ipv4Endpoint { a: 127, b: 0, c: 0, d: 1, port: 8080 }
}

/// Admits an endpoint only if it is IPv4: the caller hands `Some` for an
/// IPv4 address and `None` for anything else, and anything else is refused
/// as `UnsupportedAddressFamily`.
pub fn require_ipv4(ep: Option<Ipv4Endpoint>) -> (r: Result<Ipv4Endpoint, ServerError>)
    ensures
        ep matches Some(e) ==> r == Ok::<Ipv4Endpoint, ServerError>(e),
        ep is None ==> r == Err::<Ipv4Endpoint, ServerError>(ServerError::UnsupportedAddressFamily),
{
    match ep {
        Some(e) => Ok(e),
        None => Err(ServerError::UnsupportedAddressFamily),
    }
}

} // verus!
