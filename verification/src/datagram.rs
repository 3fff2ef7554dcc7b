//! The datagram model: a byte payload with provenance and destination
//! metadata, and the socket address type the relay routes by.

use vstd::prelude::*;

verus! {

/// The largest payload one datagram may carry (the link's transfer size).
pub const BUFFER_SIZE: usize = 1500;

/// A socket address: an IPv4 host and a UDP port, held as plain values.
#[derive(Clone, Copy, PartialEq, Eq, Structural, Debug)]
pub struct Addr {
    pub ip: u32,
    pub port: u16,
}

/// One UDP datagram together with its routing metadata.
///
/// A datagram freshly produced by a receive loop has `origin` set to the
/// sender and `destination` unset; the router resolves `destination`
/// before the datagram may be handed to a send loop.
#[verifier::ext_equal]
#[derive(Clone, Debug)]
pub struct Datagram {
    pub payload: Vec<u8>,
    pub origin: Addr,
    pub destination: Option<Addr>,
}

impl Datagram {
    /// The payload never exceeds the link's transfer size.
    pub open spec fn wf(self) -> bool {
        self.payload@.len() <= BUFFER_SIZE
    }

    /// Builds the datagram a receive loop publishes: origin set to the
    /// sender, destination still unresolved.
    pub fn from_receive(payload: Vec<u8>, origin: Addr) -> (d: Datagram)
        requires
            payload@.len() <= BUFFER_SIZE,
        ensures
            d.wf(),
            d == (Datagram { payload, origin, destination: None }),
            d.payload@ == payload@,
            d.origin == origin,
            d.destination is None,
    {
        Datagram { payload, origin, destination: None }
    }

    /// Resolves where the datagram must be sent; payload and origin are kept.
    pub fn set_destination(self, destination: Addr) -> (d: Datagram)
        ensures
            d == (Datagram { destination: Some(destination), ..self }),
            d.payload@ == self.payload@,
            d.origin == self.origin,
            d.destination == Some(destination),
            self.wf() ==> d.wf(),
    {
        Datagram { destination: Some(destination), ..self }
    }
}

} // verus!
