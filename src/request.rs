use vstd::prelude::*;

use crate::address::Ipv4Address;
use crate::packet::{echo_request_message, echo_request_packet, Reply};
use crate::response::{response_of, PingResponse};

verus! {

/// Microseconds a probe waits for its reply unless told otherwise.
pub const DEFAULT_TIMEOUT: u64 = 1_000_000;

/// Time-to-live of a probe unless told otherwise.
pub const DEFAULT_TTL: u64 = 64;

/// One outgoing echo request: where it goes, how long it waits for a reply
/// (microseconds), its time-to-live, identifier and sequence number.
#[derive(Clone, Copy, Debug, PartialEq, Eq, Structural)]
pub struct PingRequest {
    pub address: Ipv4Address,
    pub timeout: u64,
    pub ttl: u64,
    pub id: u32,
    pub sequence_number: u64,
}

/// The low 16 bits of a value, as they travel in an ICMP header field.
pub open spec fn low16(x: u64) -> u16 {
    (x % 65536) as u16
}

impl PingRequest {
    /// A probe of 127.0.0.1 with the default timeout and time-to-live,
    /// sequence number 1 and the given identifier.
    pub fn new(id: u32) -> (r: PingRequest)
        ensures
            r == (PingRequest {
                address: Ipv4Address { a: 127, b: 0, c: 0, d: 1 },
                timeout: DEFAULT_TIMEOUT,
                ttl: DEFAULT_TTL,
                id,
                sequence_number: 1,
            }),
    {
        PingRequest {
            address: Ipv4Address::localhost(),
            timeout: DEFAULT_TIMEOUT,
            ttl: DEFAULT_TTL,
            id,
            sequence_number: 1,
        }
    }

    /// Sets the timeout in microseconds; zero leaves the timeout as it was.
    pub fn with_timeout(self, t: u64) -> (r: PingRequest)
        ensures
            r == (if t > 0 { PingRequest { timeout: t, ..self } } else { self }),
    {
        let mut s = self;
        if t > 0 {
            s.timeout = t;
        }
        s
    }

    pub fn timeout(&self) -> (r: u64)
        ensures
            r == self.timeout,
    {
        self.timeout
    }

    /// Sets the time-to-live; zero leaves it as it was.
    pub fn with_ttl(self, t: u64) -> (r: PingRequest)
        ensures
            r == (if t > 0 { PingRequest { ttl: t, ..self } } else { self }),
    {
        let mut s = self;
        if t > 0 {
            s.ttl = t;
        }
        s
    }

    pub fn ttl(&self) -> (r: u64)
        ensures
            r == self.ttl,
    {
        self.ttl
    }

    pub fn with_sequence_number(self, n: u64) -> (r: PingRequest)
        ensures
            r == (PingRequest { sequence_number: n, ..self }),
    {
        let mut s = self;
        s.sequence_number = n;
        s
    }

    pub fn sequence_number(&self) -> (r: u64)
        ensures
            r == self.sequence_number,
    {
        self.sequence_number
    }

    pub fn with_address(self, a: Ipv4Address) -> (r: PingRequest)
        ensures
            r == (PingRequest { address: a, ..self }),
    {
        let mut s = self;
        s.address = a;
        s
    }

    pub fn address(&self) -> (r: Ipv4Address)
        ensures
            r == self.address,
    {
        self.address
    }

    pub fn with_id(self, id: u32) -> (r: PingRequest)
        ensures
            r == (PingRequest { id, ..self }),
    {
        let mut s = self;
        s.id = id;
        s
    }

    pub fn id(&self) -> (r: u32)
        ensures
            r == self.id,
    {
        self.id
    }

    /// The echo request message that this probe sends: identifier and
    /// sequence number travel as their low 16 bits.
    pub fn echo_request(&self) -> (r: Vec<u8>)
        ensures
            r@ == echo_request_message(low16(self.id as u64), low16(self.sequence_number)),
    {
        echo_request_packet((self.id % 65536) as u16, (self.sequence_number % 65536) as u16)
    }

    /// The result of this probe, from what arrived while it waited: `None`
    /// when nothing arrived before the timeout.
    pub fn response(self, reply: Option<Reply>) -> (r: PingResponse)
        ensures
            r == response_of(self, reply),
    {
        match reply {
            None => PingResponse::new(self, self.address, None),
            Some(m) => {
                let rtt = match crate::packet::reply_kind(&m.message) {
                    crate::packet::IcmpKind::EchoReply => Some(m.elapsed),
                    _ => None,
                };
                PingResponse::new(self, m.from, rtt)
            },
        }
    }
}

} // verus!
