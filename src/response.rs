use vstd::prelude::*;

use crate::address::Ipv4Address;
use crate::packet::{kind_of, IcmpKind, Reply};
use crate::request::PingRequest;

verus! {

/// The outcome of one probe: the probe itself, the round-trip time in
/// microseconds when an echo reply came back, and the address that answered
/// (the probe's own destination when nothing answered).
#[derive(Clone, Copy, Debug, PartialEq, Eq, Structural)]
pub struct PingResponse {
    pub request: PingRequest,
    pub rtt: Option<u64>,
    pub address: Ipv4Address,
}

/// What a probe yields for what arrived while it waited. An echo reply carries
/// its round-trip time; any other message (destination unreachable, time
/// exceeded, ...) carries none; when nothing arrived the answering address is
/// the probe's destination.
pub open spec fn response_of(request: PingRequest, reply: Option<Reply>) -> PingResponse {
    match reply {
        None => PingResponse { request, rtt: None, address: request.address },
        Some(m) => PingResponse {
            request,
            rtt: if kind_of(m.message@) == IcmpKind::EchoReply {
                Some(m.elapsed)
            } else {
                None
            },
            address: m.from,
        },
    }
}

/// A probe that got no reply before its timeout neither succeeds nor carries
/// a round-trip time.
pub proof fn lemma_timeout_fails(request: PingRequest)
    ensures
        !response_of(request, None).succeeded(),
        response_of(request, None).rtt is None,
{
}

/// A probe answered from an address other than its destination does not
/// succeed, whether or not a round-trip time was measured.
pub proof fn lemma_foreign_reply_fails(request: PingRequest, reply: Reply)
    requires
        reply.from != request.address,
    ensures
        !response_of(request, Some(reply)).succeeded(),
{
}

impl PingResponse {
    /// A probe succeeded when a round-trip time was measured and the answer
    /// came from the probe's destination.
    pub open spec fn succeeded(&self) -> bool {
        self.rtt.is_some() && self.address == self.request.address
    }

    pub fn new(request: PingRequest, from: Ipv4Address, rtt: Option<u64>) -> (r: PingResponse)
        ensures
            r == (PingResponse { request, rtt, address: from }),
    {
        PingResponse { request, rtt, address: from }
    }

    pub fn request_addr(&self) -> (r: Ipv4Address)
        ensures
            r == self.request.address,
    {
        self.request.address
    }

    pub fn response_addr(&self) -> (r: Ipv4Address)
        ensures
            r == self.address,
    {
        self.address
    }

    pub fn is_success(&self) -> (r: bool)
        ensures
            r == self.succeeded(),
            self.rtt.is_none() ==> !r,
            self.address != self.request.address ==> !r,
    {
        self.rtt.is_some() && self.address == self.request.address
    }

    pub fn rtt(&self) -> (r: Option<u64>)
        ensures
            r == self.rtt,
    {
        self.rtt
    }

    pub fn round_trip_time(&self) -> (r: Option<u64>)
        ensures
            r == self.rtt,
    {
        self.rtt
    }

    pub fn sequence_number(&self) -> (r: u64)
        ensures
            r == self.request.sequence_number,
    {
        self.request.sequence_number
    }

    pub fn ttl(&self) -> (r: u64)
        ensures
            r == self.request.ttl,
    {
        self.request.ttl
    }

    pub fn id(&self) -> (r: u32)
        ensures
            r == self.request.id,
    {
        self.request.id
    }

    pub fn timeout(&self) -> (r: u64)
        ensures
            r == self.request.timeout,
    {
        self.request.timeout
    }
}

} // verus!
