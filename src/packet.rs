use vstd::prelude::*;

use crate::address::Ipv4Address;

verus! {

/// ICMP type of an echo reply.
pub const ECHO_REPLY: u8 = 0;

/// ICMP type of a destination-unreachable notice.
pub const DESTINATION_UNREACHABLE: u8 = 3;

/// ICMP type of an echo request.
pub const ECHO_REQUEST: u8 = 8;

/// ICMP type of a time-exceeded notice.
pub const TIME_EXCEEDED: u8 = 11;

/// Length in bytes of an outgoing echo request, header included.
pub const ECHO_REQUEST_LEN: usize = 64;

/// Byte that fills the payload of an outgoing echo request.
pub const PAYLOAD_FILL: u8 = 3;

/// The Internet checksum of an ICMP message, computed over every 16-bit word
/// but the checksum field itself.
pub uninterp spec fn icmp_checksum_of(message: Seq<u8>) -> u16;

/// Relies on `pnet::packet::icmp::checksum`, which returns the ICMP checksum of
/// the message bytes; `IcmpPacket::new` only views the bytes (it needs at least
/// the four header bytes). The sum of the message's 16-bit words is kept in
/// a `u32`, so the message stays within 65535 bytes.
#[verifier::external_body]
fn icmp_checksum(message: &Vec<u8>) -> (r: u16)
    requires
        4 <= message@.len() <= 65535,
    ensures
        r == icmp_checksum_of(message@),
{
    match pnet::packet::icmp::IcmpPacket::new(message.as_slice()) {
        Some(p) => pnet::packet::icmp::checksum(&p),
        None => 0,
    }
}

pub open spec fn high_byte(x: u16) -> u8 {
    (x / 256) as u8
}

pub open spec fn low_byte(x: u16) -> u8 {
    (x % 256) as u8
}

/// An echo request before its checksum is filled in: type, code 0, a zero
/// checksum field, identifier and sequence number in network byte order, then
/// the payload.
pub open spec fn echo_request_unsummed(id: u16, seq: u16) -> Seq<u8> {
    Seq::new(
        ECHO_REQUEST_LEN as nat,
        |i: int|
            if i == 0 {
                ECHO_REQUEST
            } else if i == 1 || i == 2 || i == 3 {
                0u8
            } else if i == 4 {
                high_byte(id)
            } else if i == 5 {
                low_byte(id)
            } else if i == 6 {
                high_byte(seq)
            } else if i == 7 {
                low_byte(seq)
            } else {
                PAYLOAD_FILL
            },
    )
}

/// The complete echo request message, with its checksum in bytes 2 and 3.
pub open spec fn echo_request_message(id: u16, seq: u16) -> Seq<u8> {
    let m = echo_request_unsummed(id, seq);
    let cs = icmp_checksum_of(m);
    m.update(2, high_byte(cs)).update(3, low_byte(cs))
}

/// Builds the ICMP echo request message with the given identifier and
/// sequence number.
pub fn echo_request_packet(id: u16, seq: u16) -> (r: Vec<u8>)
    ensures
        r@ == echo_request_message(id, seq),
{
    let mut m: Vec<u8> = vec![
        ECHO_REQUEST,
        0u8,
        0u8,
        0u8,
        (id / 256) as u8,
        (id % 256) as u8,
        (seq / 256) as u8,
        (seq % 256) as u8,
    ];
    while m.len() < ECHO_REQUEST_LEN
        invariant
            8 <= m@.len() <= ECHO_REQUEST_LEN,
            forall|i: int| 0 <= i < m@.len() ==> m@[i] == echo_request_unsummed(id, seq)[i],
        decreases ECHO_REQUEST_LEN - m@.len(),
    {
        m.push(PAYLOAD_FILL);
    }
    assert(m@ =~= echo_request_unsummed(id, seq));
    let cs = icmp_checksum(&m);
    m.set(2, (cs / 256) as u8);
    m.set(3, (cs % 256) as u8);
    m
}

/// How a received ICMP message is read.
#[derive(Clone, Copy, Debug, PartialEq, Eq, Structural)]
pub enum IcmpKind {
    EchoReply,
    DestinationUnreachable,
    TimeExceeded,
    Other,
}

/// The kind of a received message, from its type byte (the first one).
pub open spec fn kind_of(message: Seq<u8>) -> IcmpKind {
    if message.len() == 0 {
        IcmpKind::Other
    } else if message[0] == ECHO_REPLY {
        IcmpKind::EchoReply
    } else if message[0] == DESTINATION_UNREACHABLE {
        IcmpKind::DestinationUnreachable
    } else if message[0] == TIME_EXCEEDED {
        IcmpKind::TimeExceeded
    } else {
        IcmpKind::Other
    }
}

/// Reads the ICMP type of a received message.
pub fn reply_kind(message: &Vec<u8>) -> (r: IcmpKind)
    ensures
        r == kind_of(message@),
{
    if message.len() == 0 {
        IcmpKind::Other
    } else if message[0] == ECHO_REPLY {
        IcmpKind::EchoReply
    } else if message[0] == DESTINATION_UNREACHABLE {
        IcmpKind::DestinationUnreachable
    } else if message[0] == TIME_EXCEEDED {
        IcmpKind::TimeExceeded
    } else {
        IcmpKind::Other
    }
}

/// A message that arrived while a probe waited: its ICMP bytes, the address
/// it came from, and the microseconds from transmission to arrival.
#[derive(Clone, Debug)]
pub struct Reply {
    pub message: Vec<u8>,
    pub from: Ipv4Address,
    pub elapsed: u64,
}

} // verus!
