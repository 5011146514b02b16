//! The ICMP packet codec: building echo-request datagrams on the wire format
//! (type 8, code 0, one's-complement checksum, 16-bit identifier and sequence
//! fields, an 8-byte zero payload), and classifying received datagrams as
//! echo reply, time exceeded, or other.

use vstd::prelude::*;
use crate::checksum::{checksum, checksum_of, word_at, lemma_checksum_fits,
    lemma_checksum_ignores_skipped_word};

verus! {

/// ICMP type byte of an echo reply.
pub const ICMP_ECHO_REPLY: u8 = 0;

/// ICMP type byte of an echo request.
pub const ICMP_ECHO_REQUEST: u8 = 8;

/// ICMP type byte of a time-exceeded message.
pub const ICMP_TIME_EXCEEDED: u8 = 11;

/// Length in bytes of an encoded echo request: an 8-byte ICMP header followed
/// by an 8-byte zero payload.
pub const ECHO_REQUEST_LEN: usize = 16;

/// Index of the 16-bit checksum field, counted in words.
pub const CHECKSUM_WORD: usize = 1;

/// What a received datagram means to the prober: a reply to some echo request
/// (carrying that request's identifier), a router's time-exceeded notice, or
/// anything else.
#[derive(Clone, Copy, Debug, PartialEq, Eq)]
pub enum IcmpKind {
    EchoReply { identifier: u16 },
    TimeExceeded,
    Other,
}

/// A classified incoming datagram: its kind together with the address it came
/// from. The source address is reported by the transport, not parsed from the
/// bytes; addresses are IPv4, carried as the usual 32-bit big-endian integer.
#[derive(Clone, Copy, Debug, PartialEq, Eq)]
pub struct IncomingDatagram {
    pub kind: IcmpKind,
    pub source: u32,
}

/// The echo-request bytes before the checksum is filled in: type, code, a zero
/// checksum field, the identifier and sequence fields big-endian (the sequence
/// carries the probe's TTL), and eight zero payload bytes.
pub open spec fn encode_base(ttl: u8, identifier: u16) -> Seq<u8> {
    seq![
        ICMP_ECHO_REQUEST,
        0u8,
        0u8,
        0u8,
        (identifier / 0x100) as u8,
        (identifier % 0x100) as u8,
        0u8,
        ttl,
        0u8,
        0u8,
        0u8,
        0u8,
        0u8,
        0u8,
        0u8,
        0u8,
    ]
}

/// The finished echo-request datagram: the base bytes with the checksum,
/// computed with its own field skipped, stored big-endian in bytes 2 and 3.
pub open spec fn encode_spec(ttl: u8, identifier: u16) -> Seq<u8> {
    let c = checksum_of(encode_base(ttl, identifier), CHECKSUM_WORD as int);
    encode_base(ttl, identifier).update(2, (c / 0x100) as u8).update(3, (c % 0x100) as u8)
}

/// How any byte buffer is classified: too short for the 8-byte ICMP header is
/// discarded as `Other`; otherwise the type byte alone decides, and only an
/// echo reply has its identifier field read (big-endian bytes 4 and 5).
pub open spec fn classify_spec(b: Seq<u8>) -> IcmpKind {
    if b.len() < 8 {
        IcmpKind::Other
    } else if b[0] == ICMP_ECHO_REPLY {
        IcmpKind::EchoReply { identifier: (b[4] * 0x100 + b[5]) as u16 }
    } else if b[0] == ICMP_TIME_EXCEEDED {
        IcmpKind::TimeExceeded
    } else {
        IcmpKind::Other
    }
}

/// Build the echo-request datagram for one probe: the given identifier in the
/// identifier field, the TTL reused as the sequence number, and a checksum
/// that validates over the whole datagram.
pub fn encode_echo_request(ttl: u8, identifier: u16) -> (r: Vec<u8>)
    ensures
        r@ == encode_spec(ttl, identifier),
        r@.len() == ECHO_REQUEST_LEN,
{
    let mut buf: Vec<u8> = Vec::new();
    buf.push(ICMP_ECHO_REQUEST);
    buf.push(0);
    buf.push(0);
    buf.push(0);
    buf.push((identifier / 0x100) as u8);
    buf.push((identifier % 0x100) as u8);
    buf.push(0);
    buf.push(ttl);
    buf.push(0);
    buf.push(0);
    buf.push(0);
    buf.push(0);
    buf.push(0);
    buf.push(0);
    buf.push(0);
    buf.push(0);
    assert(buf@ =~= encode_base(ttl, identifier));
    let c = checksum(&buf, CHECKSUM_WORD);
    buf[2] = (c / 0x100) as u8;
    buf[3] = (c % 0x100) as u8;
    buf
}

/// Classify received bytes, attaching the transport-reported source address.
pub fn classify(bytes: &Vec<u8>, source: u32) -> (d: IncomingDatagram)
    ensures
        d.kind == classify_spec(bytes@),
        d.source == source,
{
    let kind = if bytes.len() < 8 {
        IcmpKind::Other
    } else if bytes[0] == ICMP_ECHO_REPLY {
        let identifier: u16 = (bytes[4] as u16) * 0x100 + bytes[5] as u16;
        IcmpKind::EchoReply { identifier }
    } else if bytes[0] == ICMP_TIME_EXCEEDED {
        IcmpKind::TimeExceeded
    } else {
        IcmpKind::Other
    };
    IncomingDatagram { kind, source }
}

/// An encoded echo request, read back as if it had come off the wire with its
/// type byte rewritten to echo reply, classifies as an echo reply carrying the
/// identifier it was built with; and the checksum stored in the datagram is
/// exactly the checksum recomputed over it.
pub proof fn lemma_encode_classify_round_trip(ttl: u8, identifier: u16)
    requires
        1 <= ttl,
    ensures
        ({
            let e = encode_spec(ttl, identifier);
            &&& classify_spec(e.update(0, ICMP_ECHO_REPLY)) == (IcmpKind::EchoReply { identifier })
            &&& word_at(e, CHECKSUM_WORD as int) == checksum_of(e, CHECKSUM_WORD as int)
        }),
{
    let base = encode_base(ttl, identifier);
    let c = checksum_of(base, CHECKSUM_WORD as int);
    let e = encode_spec(ttl, identifier);
    lemma_checksum_fits(base, CHECKSUM_WORD as int);
    assert(e[4] == (identifier / 0x100) as u8);
    assert(e[5] == (identifier % 0x100) as u8);
    assert(identifier / 0x100 * 0x100 + identifier % 0x100 == identifier) by {
        vstd::arithmetic::div_mod::lemma_fundamental_div_mod(identifier as int, 0x100);
    }
    lemma_checksum_ignores_skipped_word(e, base, CHECKSUM_WORD as int);
    assert(word_at(e, CHECKSUM_WORD as int) == e[2] * 0x100 + e[3]);
    assert(c / 0x100 * 0x100 + c % 0x100 == c) by {
        vstd::arithmetic::div_mod::lemma_fundamental_div_mod(c, 0x100);
    }
}

} // verus!
