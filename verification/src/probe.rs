//! One probe round: a freshly identified echo request goes out, and incoming
//! datagrams are accepted or skipped until one concludes the round. Exactly
//! one probe is outstanding at a time, which is what lets a time-exceeded
//! notice be trusted without an identifier of its own, while a stray echo
//! reply from an abandoned probe is recognised by its identifier and skipped.

use vstd::prelude::*;
use crate::packet::{IcmpKind, IncomingDatagram, encode_spec, encode_echo_request};

verus! {

/// Seconds the receive side waits for a datagram before a probe counts as lost.
pub const RECEIVE_TIMEOUT_SECS: u64 = 3;

/// One outstanding echo probe: the TTL it was sent with (reused as the
/// sequence field) and the identifier that a genuine echo reply must carry.
#[derive(Clone, Copy, Debug, PartialEq, Eq)]
pub struct EchoProbe {
    pub ttl: u8,
    pub identifier: u16,
}

/// What the transport hands the prober on one receive iteration: a classified
/// datagram stamped with the monotonic receive time, the bounded wait running
/// out, or the receive itself failing.
#[derive(Clone, Copy, Debug, PartialEq, Eq)]
pub enum ProbeEvent {
    Received { datagram: IncomingDatagram, received_at_micros: u64 },
    TimedOut,
    ReceiveFailed,
}

/// How one probe round ends: a correlated reply with its round-trip time and
/// the responder's address, the timeout with nothing matched, or a transport
/// failure that aborts the whole run.
#[derive(Clone, Copy, Debug, PartialEq, Eq)]
pub enum ProbeOutcome {
    Matched { rtt_micros: u64, responder: u32 },
    TimedOut,
    TransportFailed,
}

/// The prober's reaction to one event: keep waiting for a further datagram,
/// or conclude the round with an outcome.
#[derive(Clone, Copy, Debug, PartialEq, Eq)]
pub enum ProbeStep {
    KeepWaiting,
    Conclude(ProbeOutcome),
}

/// The correlation rule, applied to one event. A time-exceeded datagram is
/// accepted unconditionally (only one probe is ever in flight); an echo reply
/// is accepted exactly when its identifier matches the probe's; anything else
/// is skipped. A timeout or a failed receive concludes the round by itself.
pub open spec fn react_spec(probe_id: u16, sent_at_micros: u64, ev: ProbeEvent) -> ProbeStep {
    match ev {
        ProbeEvent::Received { datagram, received_at_micros } => match datagram.kind {
            IcmpKind::TimeExceeded => ProbeStep::Conclude(ProbeOutcome::Matched {
                rtt_micros: (received_at_micros - sent_at_micros) as u64,
                responder: datagram.source,
            }),
            IcmpKind::EchoReply { identifier } => if identifier == probe_id {
                ProbeStep::Conclude(ProbeOutcome::Matched {
                    rtt_micros: (received_at_micros - sent_at_micros) as u64,
                    responder: datagram.source,
                })
            } else {
                ProbeStep::KeepWaiting
            },
            IcmpKind::Other => ProbeStep::KeepWaiting,
        },
        ProbeEvent::TimedOut => ProbeStep::Conclude(ProbeOutcome::TimedOut),
        ProbeEvent::ReceiveFailed => ProbeStep::Conclude(ProbeOutcome::TransportFailed),
    }
}

/// Relies on rand::random_range over `0..u16::MAX`: a value drawn from the
/// half-open range, so always below 0xFFFF; the range is non-empty, so the
/// call does not panic.
#[verifier::external_body]
fn fresh_identifier() -> (r: u16)
    ensures
        r < 0xFFFF,
{
    rand::random_range(0..u16::MAX)
}

/// Start a probe round: draw a fresh random identifier and encode the echo
/// request that carries it, with the given TTL in the sequence field.
pub fn new_probe(ttl: u8) -> (r: (EchoProbe, Vec<u8>))
    ensures
        r.0.ttl == ttl,
        r.0.identifier < 0xFFFF,
        r.1@ == encode_spec(ttl, r.0.identifier),
{
    let identifier = fresh_identifier();
    let datagram = encode_echo_request(ttl, identifier);
    (EchoProbe { ttl, identifier }, datagram)
}

/// React to one receive event for the outstanding probe. The caller's clock
/// is monotonic: a datagram is never stamped earlier than the send it answers.
pub fn probe_react(probe: &EchoProbe, sent_at_micros: u64, ev: &ProbeEvent) -> (r: ProbeStep)
    requires
        ev matches ProbeEvent::Received { received_at_micros, .. } ==> received_at_micros
            >= sent_at_micros,
    ensures
        r == react_spec(probe.identifier, sent_at_micros, *ev),
{
    match ev {
        ProbeEvent::Received { datagram, received_at_micros } => match datagram.kind {
            IcmpKind::TimeExceeded => ProbeStep::Conclude(ProbeOutcome::Matched {
                rtt_micros: *received_at_micros - sent_at_micros,
                responder: datagram.source,
            }),
            IcmpKind::EchoReply { identifier } => if identifier == probe.identifier {
                ProbeStep::Conclude(ProbeOutcome::Matched {
                    rtt_micros: *received_at_micros - sent_at_micros,
                    responder: datagram.source,
                })
            } else {
                ProbeStep::KeepWaiting
            },
            IcmpKind::Other => ProbeStep::KeepWaiting,
        },
        ProbeEvent::TimedOut => ProbeStep::Conclude(ProbeOutcome::TimedOut),
        ProbeEvent::ReceiveFailed => ProbeStep::Conclude(ProbeOutcome::TransportFailed),
    }
}

/// How a whole receive loop ends on a given stream of events: the first event
/// that concludes the round decides it; if every event only keeps the prober
/// waiting, the round has not ended (`None`).
pub open spec fn probe_run_spec(probe_id: u16, sent_at_micros: u64, events: Seq<ProbeEvent>)
    -> Option<ProbeOutcome>
    decreases events.len(),
{
    if events.len() == 0 {
        None
    } else {
        match react_spec(probe_id, sent_at_micros, events[0]) {
            ProbeStep::KeepWaiting => probe_run_spec(
                probe_id,
                sent_at_micros,
                events.subrange(1, events.len() as int),
            ),
            ProbeStep::Conclude(o) => Some(o),
        }
    }
}

/// A probe that receives only time-exceeded datagrams always succeeds, and
/// with the first of them, however many arrive: the round ends matched to the
/// first datagram's source, with that datagram's round-trip time.
pub proof fn lemma_time_exceeded_always_accepted(
    probe_id: u16,
    sent_at_micros: u64,
    events: Seq<ProbeEvent>,
)
    requires
        events.len() > 0,
        forall|i: int| 0 <= i < events.len() ==> (#[trigger] events[i] matches ProbeEvent::Received {
            datagram,
            ..
        } && datagram.kind is TimeExceeded),
    ensures
        events[0] matches ProbeEvent::Received { datagram, received_at_micros } ==> probe_run_spec(
            probe_id,
            sent_at_micros,
            events,
        ) == Some(ProbeOutcome::Matched {
            rtt_micros: (received_at_micros - sent_at_micros) as u64,
            responder: datagram.source,
        }),
{
    assert(events[0] matches ProbeEvent::Received { datagram, .. } && datagram.kind
        is TimeExceeded);
}

/// Echo replies whose identifier is not the outstanding probe's are
/// transparent: the receive loop skips every one of them and the round goes
/// on exactly as it would on the events that follow.
pub proof fn lemma_stale_replies_skipped(
    probe_id: u16,
    sent_at_micros: u64,
    stale: Seq<ProbeEvent>,
    rest: Seq<ProbeEvent>,
)
    requires
        forall|i: int| 0 <= i < stale.len() ==> (#[trigger] stale[i] matches ProbeEvent::Received {
            datagram,
            ..
        } && datagram.kind matches IcmpKind::EchoReply { identifier } && identifier != probe_id),
    ensures
        probe_run_spec(probe_id, sent_at_micros, stale + rest) == probe_run_spec(
            probe_id,
            sent_at_micros,
            rest,
        ),
    decreases stale.len(),
{
    if stale.len() == 0 {
        assert(stale + rest =~= rest);
    } else {
        let all = stale + rest;
        assert(all[0] == stale[0]);
        assert(react_spec(probe_id, sent_at_micros, all[0]) is KeepWaiting);
        assert(all.subrange(1, all.len() as int) =~= stale.subrange(1, stale.len() as int) + rest);
        lemma_stale_replies_skipped(
            probe_id,
            sent_at_micros,
            stale.subrange(1, stale.len() as int),
            rest,
        );
    }
}

/// A probe that receives only mismatched echo replies never concludes: it is
/// still waiting after all of them, until a timeout or a matching reply.
pub proof fn lemma_mismatched_reply_never_concludes(
    probe_id: u16,
    sent_at_micros: u64,
    events: Seq<ProbeEvent>,
)
    requires
        forall|i: int| 0 <= i < events.len() ==> (#[trigger] events[i] matches ProbeEvent::Received {
            datagram,
            ..
        } && datagram.kind matches IcmpKind::EchoReply { identifier } && identifier != probe_id),
    ensures
        probe_run_spec(probe_id, sent_at_micros, events) is None,
{
    lemma_stale_replies_skipped(probe_id, sent_at_micros, events, Seq::empty());
    assert(events + Seq::<ProbeEvent>::empty() =~= events);
}

} // verus!
