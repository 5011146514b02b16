//! The hop-by-hop controller. It walks the TTL values 1 to 64 in order, takes
//! three probe outcomes per hop, aggregates them into a `HopResult`, and
//! decides when the run is over: when the third attempt of a hop matched the
//! destination itself, when the hop budget is exhausted, or at once when the
//! transport fails.

use vstd::prelude::*;
use crate::probe::ProbeOutcome;

verus! {

/// The largest TTL probed; a run that gets this far without reaching the
/// destination ends with the destination counted unreachable.
pub const MAX_TTL: u8 = 64;

/// How many probes are sent at each TTL.
pub const ATTEMPTS_PER_HOP: u8 = 3;

/// One finished hop: its TTL, the address of the first responder if any
/// attempt got one, one entry per attempt (`None` for a lost probe), and
/// whether some attempt's responder was the destination itself.
#[derive(Clone, Debug, PartialEq, Eq)]
pub struct HopResult {
    pub ttl: u8,
    pub responder: Option<u32>,
    pub round_trips: Vec<Option<u64>>,
    pub reached_destination: bool,
}

/// The mathematical shape of a finished hop.
pub struct HopModel {
    pub ttl: u8,
    pub responder: Option<u32>,
    pub round_trips: Seq<Option<u64>>,
    pub reached_destination: bool,
}

impl View for HopResult {
    type V = HopModel;

    open spec fn view(&self) -> HopModel {
        HopModel {
            ttl: self.ttl,
            responder: self.responder,
            round_trips: self.round_trips@,
            reached_destination: self.reached_destination,
        }
    }
}

/// Where a run stands: still probing, ended because the destination answered,
/// ended with the hop budget exhausted, or aborted on a transport failure.
#[derive(Clone, Copy, Debug, PartialEq, Eq)]
pub enum RunStatus {
    Probing,
    ReachedDestination,
    Exhausted,
    Aborted,
}

/// The traceroute controller: the destination it is tracing towards, the hop
/// and attempt it is at, the partial hop being aggregated, and the run status.
pub struct Controller {
    pub destination: u32,
    pub ttl: u8,
    pub attempt: u8,
    pub responder: Option<u32>,
    pub round_trips: Vec<Option<u64>>,
    pub reached: bool,
    pub status: RunStatus,
}

/// The mathematical shape of the controller's state.
pub struct ControllerModel {
    pub destination: u32,
    pub ttl: u8,
    pub attempt: u8,
    pub responder: Option<u32>,
    pub round_trips: Seq<Option<u64>>,
    pub reached: bool,
    pub status: RunStatus,
}

impl View for Controller {
    type V = ControllerModel;

    open spec fn view(&self) -> ControllerModel {
        ControllerModel {
            destination: self.destination,
            ttl: self.ttl,
            attempt: self.attempt,
            responder: self.responder,
            round_trips: self.round_trips@,
            reached: self.reached,
            status: self.status,
        }
    }
}

/// The controller's invariant while it is probing: the TTL is a valid hop
/// number, fewer than three attempts are recorded, and exactly one entry
/// stands per finished attempt.
pub open spec fn inv(m: ControllerModel) -> bool {
    m.status is Probing ==> {
        &&& 1 <= m.ttl <= MAX_TTL
        &&& m.attempt < ATTEMPTS_PER_HOP
        &&& m.round_trips.len() == m.attempt as int
    }
}

/// A controller state that starts the hop at `ttl` with nothing recorded.
pub open spec fn fresh_hop(m: ControllerModel, ttl: u8, status: RunStatus) -> ControllerModel {
    ControllerModel {
        destination: m.destination,
        ttl,
        attempt: 0,
        responder: None,
        round_trips: Seq::empty(),
        reached: false,
        status,
    }
}

/// One attempt recorded into the current hop: a matched probe contributes its
/// round-trip time, a timed-out one a lost entry; the first match fixes the
/// hop's representative responder, and a match from the destination itself
/// marks the hop as having reached it.
pub open spec fn record_spec(m: ControllerModel, outcome: ProbeOutcome) -> ControllerModel {
    let rtt = match outcome {
        ProbeOutcome::Matched { rtt_micros, .. } => Some(rtt_micros),
        _ => None,
    };
    let responder = if m.responder is Some {
        m.responder
    } else {
        match outcome {
            ProbeOutcome::Matched { responder, .. } => Some(responder),
            _ => None,
        }
    };
    ControllerModel {
        destination: m.destination,
        ttl: m.ttl,
        attempt: (m.attempt + 1) as u8,
        responder,
        round_trips: m.round_trips.push(rtt),
        reached: m.reached || (outcome matches ProbeOutcome::Matched { responder, .. }
            && responder == m.destination),
        status: m.status,
    }
}

/// The controller's whole transition on one probe outcome. A transport
/// failure aborts the run at once, with no hop emitted. Otherwise the attempt
/// is recorded; after the third the hop is emitted, and the run ends exactly
/// when that third attempt matched the destination, or when the last hop of
/// the budget has been probed.
pub open spec fn step_spec(m: ControllerModel, outcome: ProbeOutcome) -> (ControllerModel, Option<
    HopModel,
>) {
    if outcome is TransportFailed {
        (
            ControllerModel {
                destination: m.destination,
                ttl: m.ttl,
                attempt: m.attempt,
                responder: m.responder,
                round_trips: m.round_trips,
                reached: m.reached,
                status: RunStatus::Aborted,
            },
            None,
        )
    } else {
        let r = record_spec(m, outcome);
        if r.attempt < ATTEMPTS_PER_HOP {
            (r, None)
        } else {
            let hop = HopModel {
                ttl: m.ttl,
                responder: r.responder,
                round_trips: r.round_trips,
                reached_destination: r.reached,
            };
            let last_attempt_hit_destination = (outcome matches ProbeOutcome::Matched {
                responder,
                ..
            } && responder == m.destination);
            if last_attempt_hit_destination {
                (fresh_hop(m, m.ttl, RunStatus::ReachedDestination), Some(hop))
            } else if m.ttl == MAX_TTL {
                (fresh_hop(m, m.ttl, RunStatus::Exhausted), Some(hop))
            } else {
                (fresh_hop(m, (m.ttl + 1) as u8, RunStatus::Probing), Some(hop))
            }
        }
    }
}

/// The view of an emitted hop, if one was emitted.
pub open spec fn emitted_view(emitted: Option<HopResult>) -> Option<HopModel> {
    match emitted {
        Some(h) => Some(h@),
        None => None,
    }
}

impl Controller {
    /// A controller about to probe the destination: at the first hop, first
    /// attempt, with nothing recorded.
    pub fn new(destination: u32) -> (c: Controller)
        ensures
            c@ == (ControllerModel {
                destination,
                ttl: 1u8,
                attempt: 0u8,
                responder: None,
                round_trips: Seq::<Option<u64>>::empty(),
                reached: false,
                status: RunStatus::Probing,
            }),
            inv(c@),
    {
        let c = Controller {
            destination,
            ttl: 1,
            attempt: 0,
            responder: None,
            round_trips: Vec::new(),
            reached: false,
            status: RunStatus::Probing,
        };
        proof {
            assert(c@.round_trips =~= Seq::<Option<u64>>::empty());
        }
        c
    }

    /// Feed the controller the outcome of the probe it asked for: the probe
    /// at (`self.ttl`, `self.attempt`). Returns the finished hop when this
    /// outcome was the hop's third attempt; the run status tells the caller
    /// whether to keep probing.
    pub fn step(&mut self, outcome: &ProbeOutcome) -> (emitted: Option<HopResult>)
        requires
            old(self)@.status is Probing,
            inv(old(self)@),
        ensures
            final(self)@ == step_spec(old(self)@, *outcome).0,
            emitted_view(emitted) == step_spec(old(self)@, *outcome).1,
            inv(final(self)@),
            // A finished hop carries its own TTL and exactly one entry per
            // attempt, whatever the mix of successes and losses.
            emitted matches Some(h) ==> h@.ttl == old(self)@.ttl && h@.round_trips.len()
                == ATTEMPTS_PER_HOP,
    {
        match outcome {
            ProbeOutcome::TransportFailed => {
                self.status = RunStatus::Aborted;
                None
            },
            _ => {
                let rtt: Option<u64> = match outcome {
                    ProbeOutcome::Matched { rtt_micros, .. } => Some(*rtt_micros),
                    _ => None,
                };
                if self.responder.is_none() {
                    self.responder = match outcome {
                        ProbeOutcome::Matched { responder, .. } => Some(*responder),
                        _ => None,
                    };
                }
                if let ProbeOutcome::Matched { responder, .. } = outcome {
                    if *responder == self.destination {
                        self.reached = true;
                    }
                }
                self.round_trips.push(rtt);
                self.attempt = self.attempt + 1;
                if self.attempt < ATTEMPTS_PER_HOP {
                    None
                } else {
                    let mut trips: Vec<Option<u64>> = Vec::new();
                    core::mem::swap(&mut trips, &mut self.round_trips);
                    let hop = HopResult {
                        ttl: self.ttl,
                        responder: self.responder,
                        round_trips: trips,
                        reached_destination: self.reached,
                    };
                    let last_attempt_hit_destination = match outcome {
                        ProbeOutcome::Matched { responder, .. } => *responder == self.destination,
                        _ => false,
                    };
                    if last_attempt_hit_destination {
                        self.status = RunStatus::ReachedDestination;
                    } else if self.ttl == MAX_TTL {
                        self.status = RunStatus::Exhausted;
                    } else {
                        self.ttl = self.ttl + 1;
                    }
                    self.attempt = 0;
                    self.responder = None;
                    self.reached = false;
                    proof {
                        assert(self.round_trips@ =~= Seq::<Option<u64>>::empty());
                    }
                    Some(hop)
                }
            },
        }
    }
}

} // verus!
