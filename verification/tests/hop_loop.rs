use traceroute::controller::{Controller, HopResult, RunStatus, ATTEMPTS_PER_HOP, MAX_TTL};
use traceroute::probe::ProbeOutcome;

const DEST: u32 = 0x0A0B0C0D;

fn hit(responder: u32) -> ProbeOutcome {
    ProbeOutcome::Matched { rtt_micros: 1_000, responder }
}

/// Feed the controller a scripted stream of probe outcomes, as the run loop
/// does, collecting the emitted hops until the run leaves the probing state
/// or the script runs out.
fn run_script(destination: u32, outcomes: &[ProbeOutcome]) -> (Vec<HopResult>, RunStatus) {
    let mut controller = Controller::new(destination);
    let mut hops: Vec<HopResult> = Vec::new();
    for outcome in outcomes {
        if controller.status != RunStatus::Probing {
            break;
        }
        if let Some(hop) = controller.step(outcome) {
            hops.push(hop);
        }
    }
    (hops, controller.status)
}

#[test]
fn unreachable_destination_yields_all_hops_lost() {
    // Every probe of every hop times out: 64 hop results, each with all three
    // attempts lost, and the run ends without the termination condition.
    let script = vec![ProbeOutcome::TimedOut; MAX_TTL as usize * ATTEMPTS_PER_HOP as usize];
    let (hops, status) = run_script(DEST, &script);
    assert_eq!(hops.len(), 64);
    for (i, hop) in hops.iter().enumerate() {
        assert_eq!(hop.ttl as usize, i + 1);
        assert_eq!(hop.responder, None);
        assert_eq!(hop.round_trips, vec![None, None, None]);
        assert!(!hop.reached_destination);
    }
    assert_eq!(status, RunStatus::Exhausted);
}

#[test]
fn destination_on_hop_five_terminates_after_its_third_attempt() {
    let mut script = vec![ProbeOutcome::TimedOut; 4 * 3];
    script.extend([hit(DEST), hit(DEST), hit(DEST)]);
    let (hops, status) = run_script(DEST, &script);
    assert_eq!(status, RunStatus::ReachedDestination);
    assert_eq!(hops.len(), 5);
    let last = &hops[4];
    assert_eq!(last.ttl, 5);
    assert!(last.reached_destination);
    assert_eq!(last.responder, Some(DEST));
    assert_eq!(last.round_trips, vec![Some(1_000), Some(1_000), Some(1_000)]);
}

#[test]
fn run_continues_when_third_attempt_times_out() {
    // Attempts 1 and 2 of hop 5 reach the destination, but the third is lost:
    // the narrow termination condition does not fire and hop 6 is probed.
    let mut script = vec![ProbeOutcome::TimedOut; 4 * 3];
    script.extend([hit(DEST), hit(DEST), ProbeOutcome::TimedOut]);
    script.extend([ProbeOutcome::TimedOut; 3]);
    let (hops, status) = run_script(DEST, &script);
    assert_eq!(status, RunStatus::Probing);
    assert_eq!(hops.len(), 6);
    assert!(hops[4].reached_destination);
    assert_eq!(hops[4].responder, Some(DEST));
    assert_eq!(hops[5].ttl, 6);
}

#[test]
fn run_continues_when_third_attempt_answers_from_elsewhere() {
    let other = 0x01020304;
    let mut script = vec![ProbeOutcome::TimedOut; 4 * 3];
    script.extend([hit(DEST), hit(DEST), hit(other)]);
    let (hops, status) = run_script(DEST, &script);
    assert_eq!(status, RunStatus::Probing);
    assert_eq!(hops.len(), 5);
    assert!(hops[4].reached_destination);
    // The representative responder is the first attempt's.
    assert_eq!(hops[4].responder, Some(DEST));
}

#[test]
fn intermediate_router_recorded_with_three_times() {
    // A router at hop 3 answers all three probes with time-exceeded: its hop
    // records that address and three non-lost round-trip times.
    let router = 0xC0A80101;
    let mut script = vec![ProbeOutcome::TimedOut; 2 * 3];
    script.extend([
        ProbeOutcome::Matched { rtt_micros: 700, responder: router },
        ProbeOutcome::Matched { rtt_micros: 800, responder: router },
        ProbeOutcome::Matched { rtt_micros: 900, responder: router },
    ]);
    script.extend([ProbeOutcome::TimedOut; 3]);
    let (hops, status) = run_script(DEST, &script);
    assert_eq!(status, RunStatus::Probing);
    assert_eq!(hops.len(), 4);
    let third = &hops[2];
    assert_eq!(third.ttl, 3);
    assert_eq!(third.responder, Some(router));
    assert_eq!(third.round_trips, vec![Some(700), Some(800), Some(900)]);
    assert!(!third.reached_destination);
}

#[test]
fn transport_error_aborts_immediately() {
    // A transport-level failure on any attempt ends the run at once: the
    // broken hop is never emitted and no further hop is probed.
    let mut script = vec![ProbeOutcome::TimedOut; 3];
    script.extend([ProbeOutcome::TimedOut, ProbeOutcome::TransportFailed]);
    script.extend([ProbeOutcome::TimedOut; 30]);
    let (hops, status) = run_script(DEST, &script);
    assert_eq!(status, RunStatus::Aborted);
    assert_eq!(hops.len(), 1);
    assert_eq!(hops[0].ttl, 1);
}

#[test]
fn transport_error_on_first_attempt_emits_nothing() {
    let (hops, status) = run_script(DEST, &[ProbeOutcome::TransportFailed]);
    assert_eq!(status, RunStatus::Aborted);
    assert!(hops.is_empty());
}

#[test]
fn responder_captured_on_first_success_only() {
    // The first successful attempt fixes the hop's representative address,
    // even when a later attempt answers from elsewhere.
    let a = 0x01010101;
    let b = 0x02020202;
    let script = [ProbeOutcome::TimedOut, hit(a), hit(b)];
    let (hops, status) = run_script(DEST, &script);
    assert_eq!(status, RunStatus::Probing);
    assert_eq!(hops[0].responder, Some(a));
    assert_eq!(hops[0].round_trips, vec![None, Some(1_000), Some(1_000)]);
}

#[test]
fn reaching_destination_mid_hop_alone_does_not_stop_the_run() {
    // The destination answers the first two attempts of hop 1 but not the
    // third: the hop is marked reached, yet probing continues.
    let script = [hit(DEST), hit(DEST), ProbeOutcome::TimedOut, ProbeOutcome::TimedOut];
    let (hops, status) = run_script(DEST, &script);
    assert_eq!(status, RunStatus::Probing);
    assert_eq!(hops.len(), 1);
    assert!(hops[0].reached_destination);
}
