use one_pass::fund::probe::{Attempt, NotFoundPolicy, ProbeLoop, ProbeStep};
use one_pass::fund::wire::ProbeOutcome;

const CONSUMED: Attempt = Attempt::Answered(ProbeOutcome::Consumed(100));
const INSUFFICIENT: Attempt = Attempt::Answered(ProbeOutcome::Insufficient);
const NOT_FOUND: Attempt = Attempt::Answered(ProbeOutcome::NotFound);

fn transients() -> [Attempt; 5] {
    [
        Attempt::TimedOut,
        Attempt::Answered(ProbeOutcome::GatewayTimeout),
        Attempt::Answered(ProbeOutcome::TransportError),
        Attempt::Answered(ProbeOutcome::BusinessOther(500)),
        Attempt::Answered(ProbeOutcome::BusinessOther(0)),
    ]
}

/// Feeds the attempts to a loop and returns its result, if it ends.
fn run(amount: i64, attempts: &[Attempt]) -> Option<i64> {
    let mut state = ProbeLoop::new(1, amount);
    for attempt in attempts {
        assert!(state.takes(*attempt));
        if let ProbeStep::Done(result) = state.advance(*attempt) {
            return Some(result);
        }
    }
    None
}

#[test]
fn a_new_loop_has_consumed_nothing() {
    let state = ProbeLoop::new(600001, 1000000);
    assert_eq!(state.uid, 600001);
    assert_eq!(state.amount, 1000000);
    assert_eq!(state.accumulated, 0);
    assert_eq!(state.on_not_found, NotFoundPolicy::Discard);
    assert_eq!(state.correlation_id.len(), 36);
}

#[test]
fn correlation_ids_are_hyphenated_version_4_uuids() {
    let id = ProbeLoop::new(1, 1).correlation_id;
    let bytes = id.as_bytes();
    assert_eq!(bytes.len(), 36);
    for (i, b) in bytes.iter().enumerate() {
        if i == 8 || i == 13 || i == 18 || i == 23 {
            assert_eq!(*b, b'-');
        } else {
            assert!(b.is_ascii_hexdigit());
        }
    }
    assert_eq!(bytes[14], b'4');
}

#[test]
fn two_loops_probe_under_different_ids() {
    let a = ProbeLoop::new(1, 1);
    let b = ProbeLoop::new(1, 1);
    assert_ne!(a.correlation_id, b.correlation_id);
}

#[test]
fn a_loop_can_be_given_its_correlation_id() {
    let state = ProbeLoop::with_correlation_id(5, 250, "corr-0".to_string());
    assert_eq!(state.correlation_id, "corr-0");
    assert_eq!(state.accumulated, 0);
    assert_eq!(state.uid, 5);
    assert_eq!(state.amount, 250);
}

#[test]
fn a_probe_carries_the_loops_user_amount_and_correlation_id() {
    let state = ProbeLoop::with_correlation_id(5, 250, "corr-0".to_string());
    let probe = state.probe_as("req-0".to_string());
    assert_eq!(probe.uid, 5);
    assert_eq!(probe.amount, 250);
    assert_eq!(probe.transaction_id, "corr-0");
    assert_eq!(probe.request_id, "req-0");
}

#[test]
fn every_attempt_gets_a_request_id_of_its_own() {
    let state = ProbeLoop::with_correlation_id(5, 250, "corr-0".to_string());
    let first = state.next_probe();
    let second = state.next_probe();
    assert_eq!(first.transaction_id, "corr-0");
    assert_eq!(second.transaction_id, "corr-0");
    assert_eq!(first.request_id.len(), 36);
    assert_ne!(first.request_id, second.request_id);
    assert_ne!(first.request_id, first.transaction_id);
}

#[test]
fn insufficient_at_once_returns_nothing() {
    assert_eq!(run(100, &[INSUFFICIENT]), Some(0));
}

#[test]
fn the_loop_returns_the_units_consumed() {
    assert_eq!(run(100, &[CONSUMED, INSUFFICIENT]), Some(100));
    assert_eq!(run(100, &[CONSUMED, CONSUMED, CONSUMED, INSUFFICIENT]), Some(300));
    assert_eq!(run(1000000, &[CONSUMED, INSUFFICIENT]), Some(1000000));
}

#[test]
fn the_loop_adds_its_own_denomination() {
    let elsewhere = Attempt::Answered(ProbeOutcome::Consumed(5));
    assert_eq!(run(100, &[elsewhere, INSUFFICIENT]), Some(100));
}

#[test]
fn the_loop_goes_on_until_it_is_told_to_stop() {
    assert_eq!(run(100, &[]), None);
    assert_eq!(run(100, &[CONSUMED, CONSUMED]), None);
    assert_eq!(run(100, &transients()), None);
}

#[test]
fn not_found_returns_nothing_even_after_debits() {
    assert_eq!(run(100, &[NOT_FOUND]), Some(0));
    assert_eq!(run(100, &[CONSUMED, CONSUMED, NOT_FOUND]), Some(0));
}

#[test]
fn not_found_keeps_the_debits_where_the_policy_says_so() {
    let mut state = ProbeLoop::new(1, 100);
    state.on_not_found = NotFoundPolicy::Keep;
    assert_eq!(state.advance(CONSUMED), ProbeStep::Retry);
    assert_eq!(state.advance(CONSUMED), ProbeStep::Retry);
    assert_eq!(state.on_not_found, NotFoundPolicy::Keep);
    assert_eq!(state.advance(NOT_FOUND), ProbeStep::Done(200));
}

#[test]
fn transient_attempts_change_nothing() {
    for transient in transients() {
        let mut state = ProbeLoop::with_correlation_id(1, 100, "corr-0".to_string());
        assert_eq!(state.advance(transient), ProbeStep::Retry);
        assert_eq!(state.accumulated, 0);
        assert_eq!(state.correlation_id, "corr-0");
        assert_eq!(state.advance(CONSUMED), ProbeStep::Retry);
        let after_debit = state.clone();
        assert_eq!(state.advance(transient), ProbeStep::Retry);
        assert_eq!(state, after_debit);
    }
}

#[test]
fn transient_attempts_do_not_change_the_result() {
    let t = transients();
    assert_eq!(
        run(100, &[t[0], CONSUMED, t[1], t[2], CONSUMED, t[3], t[0], INSUFFICIENT]),
        Some(200)
    );
    assert_eq!(run(100, &[t[4], t[1], INSUFFICIENT]), Some(0));
    assert_eq!(run(100, &[t[2], CONSUMED, t[0], NOT_FOUND]), Some(0));
}

#[test]
fn the_correlation_id_changes_after_a_debit_and_at_no_other_time() {
    let mut state = ProbeLoop::new(1, 100);
    let first = state.correlation_id.clone();
    state.advance(Attempt::Answered(ProbeOutcome::GatewayTimeout));
    state.advance(Attempt::TimedOut);
    assert_eq!(state.correlation_id, first);
    state.advance(CONSUMED);
    let second = state.correlation_id.clone();
    assert_ne!(second, first);
    assert_eq!(second.len(), 36);
    state.advance(Attempt::Answered(ProbeOutcome::TransportError));
    assert_eq!(state.correlation_id, second);
    assert_eq!(state.advance(INSUFFICIENT), ProbeStep::Done(100));
    assert_eq!(state.correlation_id, second);
}

#[test]
fn advance_to_takes_the_next_id_after_a_debit_only() {
    let mut state = ProbeLoop::with_correlation_id(1, 100, "corr-0".to_string());
    assert_eq!(state.advance_to(Attempt::TimedOut, "corr-1".to_string()), ProbeStep::Retry);
    assert_eq!(state.correlation_id, "corr-0");
    assert_eq!(state.advance_to(CONSUMED, "corr-1".to_string()), ProbeStep::Retry);
    assert_eq!(state.correlation_id, "corr-1");
    assert_eq!(state.accumulated, 100);
    assert_eq!(state.advance_to(INSUFFICIENT, "corr-2".to_string()), ProbeStep::Done(100));
    assert_eq!(state.correlation_id, "corr-1");
    assert_eq!(state.advance_to(NOT_FOUND, "corr-2".to_string()), ProbeStep::Done(0));
    assert_eq!(state.correlation_id, "corr-1");
    assert_eq!(state.accumulated, 100);
}

#[test]
fn two_gateway_timeouts_then_a_debit() {
    let mut state = ProbeLoop::new(600001, 25);
    let mut ids_seen = Vec::new();
    let gateway = Attempt::Answered(ProbeOutcome::GatewayTimeout);
    for attempt in [gateway, gateway, Attempt::Answered(ProbeOutcome::Consumed(25))] {
        ids_seen.push(state.next_probe().transaction_id);
        assert_eq!(state.advance(attempt), ProbeStep::Retry);
    }
    assert_eq!(ids_seen.len(), 3);
    assert_eq!(ids_seen[0], ids_seen[1]);
    assert_eq!(ids_seen[1], ids_seen[2]);
    assert_eq!(state.accumulated, 25);
    assert_ne!(state.next_probe().transaction_id, ids_seen[0]);
    assert_eq!(state.advance(INSUFFICIENT), ProbeStep::Done(25));
}

#[test]
fn a_debit_that_would_overflow_is_not_taken() {
    let mut state = ProbeLoop::new(1, i64::MAX - 10);
    assert!(state.takes(CONSUMED));
    assert_eq!(state.advance(CONSUMED), ProbeStep::Retry);
    assert!(!state.takes(CONSUMED));
    assert!(state.takes(INSUFFICIENT));
    assert!(state.takes(Attempt::TimedOut));
    assert_eq!(state.advance(INSUFFICIENT), ProbeStep::Done(i64::MAX - 10));
}
