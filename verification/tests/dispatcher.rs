use hedera::backoff::Backoff;
use hedera::execute::{Action, Dispatcher, Event, Phase};
use hedera::status::StatusPolicy;
use hedera::Error;

const OK: i32 = 0;
const INVALID_SIGNATURE: i32 = 7;
const BUSY: i32 = 12;

fn policy() -> StatusPolicy {
    StatusPolicy::new(vec![OK], vec![BUSY])
}

fn dispatcher(nodes: usize, max_attempts: u32, deadline: Option<u64>) -> Dispatcher {
    Dispatcher::new(
        nodes,
        max_attempts,
        Backoff { base_delay: 100, max_delay: 1000 },
        deadline,
        policy(),
    )
    .unwrap()
}

#[test]
fn fails_over_from_a_dead_node_to_a_live_one() {
    let mut d = dispatcher(2, 10, None);
    let mut contacted = Vec::new();
    let mut action = d.step(Event::Begin, 0);
    let outcome = loop {
        match action {
            Action::Send { node } => {
                contacted.push(node);
                let event =
                    if node == 0 { Event::TransportError } else { Event::Response { status: OK } };
                action = d.step(event, 5);
            }
            Action::Wait { .. } => action = d.step(Event::Resumed, 5),
            other => break other,
        }
    };
    assert_eq!(outcome, Action::Accept { node: 1 });
    assert_eq!(contacted, vec![0, 1]);
    assert_eq!(d.attempts(), 2);
    assert_eq!(d.phase(), Phase::Accepted { node: 1 });
    assert!(d.has_failed(0));
    assert!(!d.has_failed(1));
}

#[test]
fn busy_node_is_retried_after_the_backoff() {
    let mut d = dispatcher(1, 10, None);
    assert_eq!(d.step(Event::Begin, 0), Action::Send { node: 0 });
    assert_eq!(d.step(Event::Response { status: BUSY }, 10), Action::Wait { delay: 100 });
    assert_eq!(d.phase(), Phase::Backoff { resume_at: 110 });
    assert_eq!(d.step(Event::Resumed, 110), Action::Send { node: 0 });
    assert_eq!(d.attempts(), 2);
    assert_eq!(d.step(Event::Response { status: OK }, 120), Action::Accept { node: 0 });
}

#[test]
fn invalid_signature_ends_the_dispatch_at_once() {
    let mut d = dispatcher(3, 10, None);
    assert_eq!(d.step(Event::Begin, 0), Action::Send { node: 0 });
    let failed = Action::Fail { error: Error::PreCheckStatus { status: INVALID_SIGNATURE } };
    assert_eq!(d.step(Event::Response { status: INVALID_SIGNATURE }, 10), failed);
    assert_eq!(d.attempts(), 1);
    assert_eq!(d.step(Event::Resumed, 20), failed);
    assert_eq!(d.step(Event::Begin, 30), failed);
    assert_eq!(d.step(Event::Response { status: OK }, 40), failed);
    assert_eq!(d.attempts(), 1);
}

#[test]
fn successive_waits_grow_up_to_the_maximum() {
    let mut d = dispatcher(2, 100, None);
    let mut elapsed = 0;
    let mut waits = Vec::new();
    let mut action = d.step(Event::Begin, elapsed);
    while waits.len() < 6 {
        match action {
            Action::Send { .. } => action = d.step(Event::Response { status: BUSY }, elapsed),
            Action::Wait { delay } => {
                waits.push(delay);
                elapsed += delay;
                action = d.step(Event::Resumed, elapsed);
            }
            other => panic!("the dispatch ended with {:?}", other),
        }
    }
    assert_eq!(waits, vec![100, 200, 400, 800, 1000, 1000]);
}

#[test]
fn deadline_shorter_than_the_backoff_ends_the_dispatch() {
    let mut d = dispatcher(2, 10, Some(50));
    assert_eq!(d.step(Event::Begin, 0), Action::Send { node: 0 });
    assert_eq!(d.step(Event::Response { status: BUSY }, 10), Action::Wait { delay: 100 });
    assert_eq!(
        d.step(Event::Resumed, 110),
        Action::Fail { error: Error::DeadlineExceeded }
    );
    assert_eq!(d.attempts(), 1);
    assert_eq!(d.phase(), Phase::Failed { error: Error::DeadlineExceeded });
}

#[test]
fn deadline_is_checked_before_the_first_attempt_too() {
    let mut d = dispatcher(2, 10, Some(50));
    assert_eq!(d.step(Event::Begin, 51), Action::Fail { error: Error::DeadlineExceeded });
    assert_eq!(d.attempts(), 0);
    let mut d = dispatcher(2, 10, Some(50));
    assert_eq!(d.step(Event::Begin, 50), Action::Send { node: 0 });
}

#[test]
fn attempt_in_flight_may_finish_after_the_deadline() {
    let mut d = dispatcher(1, 10, Some(50));
    assert_eq!(d.step(Event::Begin, 0), Action::Send { node: 0 });
    assert_eq!(d.step(Event::Response { status: OK }, 500), Action::Accept { node: 0 });
}

#[test]
fn waking_early_means_waiting_on() {
    let mut d = dispatcher(1, 10, None);
    d.step(Event::Begin, 0);
    assert_eq!(d.step(Event::Response { status: BUSY }, 10), Action::Wait { delay: 100 });
    assert_eq!(d.step(Event::Resumed, 70), Action::Wait { delay: 40 });
    assert_eq!(d.attempts(), 1);
    assert_eq!(d.step(Event::Resumed, 110), Action::Send { node: 0 });
}

#[test]
fn attempts_stop_at_the_ceiling() {
    let mut d = dispatcher(2, 3, None);
    assert_eq!(d.step(Event::Begin, 0), Action::Send { node: 0 });
    assert_eq!(d.step(Event::TransportError, 1), Action::Send { node: 1 });
    assert_eq!(d.step(Event::TransportError, 2), Action::Send { node: 0 });
    assert_eq!(
        d.step(Event::TransportError, 3),
        Action::Fail { error: Error::MaxAttemptsExceeded }
    );
    assert_eq!(d.attempts(), 3);
}

#[test]
fn busy_answer_to_the_last_attempt_ends_without_a_wait() {
    let mut d = dispatcher(1, 1, None);
    assert_eq!(d.step(Event::Begin, 0), Action::Send { node: 0 });
    assert_eq!(
        d.step(Event::Response { status: BUSY }, 1),
        Action::Fail { error: Error::MaxAttemptsExceeded }
    );
}

#[test]
fn no_attempts_allowed_means_none_are_made() {
    let mut d = dispatcher(1, 0, None);
    assert_eq!(d.step(Event::Begin, 0), Action::Fail { error: Error::MaxAttemptsExceeded });
    assert_eq!(d.attempts(), 0);
}

#[test]
fn ceiling_is_reported_when_it_is_reached_before_the_deadline() {
    let mut d = dispatcher(1, 1, Some(5));
    assert_eq!(d.step(Event::Begin, 0), Action::Send { node: 0 });
    assert_eq!(
        d.step(Event::TransportError, 100),
        Action::Fail { error: Error::MaxAttemptsExceeded }
    );
}

#[test]
fn failed_nodes_are_passed_over_but_not_excluded() {
    let mut d = dispatcher(3, 20, None);
    assert_eq!(d.step(Event::Begin, 0), Action::Send { node: 0 });
    assert_eq!(d.step(Event::TransportError, 0), Action::Send { node: 1 });
    assert_eq!(d.step(Event::Response { status: BUSY }, 0), Action::Wait { delay: 100 });
    // node 0 has failed, so after node 2 the turn goes to node 1 again
    assert_eq!(d.step(Event::Resumed, 100), Action::Send { node: 2 });
    assert_eq!(d.step(Event::Response { status: BUSY }, 100), Action::Wait { delay: 200 });
    assert_eq!(d.step(Event::Resumed, 300), Action::Send { node: 1 });
    assert_eq!(d.step(Event::TransportError, 300), Action::Send { node: 2 });
    assert_eq!(d.step(Event::TransportError, 300), Action::Send { node: 0 });
    // every node has failed: they are tried in turn all the same
    assert!(d.has_failed(0) && d.has_failed(1) && d.has_failed(2));
    assert_eq!(d.step(Event::TransportError, 300), Action::Send { node: 1 });
    // a node that answers is no longer held to have failed
    assert_eq!(d.step(Event::Response { status: BUSY }, 300), Action::Wait { delay: 400 });
    assert!(!d.has_failed(1));
    assert_eq!(d.step(Event::Resumed, 700), Action::Send { node: 1 });
}

#[test]
fn events_out_of_turn_end_the_dispatch() {
    let mut d = dispatcher(1, 5, None);
    assert_eq!(
        d.step(Event::Response { status: OK }, 0),
        Action::Fail { error: Error::InvalidState }
    );
    let mut d = dispatcher(1, 5, None);
    d.step(Event::Begin, 0);
    assert_eq!(d.step(Event::Begin, 0), Action::Fail { error: Error::InvalidState });
    let mut d = dispatcher(1, 5, None);
    d.step(Event::Begin, 0);
    d.step(Event::Response { status: BUSY }, 0);
    assert_eq!(d.step(Event::TransportError, 0), Action::Fail { error: Error::InvalidState });
}

#[test]
fn no_nodes_no_dispatcher() {
    let result =
        Dispatcher::new(0, 5, Backoff { base_delay: 1, max_delay: 2 }, None, policy());
    assert!(matches!(result, Err(Error::InvalidState)));
}

#[test]
fn wait_near_the_end_of_time_does_not_wrap() {
    let mut d = dispatcher(1, 5, None);
    d.step(Event::Begin, 0);
    assert_eq!(
        d.step(Event::Response { status: BUSY }, u64::MAX - 10),
        Action::Wait { delay: 100 }
    );
    assert_eq!(d.phase(), Phase::Backoff { resume_at: u64::MAX });
    assert_eq!(d.step(Event::Resumed, u64::MAX), Action::Send { node: 0 });
}
