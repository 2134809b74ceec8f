//! The error forwarder: one report per uncaught error, best-effort
//! delivery, and the owner-side disposition of a forwarded report.

use worker_engine::engine::Engine;
use worker_engine::msgs::{ErrorRecord, Event, OwnerMsg, RunOutcome, TaskSpec};
use worker_engine::owner::deliver_error_report;

fn boom() -> ErrorRecord {
    ErrorRecord {
        message: String::from("boom"),
        filename: String::from("worker.js"),
        line: 3,
        column: 14,
    }
}

#[test]
fn uncaught_error_forwards_exactly_one_report() {
    let mut e = Engine::new(7, false);
    e.post_task(7, TaskSpec { id: 1, follow_ups: vec![], failure: Some(boom()) });
    assert_eq!(e.run(), RunOutcome::Idle);
    assert_eq!(e.log().as_slice(), &[Event::TaskFailed(1)]);
    assert_eq!(e.owner_posts().as_slice(), &[OwnerMsg::ErrorReport(boom())]);
}

#[test]
fn failure_is_isolated_to_its_message() {
    let mut e = Engine::new(7, false);
    e.post_task(7, TaskSpec { id: 1, follow_ups: vec![], failure: Some(boom()) });
    e.post_data(7, 2);
    // The loop continues past the failing task and handles the next envelope.
    assert_eq!(e.run(), RunOutcome::Idle);
    assert_eq!(e.log().as_slice(), &[Event::TaskFailed(1), Event::MessageEvent(2)]);
    assert_eq!(e.owner_posts().len(), 1);
}

#[test]
fn successful_task_posts_no_report() {
    let mut e = Engine::new(7, false);
    e.post_task(7, TaskSpec { id: 1, follow_ups: vec![], failure: None });
    assert_eq!(e.run(), RunOutcome::Idle);
    assert!(e.owner_posts().is_empty());
}

#[test]
fn closed_owner_channel_swallows_the_report() {
    let mut e = Engine::new(7, false);
    e.close_owner_channel();
    e.post_task(7, TaskSpec { id: 1, follow_ups: vec![], failure: Some(boom()) });
    assert_eq!(e.run(), RunOutcome::Idle);
    assert_eq!(e.log().as_slice(), &[Event::TaskFailed(1)]);
    assert!(e.owner_posts().is_empty());
}

#[test]
fn canceled_error_event_suppresses_the_global_report() {
    let d = deliver_error_report(true);
    assert!(d.event_fired);
    assert!(!d.global_reported);
}

#[test]
fn uncanceled_error_event_reaches_the_global_report() {
    let d = deliver_error_report(false);
    assert!(d.event_fired);
    assert!(d.global_reported);
}

#[test]
fn post_message_to_owner_is_best_effort() {
    let mut e = Engine::new(7, false);
    assert!(e.post_message_to_owner(42));
    assert_eq!(e.owner_posts().as_slice(), &[OwnerMsg::OutboundData(42)]);
    e.close_owner_channel();
    assert!(!e.post_message_to_owner(43));
    assert_eq!(e.owner_posts().len(), 1);
}
