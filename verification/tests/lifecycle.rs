//! Lifecycle: the closing flag, channel closure, the cooperative interrupt
//! predicate, identity restoration, and protocol violations.

use worker_engine::engine::Engine;
use worker_engine::identity::IdentityCell;
use worker_engine::msgs::{Event, ExitReason, InterruptDecision, RunOutcome, TaskSpec,
    TimerMsg, TimerSource};

fn plain_task(id: u64) -> TaskSpec {
    TaskSpec { id, follow_ups: vec![], failure: None }
}

#[test]
fn close_discards_envelopes_enqueued_after_the_flip() {
    let mut e = Engine::new(7, false);
    e.close();
    e.post_data(7, 1);
    e.post_task(7, plain_task(2));
    assert_eq!(e.run(), RunOutcome::Exited(ExitReason::Closed));
    assert!(e.log().is_empty());
}

#[test]
fn close_exits_within_one_cycle() {
    let mut e = Engine::new(7, false);
    e.post_data(7, 1);
    assert_eq!(e.run(), RunOutcome::Idle);
    assert_eq!(e.log().len(), 1);
    e.close();
    e.post_data(7, 2);
    let st = e.step();
    assert_eq!(st, worker_engine::msgs::StepStatus::Exited(ExitReason::Closed));
    assert_eq!(e.log().len(), 1);
}

#[test]
fn closing_flag_is_monotonic() {
    let mut e = Engine::new(7, false);
    assert!(!e.is_closing());
    e.close();
    assert!(e.is_closing());
    e.close();
    assert!(e.is_closing());
}

#[test]
fn channel_closed_terminates_after_draining() {
    let mut e = Engine::new(7, false);
    e.post_data(7, 9);
    e.drop_senders();
    // Buffered envelopes are still delivered; then the loss of every
    // sender is unrecoverable and terminates the loop.
    assert_eq!(e.run(), RunOutcome::Exited(ExitReason::ChannelClosed));
    assert_eq!(e.log().as_slice(), &[Event::MessageEvent(9)]);
}

#[test]
fn channel_closed_on_empty_lanes() {
    let mut e = Engine::new(7, false);
    e.drop_senders();
    assert_eq!(e.run(), RunOutcome::Exited(ExitReason::ChannelClosed));
    assert!(e.log().is_empty());
}

#[test]
fn interrupt_predicate_follows_closing_flag() {
    let mut e = Engine::new(7, false);
    assert_eq!(e.interrupt_check(), InterruptDecision::ContinueScript);
    e.close();
    assert_eq!(e.interrupt_check(), InterruptDecision::AbortScript);
}

#[test]
fn identity_cell_restored_after_dispatch() {
    let mut e = Engine::new(7, false);
    assert_eq!(e.current_identity(), None);
    e.post_task(7, plain_task(1));
    e.post_data(7, 2);
    assert_eq!(e.run(), RunOutcome::Idle);
    assert_eq!(e.current_identity(), None);
}

#[test]
fn identity_cell_restored_after_failed_dispatch() {
    let mut e = Engine::new(7, false);
    e.post_task(
        7,
        TaskSpec {
            id: 1,
            follow_ups: vec![],
            failure: Some(worker_engine::msgs::ErrorRecord {
                message: String::from("boom"),
                filename: String::from("worker.js"),
                line: 1,
                column: 2,
            }),
        },
    );
    assert_eq!(e.run(), RunOutcome::Idle);
    assert_eq!(e.current_identity(), None);
}

#[test]
fn nested_identity_scopes_restore_in_stack_order() {
    let mut cell = IdentityCell::new();
    assert_eq!(cell.current(), None);
    cell.install(5);
    assert_eq!(cell.current(), Some(5));
    cell.install(6);
    assert_eq!(cell.current(), Some(6));
    cell.restore();
    assert_eq!(cell.current(), Some(5));
    cell.restore();
    assert_eq!(cell.current(), None);
    assert_eq!(cell.depth(), 0);
}

#[test]
fn foreign_timer_fire_is_fatal() {
    let mut e = Engine::new(7, false);
    e.post_timer(TimerMsg { target: 7, source: TimerSource::FromWindowSource, id: 3 });
    assert_eq!(e.run(), RunOutcome::Exited(ExitReason::ProtocolViolation));
    assert!(e.violation_observed());
    assert!(e.log().is_empty());
    // The violation is unrecoverable: later envelopes are never processed.
    e.post_data(7, 1);
    assert_eq!(e.run(), RunOutcome::Exited(ExitReason::ProtocolViolation));
    assert!(e.log().is_empty());
}
