//! The processing loop: ordering within and across lanes, the microtask
//! checkpoint, and debug-control handling.

use worker_engine::engine::Engine;
use worker_engine::msgs::{DebugMsg, Event, RunOutcome, TaskSpec, TimerMsg, TimerSource};

fn plain_task(id: u64) -> TaskSpec {
    TaskSpec { id, follow_ups: vec![], failure: None }
}

fn worker_fire(target: u64, id: u64) -> TimerMsg {
    TimerMsg { target, source: TimerSource::FromWorkerSource, id }
}

#[test]
fn inbound_data_in_order() {
    let mut e = Engine::new(7, false);
    e.post_data(7, 1);
    e.post_data(7, 2);
    e.post_data(7, 3);
    assert_eq!(e.run(), RunOutcome::Idle);
    assert_eq!(
        e.log().as_slice(),
        &[Event::MessageEvent(1), Event::MessageEvent(2), Event::MessageEvent(3)]
    );
}

#[test]
fn tasks_sent_before_timer_fire_handled_in_send_order() {
    let mut e = Engine::new(7, false);
    e.post_task(7, plain_task(1));
    e.post_task(7, plain_task(2));
    e.post_task(7, plain_task(3));
    e.post_timer(worker_fire(7, 40));
    assert_eq!(e.run(), RunOutcome::Idle);
    let task_events: Vec<Event> = e
        .log()
        .iter()
        .copied()
        .filter(|ev| matches!(ev, Event::TaskDone(_)))
        .collect();
    assert_eq!(
        task_events,
        vec![Event::TaskDone(1), Event::TaskDone(2), Event::TaskDone(3)]
    );
    let fires = e
        .log()
        .iter()
        .filter(|ev| matches!(ev, Event::TimerCallback(40)))
        .count();
    assert_eq!(fires, 1);
}

#[test]
fn rotation_services_every_ready_lane() {
    let mut e = Engine::new(7, true);
    e.post_task(7, plain_task(1));
    e.post_timer(worker_fire(7, 50));
    e.post_debug(DebugMsg::SetLiveNotifications { pipeline: 9, enabled: true });
    // Three ready lanes, three iterations: each lane is serviced once.
    for _ in 0..3 {
        let st = e.step();
        assert_eq!(st, worker_engine::msgs::StepStatus::Progressed);
    }
    assert_eq!(
        e.log().as_slice(),
        &[
            Event::TaskDone(1),
            Event::TimerCallback(50),
            Event::DebugLiveNotifications { pipeline: 9, enabled: true },
        ]
    );
}

#[test]
fn microtask_checkpoint_completes_before_next_envelope() {
    let mut e = Engine::new(7, false);
    e.post_task(7, TaskSpec { id: 1, follow_ups: vec![10, 11], failure: None });
    e.post_task(7, plain_task(2));
    assert_eq!(e.run(), RunOutcome::Idle);
    assert_eq!(
        e.log().as_slice(),
        &[
            Event::TaskDone(1),
            Event::Microtask(10),
            Event::Microtask(11),
            Event::TaskDone(2),
        ]
    );
}

#[test]
fn debug_control_variants_are_delegated() {
    let mut e = Engine::new(7, true);
    e.post_debug(DebugMsg::EvaluateScript {
        pipeline: 1,
        source_text: String::from("1 + 1"),
        reply: 100,
    });
    e.post_debug(DebugMsg::GetCachedMessages { pipeline: 1, filter_mask: 6, reply: 101 });
    e.post_debug(DebugMsg::SetLiveNotifications { pipeline: 1, enabled: false });
    assert_eq!(e.run(), RunOutcome::Idle);
    assert_eq!(
        e.log().as_slice(),
        &[
            Event::DebugEvaluated { pipeline: 1, reply: 100 },
            Event::DebugCachedMessages { pipeline: 1, filter_mask: 6, reply: 101 },
            Event::DebugLiveNotifications { pipeline: 1, enabled: false },
        ]
    );
}

#[test]
fn unrecognized_debug_control_is_logged_and_dropped() {
    let mut e = Engine::new(7, true);
    e.post_debug(DebugMsg::Unrecognized { tag: 77 });
    e.post_data(7, 5);
    // Never fatal: the loop goes on and handles the next envelope.
    assert_eq!(e.run(), RunOutcome::Idle);
    assert_eq!(
        e.log().as_slice(),
        &[Event::MessageEvent(5), Event::DebugIgnored { tag: 77 }]
    );
    assert!(!e.violation_observed());
}

#[test]
fn detached_debug_lane_is_left_unserviced() {
    let mut e = Engine::new(7, false);
    e.post_debug(DebugMsg::Unrecognized { tag: 1 });
    assert_eq!(e.run(), RunOutcome::Idle);
    assert!(e.log().is_empty());
    assert_eq!(e.lane_depths().2, 1);
}
