//! The timer relay's exactly-once delivery and the spawn protocol.

use worker_engine::engine::Engine;
use worker_engine::msgs::{Event, OwnerMsg, RunOutcome, TimerMsg, TimerSource};
use worker_engine::owner::{spawn, InitBundle, LoadOutcome};
use worker_engine::relay::TimerRelay;

fn worker_fire(target: u64, id: u64) -> TimerMsg {
    TimerMsg { target, source: TimerSource::FromWorkerSource, id }
}

#[test]
fn redelivered_fire_reaches_the_callback_exactly_once() {
    let mut e = Engine::new(7, false);
    let mut relay = TimerRelay::new();
    // The transport retried: the same fire notification arrives twice.
    if let Some(fire) = relay.deliver(worker_fire(7, 7)) {
        e.post_timer(fire);
    }
    if let Some(fire) = relay.deliver(worker_fire(7, 7)) {
        e.post_timer(fire);
    }
    assert_eq!(e.run(), RunOutcome::Idle);
    assert_eq!(e.log().as_slice(), &[Event::TimerCallback(7)]);
}

#[test]
fn distinct_fires_are_each_delivered() {
    let mut e = Engine::new(7, false);
    let mut relay = TimerRelay::new();
    for id in [1u64, 2, 1, 2, 3] {
        if let Some(fire) = relay.deliver(worker_fire(7, id)) {
            e.post_timer(fire);
        }
    }
    assert_eq!(e.run(), RunOutcome::Idle);
    assert_eq!(
        e.log().as_slice(),
        &[Event::TimerCallback(1), Event::TimerCallback(2), Event::TimerCallback(3)]
    );
}

#[test]
fn spawn_with_loaded_body_starts_an_engine() {
    let bundle = InitBundle {
        source_locator: String::from("https://example.test/worker.js"),
        debug_attached: false,
    };
    let out = spawn(9, bundle, LoadOutcome::Loaded(String::from("postMessage(1);")));
    assert_eq!(out.handle.addr, 9);
    assert_eq!(out.script_body.as_deref(), Some("postMessage(1);"));
    assert!(out.owner_task.is_none());
    let mut e = out.engine.expect("engine");
    assert_eq!(e.addr(), 9);
    e.post_data(9, 1);
    assert_eq!(e.run(), RunOutcome::Idle);
    assert_eq!(e.log().as_slice(), &[Event::MessageEvent(1)]);
}

#[test]
fn spawn_load_failure_posts_one_error_task_and_never_loops() {
    let bundle = InitBundle {
        source_locator: String::from("https://example.test/missing.js"),
        debug_attached: false,
    };
    let out = spawn(9, bundle, LoadOutcome::LoadFailed);
    assert_eq!(out.handle.addr, 9);
    assert!(out.engine.is_none());
    assert!(out.script_body.is_none());
    assert_eq!(
        out.owner_task,
        Some(OwnerMsg::LoadFailure { locator: String::from("https://example.test/missing.js") })
    );
}
