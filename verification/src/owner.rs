//! The owner's side of the worker: the handle, the spawn protocol, and the
//! delivery of forwarded error reports.
//!
//! Spawning first asks the external loader collaborator for the script body;
//! that collaborator, the thread that will run the engine, and the real
//! channels all live outside this crate. [`spawn`] takes the loader's
//! outcome as a plain value and decides everything the protocol fixes: on
//! success the engine exists and its loop may start; on load failure exactly
//! one simplified error task goes back to the owner and the loop never
//! starts. Thread-creation failure is a synchronous failure of the
//! surrounding process and is never communicated through a message.

use vstd::prelude::*;
use crate::engine::Engine;
use crate::model::initial_model;
use crate::msgs::OwnerMsg;

verus! {

/// Owner-side proxy for a spawned worker: it carries the worker's opaque
/// address and no execution state, and is cheaply cloned. The surrounding
/// process pairs it with a real sender into the worker's inbox.
#[derive(Clone, Copy, PartialEq, Eq, Structural, Debug)]
pub struct WorkerHandle {
    pub addr: u64,
}

impl WorkerHandle {
    /// A handle for the worker at `addr`.
    pub fn new(addr: u64) -> (h: WorkerHandle)
        ensures
            h.addr == addr,
    {
        WorkerHandle { addr }
    }
}

/// What spawn needs from its caller: where the script body is to be loaded
/// from, and whether a debug collaborator is attached. The origin and
/// security context travel with the loader request outside this crate.
pub struct InitBundle {
    pub source_locator: String,
    pub debug_attached: bool,
}

/// The external loader collaborator's outcome: the loaded script body, or
/// failure.
pub enum LoadOutcome {
    Loaded(String),
    LoadFailed,
}

/// What spawning decided. When the load succeeded, `engine` is the fresh
/// engine (the surrounding process gives it a thread — its join token — and
/// hands `script_body` to the script context for the initial run) and
/// nothing is posted to the owner. When the load failed, there is no engine,
/// the loop never starts, and `owner_task` is the single simplified error
/// task for the owner.
pub struct SpawnOutcome {
    pub handle: WorkerHandle,
    pub engine: Option<Engine>,
    pub script_body: Option<String>,
    pub owner_task: Option<OwnerMsg>,
}

/// The spawn protocol, after the loader collaborator has answered.
pub fn spawn(addr: u64, bundle: InitBundle, load: LoadOutcome) -> (r: SpawnOutcome)
    ensures
        r.handle.addr == addr,
        load matches LoadOutcome::Loaded(body) ==> {
            &&& r.engine matches Some(e) && e@ == initial_model(addr, bundle.debug_attached)
                && e@.wf()
            &&& r.script_body == Some(body)
            &&& r.owner_task is None
        },
        load matches LoadOutcome::LoadFailed ==> {
            &&& r.engine is None
            &&& r.script_body is None
            &&& r.owner_task == Some(OwnerMsg::LoadFailure { locator: bundle.source_locator })
        },
{
    let handle = WorkerHandle::new(addr);
    match load {
        LoadOutcome::Loaded(body) => SpawnOutcome {
            handle,
            engine: Some(Engine::new(addr, bundle.debug_attached)),
            script_body: Some(body),
            owner_task: None,
        },
        LoadOutcome::LoadFailed => SpawnOutcome {
            handle,
            engine: None,
            script_body: None,
            owner_task: Some(OwnerMsg::LoadFailure { locator: bundle.source_locator }),
        },
    }
}

/// The owner's disposition of one forwarded error report.
#[derive(Clone, Copy, PartialEq, Eq, Structural, Debug)]
pub struct ErrorDelivery {
    /// The error event was dispatched against the public worker handle.
    pub event_fired: bool,
    /// The error was additionally reported to the owner's top-level error
    /// channel.
    pub global_reported: bool,
}

/// The owner handles one forwarded error report: the error event always
/// fires against the worker handle; the secondary report to the owner's
/// top-level error channel fires exactly when no listener canceled the
/// event.
pub fn deliver_error_report(canceled: bool) -> (d: ErrorDelivery)
    ensures
        d.event_fired,
        d.global_reported == !canceled,
{
    ErrorDelivery { event_fired: true, global_reported: !canceled }
}

} // verus!
